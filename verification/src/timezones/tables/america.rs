//! The tables of the zones of the Americas.

use crate::timezone_impl::{FixedTimespan, Table};
use vstd::prelude::*;

verus! {

/// Row `i` of the table of the zone `America/Adak`.
pub open spec fn adak_row(i: int) -> (i64, FixedTimespan) {
    if i < 72 {
     if i < 36 {
      if i < 18 {
       if i < 9 {
        if i < 4 {
         if i < 2 {
          if i < 1 {
           Table::row(-3225223727, -42398, 0, "LMT")
          } else {
           Table::row(-2188944802, -39600, 0, "NST")
          }
         } else {
          if i < 3 {
           Table::row(-880196400, -39600, 3600, "NWT")
          } else {
           Table::row(-769395600, -39600, 3600, "NPT")
          }
         }
        } else {
         if i < 6 {
          if i < 5 {
           Table::row(-765374400, -39600, 0, "NST")
          } else {
           Table::row(-86878800, -39600, 0, "BST")
          }
         } else {
          if i < 7 {
           Table::row(-21466800, -39600, 3600, "BDT")
          } else {
           if i < 8 {
            Table::row(-5745600, -39600, 0, "BST")
           } else {
            Table::row(9982800, -39600, 3600, "BDT")
           }
          }
         }
        }
       } else {
        if i < 13 {
         if i < 11 {
          if i < 10 {
           Table::row(25704000, -39600, 0, "BST")
          } else {
           Table::row(41432400, -39600, 3600, "BDT")
          }
         } else {
          if i < 12 {
           Table::row(57758400, -39600, 0, "BST")
          } else {
           Table::row(73486800, -39600, 3600, "BDT")
          }
         }
        } else {
         if i < 15 {
          if i < 14 {
           Table::row(89208000, -39600, 0, "BST")
          } else {
           Table::row(104936400, -39600, 3600, "BDT")
          }
         } else {
          if i < 16 {
           Table::row(120657600, -39600, 0, "BST")
          } else {
           if i < 17 {
            Table::row(126709200, -39600, 3600, "BDT")
           } else {
            Table::row(152107200, -39600, 0, "BST")
           }
          }
         }
        }
       }
      } else {
       if i < 27 {
        if i < 22 {
         if i < 20 {
          if i < 19 {
           Table::row(162392400, -39600, 3600, "BDT")
          } else {
           Table::row(183556800, -39600, 0, "BST")
          }
         } else {
          if i < 21 {
           Table::row(199285200, -39600, 3600, "BDT")
          } else {
           Table::row(215611200, -39600, 0, "BST")
          }
         }
        } else {
         if i < 24 {
          if i < 23 {
           Table::row(230734800, -39600, 3600, "BDT")
          } else {
           Table::row(247060800, -39600, 0, "BST")
          }
         } else {
          if i < 25 {
           Table::row(262789200, -39600, 3600, "BDT")
          } else {
           if i < 26 {
            Table::row(278510400, -39600, 0, "BST")
           } else {
            Table::row(294238800, -39600, 3600, "BDT")
           }
          }
         }
        }
       } else {
        if i < 31 {
         if i < 29 {
          if i < 28 {
           Table::row(309960000, -39600, 0, "BST")
          } else {
           Table::row(325688400, -39600, 3600, "BDT")
          }
         } else {
          if i < 30 {
           Table::row(341409600, -39600, 0, "BST")
          } else {
           Table::row(357138000, -39600, 3600, "BDT")
          }
         }
        } else {
         if i < 33 {
          if i < 32 {
           Table::row(372859200, -39600, 0, "BST")
          } else {
           Table::row(388587600, -39600, 3600, "BDT")
          }
         } else {
          if i < 34 {
           Table::row(404913600, -39600, 0, "BST")
          } else {
           if i < 35 {
            Table::row(420037200, -39600, 3600, "BDT")
           } else {
            Table::row(436363200, -36000, 0, "AHST")
           }
          }
         }
        }
       }
      }
     } else {
      if i < 54 {
       if i < 45 {
        if i < 40 {
         if i < 38 {
          if i < 37 {
           Table::row(439034400, -36000, 0, "HST")
          } else {
           Table::row(452088000, -36000, 3600, "HDT")
          }
         } else {
          if i < 39 {
           Table::row(467809200, -36000, 0, "HST")
          } else {
           Table::row(483537600, -36000, 3600, "HDT")
          }
         }
        } else {
         if i < 42 {
          if i < 41 {
           Table::row(499258800, -36000, 0, "HST")
          } else {
           Table::row(514987200, -36000, 3600, "HDT")
          }
         } else {
          if i < 43 {
           Table::row(530708400, -36000, 0, "HST")
          } else {
           if i < 44 {
            Table::row(544622400, -36000, 3600, "HDT")
           } else {
            Table::row(562158000, -36000, 0, "HST")
           }
          }
         }
        }
       } else {
        if i < 49 {
         if i < 47 {
          if i < 46 {
           Table::row(576072000, -36000, 3600, "HDT")
          } else {
           Table::row(594212400, -36000, 0, "HST")
          }
         } else {
          if i < 48 {
           Table::row(607521600, -36000, 3600, "HDT")
          } else {
           Table::row(625662000, -36000, 0, "HST")
          }
         }
        } else {
         if i < 51 {
          if i < 50 {
           Table::row(638971200, -36000, 3600, "HDT")
          } else {
           Table::row(657111600, -36000, 0, "HST")
          }
         } else {
          if i < 52 {
           Table::row(671025600, -36000, 3600, "HDT")
          } else {
           if i < 53 {
            Table::row(688561200, -36000, 0, "HST")
           } else {
            Table::row(702475200, -36000, 3600, "HDT")
           }
          }
         }
        }
       }
      } else {
       if i < 63 {
        if i < 58 {
         if i < 56 {
          if i < 55 {
           Table::row(720010800, -36000, 0, "HST")
          } else {
           Table::row(733924800, -36000, 3600, "HDT")
          }
         } else {
          if i < 57 {
           Table::row(752065200, -36000, 0, "HST")
          } else {
           Table::row(765374400, -36000, 3600, "HDT")
          }
         }
        } else {
         if i < 60 {
          if i < 59 {
           Table::row(783514800, -36000, 0, "HST")
          } else {
           Table::row(796824000, -36000, 3600, "HDT")
          }
         } else {
          if i < 61 {
           Table::row(814964400, -36000, 0, "HST")
          } else {
           if i < 62 {
            Table::row(828878400, -36000, 3600, "HDT")
           } else {
            Table::row(846414000, -36000, 0, "HST")
           }
          }
         }
        }
       } else {
        if i < 67 {
         if i < 65 {
          if i < 64 {
           Table::row(860328000, -36000, 3600, "HDT")
          } else {
           Table::row(877863600, -36000, 0, "HST")
          }
         } else {
          if i < 66 {
           Table::row(891777600, -36000, 3600, "HDT")
          } else {
           Table::row(909313200, -36000, 0, "HST")
          }
         }
        } else {
         if i < 69 {
          if i < 68 {
           Table::row(923227200, -36000, 3600, "HDT")
          } else {
           Table::row(941367600, -36000, 0, "HST")
          }
         } else {
          if i < 70 {
           Table::row(954676800, -36000, 3600, "HDT")
          } else {
           if i < 71 {
            Table::row(972817200, -36000, 0, "HST")
           } else {
            Table::row(986126400, -36000, 3600, "HDT")
           }
          }
         }
        }
       }
      }
     }
    } else {
     if i < 108 {
      if i < 90 {
       if i < 81 {
        if i < 76 {
         if i < 74 {
          if i < 73 {
           Table::row(1004266800, -36000, 0, "HST")
          } else {
           Table::row(1018180800, -36000, 3600, "HDT")
          }
         } else {
          if i < 75 {
           Table::row(1035716400, -36000, 0, "HST")
          } else {
           Table::row(1049630400, -36000, 3600, "HDT")
          }
         }
        } else {
         if i < 78 {
          if i < 77 {
           Table::row(1067166000, -36000, 0, "HST")
          } else {
           Table::row(1081080000, -36000, 3600, "HDT")
          }
         } else {
          if i < 79 {
           Table::row(1099220400, -36000, 0, "HST")
          } else {
           if i < 80 {
            Table::row(1112529600, -36000, 3600, "HDT")
           } else {
            Table::row(1130670000, -36000, 0, "HST")
           }
          }
         }
        }
       } else {
        if i < 85 {
         if i < 83 {
          if i < 82 {
           Table::row(1143979200, -36000, 3600, "HDT")
          } else {
           Table::row(1162119600, -36000, 0, "HST")
          }
         } else {
          if i < 84 {
           Table::row(1173614400, -36000, 3600, "HDT")
          } else {
           Table::row(1194174000, -36000, 0, "HST")
          }
         }
        } else {
         if i < 87 {
          if i < 86 {
           Table::row(1205064000, -36000, 3600, "HDT")
          } else {
           Table::row(1225623600, -36000, 0, "HST")
          }
         } else {
          if i < 88 {
           Table::row(1236513600, -36000, 3600, "HDT")
          } else {
           if i < 89 {
            Table::row(1257073200, -36000, 0, "HST")
           } else {
            Table::row(1268568000, -36000, 3600, "HDT")
           }
          }
         }
        }
       }
      } else {
       if i < 99 {
        if i < 94 {
         if i < 92 {
          if i < 91 {
           Table::row(1289127600, -36000, 0, "HST")
          } else {
           Table::row(1300017600, -36000, 3600, "HDT")
          }
         } else {
          if i < 93 {
           Table::row(1320577200, -36000, 0, "HST")
          } else {
           Table::row(1331467200, -36000, 3600, "HDT")
          }
         }
        } else {
         if i < 96 {
          if i < 95 {
           Table::row(1352026800, -36000, 0, "HST")
          } else {
           Table::row(1362916800, -36000, 3600, "HDT")
          }
         } else {
          if i < 97 {
           Table::row(1383476400, -36000, 0, "HST")
          } else {
           if i < 98 {
            Table::row(1394366400, -36000, 3600, "HDT")
           } else {
            Table::row(1414926000, -36000, 0, "HST")
           }
          }
         }
        }
       } else {
        if i < 103 {
         if i < 101 {
          if i < 100 {
           Table::row(1425816000, -36000, 3600, "HDT")
          } else {
           Table::row(1446375600, -36000, 0, "HST")
          }
         } else {
          if i < 102 {
           Table::row(1457870400, -36000, 3600, "HDT")
          } else {
           Table::row(1478430000, -36000, 0, "HST")
          }
         }
        } else {
         if i < 105 {
          if i < 104 {
           Table::row(1489320000, -36000, 3600, "HDT")
          } else {
           Table::row(1509879600, -36000, 0, "HST")
          }
         } else {
          if i < 106 {
           Table::row(1520769600, -36000, 3600, "HDT")
          } else {
           if i < 107 {
            Table::row(1541329200, -36000, 0, "HST")
           } else {
            Table::row(1552219200, -36000, 3600, "HDT")
           }
          }
         }
        }
       }
      }
     } else {
      if i < 126 {
       if i < 117 {
        if i < 112 {
         if i < 110 {
          if i < 109 {
           Table::row(1572778800, -36000, 0, "HST")
          } else {
           Table::row(1583668800, -36000, 3600, "HDT")
          }
         } else {
          if i < 111 {
           Table::row(1604228400, -36000, 0, "HST")
          } else {
           Table::row(1615723200, -36000, 3600, "HDT")
          }
         }
        } else {
         if i < 114 {
          if i < 113 {
           Table::row(1636282800, -36000, 0, "HST")
          } else {
           Table::row(1647172800, -36000, 3600, "HDT")
          }
         } else {
          if i < 115 {
           Table::row(1667732400, -36000, 0, "HST")
          } else {
           if i < 116 {
            Table::row(1678622400, -36000, 3600, "HDT")
           } else {
            Table::row(1699182000, -36000, 0, "HST")
           }
          }
         }
        }
       } else {
        if i < 121 {
         if i < 119 {
          if i < 118 {
           Table::row(1710072000, -36000, 3600, "HDT")
          } else {
           Table::row(1730631600, -36000, 0, "HST")
          }
         } else {
          if i < 120 {
           Table::row(1741521600, -36000, 3600, "HDT")
          } else {
           Table::row(1762081200, -36000, 0, "HST")
          }
         }
        } else {
         if i < 123 {
          if i < 122 {
           Table::row(1772971200, -36000, 3600, "HDT")
          } else {
           Table::row(1793530800, -36000, 0, "HST")
          }
         } else {
          if i < 124 {
           Table::row(1805025600, -36000, 3600, "HDT")
          } else {
           if i < 125 {
            Table::row(1825585200, -36000, 0, "HST")
           } else {
            Table::row(1836475200, -36000, 3600, "HDT")
           }
          }
         }
        }
       }
      } else {
       if i < 135 {
        if i < 130 {
         if i < 128 {
          if i < 127 {
           Table::row(1857034800, -36000, 0, "HST")
          } else {
           Table::row(1867924800, -36000, 3600, "HDT")
          }
         } else {
          if i < 129 {
           Table::row(1888484400, -36000, 0, "HST")
          } else {
           Table::row(1899374400, -36000, 3600, "HDT")
          }
         }
        } else {
         if i < 132 {
          if i < 131 {
           Table::row(1919934000, -36000, 0, "HST")
          } else {
           Table::row(1930824000, -36000, 3600, "HDT")
          }
         } else {
          if i < 133 {
           Table::row(1951383600, -36000, 0, "HST")
          } else {
           if i < 134 {
            Table::row(1962878400, -36000, 3600, "HDT")
           } else {
            Table::row(1983438000, -36000, 0, "HST")
           }
          }
         }
        }
       } else {
        if i < 140 {
         if i < 137 {
          if i < 136 {
           Table::row(1994328000, -36000, 3600, "HDT")
          } else {
           Table::row(2014887600, -36000, 0, "HST")
          }
         } else {
          if i < 138 {
           Table::row(2025777600, -36000, 3600, "HDT")
          } else {
           if i < 139 {
            Table::row(2046337200, -36000, 0, "HST")
           } else {
            Table::row(2057227200, -36000, 3600, "HDT")
           }
          }
         }
        } else {
         if i < 142 {
          if i < 141 {
           Table::row(2077786800, -36000, 0, "HST")
          } else {
           Table::row(2088676800, -36000, 3600, "HDT")
          }
         } else {
          if i < 143 {
           Table::row(2109236400, -36000, 0, "HST")
          } else {
           if i < 144 {
            Table::row(2120126400, -36000, 3600, "HDT")
           } else {
            Table::row(2140686000, -36000, 0, "HST")
           }
          }
         }
        }
       }
      }
     }
    }
}

/// The rows of the table of the zone `America/Adak`.
pub open spec fn adak_rows() -> spec_fn(int) -> (i64, FixedTimespan) {
    |i: int| adak_row(i)
}

/// The table of the zone `America/Adak`.
pub open spec fn adak() -> Table {
    Table::listed(Table::row(0, 44002, 0, "LMT").1, 145, adak_rows())
}

/// Row `i` of the table of the zone `America/Anchorage`.
pub open spec fn anchorage_row(i: int) -> (i64, FixedTimespan) {
    if i < 72 {
     if i < 36 {
      if i < 18 {
       if i < 9 {
        if i < 4 {
         if i < 2 {
          if i < 1 {
           Table::row(-3225223727, -35976, 0, "LMT")
          } else {
           Table::row(-2188951224, -36000, 0, "AST")
          }
         } else {
          if i < 3 {
           Table::row(-880200000, -36000, 3600, "AWT")
          } else {
           Table::row(-769395600, -36000, 3600, "APT")
          }
         }
        } else {
         if i < 6 {
          if i < 5 {
           Table::row(-765378000, -36000, 0, "AST")
          } else {
           Table::row(-86882400, -36000, 0, "AHST")
          }
         } else {
          if i < 7 {
           Table::row(-21470400, -36000, 3600, "AHDT")
          } else {
           if i < 8 {
            Table::row(-5749200, -36000, 0, "AHST")
           } else {
            Table::row(9979200, -36000, 3600, "AHDT")
           }
          }
         }
        }
       } else {
        if i < 13 {
         if i < 11 {
          if i < 10 {
           Table::row(25700400, -36000, 0, "AHST")
          } else {
           Table::row(41428800, -36000, 3600, "AHDT")
          }
         } else {
          if i < 12 {
           Table::row(57754800, -36000, 0, "AHST")
          } else {
           Table::row(73483200, -36000, 3600, "AHDT")
          }
         }
        } else {
         if i < 15 {
          if i < 14 {
           Table::row(89204400, -36000, 0, "AHST")
          } else {
           Table::row(104932800, -36000, 3600, "AHDT")
          }
         } else {
          if i < 16 {
           Table::row(120654000, -36000, 0, "AHST")
          } else {
           if i < 17 {
            Table::row(126705600, -36000, 3600, "AHDT")
           } else {
            Table::row(152103600, -36000, 0, "AHST")
           }
          }
         }
        }
       }
      } else {
       if i < 27 {
        if i < 22 {
         if i < 20 {
          if i < 19 {
           Table::row(162388800, -36000, 3600, "AHDT")
          } else {
           Table::row(183553200, -36000, 0, "AHST")
          }
         } else {
          if i < 21 {
           Table::row(199281600, -36000, 3600, "AHDT")
          } else {
           Table::row(215607600, -36000, 0, "AHST")
          }
         }
        } else {
         if i < 24 {
          if i < 23 {
           Table::row(230731200, -36000, 3600, "AHDT")
          } else {
           Table::row(247057200, -36000, 0, "AHST")
          }
         } else {
          if i < 25 {
           Table::row(262785600, -36000, 3600, "AHDT")
          } else {
           if i < 26 {
            Table::row(278506800, -36000, 0, "AHST")
           } else {
            Table::row(294235200, -36000, 3600, "AHDT")
           }
          }
         }
        }
       } else {
        if i < 31 {
         if i < 29 {
          if i < 28 {
           Table::row(309956400, -36000, 0, "AHST")
          } else {
           Table::row(325684800, -36000, 3600, "AHDT")
          }
         } else {
          if i < 30 {
           Table::row(341406000, -36000, 0, "AHST")
          } else {
           Table::row(357134400, -36000, 3600, "AHDT")
          }
         }
        } else {
         if i < 33 {
          if i < 32 {
           Table::row(372855600, -36000, 0, "AHST")
          } else {
           Table::row(388584000, -36000, 3600, "AHDT")
          }
         } else {
          if i < 34 {
           Table::row(404910000, -36000, 0, "AHST")
          } else {
           if i < 35 {
            Table::row(420033600, -36000, 3600, "AHDT")
           } else {
            Table::row(436359600, -32400, 0, "YST")
           }
          }
         }
        }
       }
      }
     } else {
      if i < 54 {
       if i < 45 {
        if i < 40 {
         if i < 38 {
          if i < 37 {
           Table::row(439030800, -32400, 0, "AKST")
          } else {
           Table::row(452084400, -32400, 3600, "AKDT")
          }
         } else {
          if i < 39 {
           Table::row(467805600, -32400, 0, "AKST")
          } else {
           Table::row(483534000, -32400, 3600, "AKDT")
          }
         }
        } else {
         if i < 42 {
          if i < 41 {
           Table::row(499255200, -32400, 0, "AKST")
          } else {
           Table::row(514983600, -32400, 3600, "AKDT")
          }
         } else {
          if i < 43 {
           Table::row(530704800, -32400, 0, "AKST")
          } else {
           if i < 44 {
            Table::row(544618800, -32400, 3600, "AKDT")
           } else {
            Table::row(562154400, -32400, 0, "AKST")
           }
          }
         }
        }
       } else {
        if i < 49 {
         if i < 47 {
          if i < 46 {
           Table::row(576068400, -32400, 3600, "AKDT")
          } else {
           Table::row(594208800, -32400, 0, "AKST")
          }
         } else {
          if i < 48 {
           Table::row(607518000, -32400, 3600, "AKDT")
          } else {
           Table::row(625658400, -32400, 0, "AKST")
          }
         }
        } else {
         if i < 51 {
          if i < 50 {
           Table::row(638967600, -32400, 3600, "AKDT")
          } else {
           Table::row(657108000, -32400, 0, "AKST")
          }
         } else {
          if i < 52 {
           Table::row(671022000, -32400, 3600, "AKDT")
          } else {
           if i < 53 {
            Table::row(688557600, -32400, 0, "AKST")
           } else {
            Table::row(702471600, -32400, 3600, "AKDT")
           }
          }
         }
        }
       }
      } else {
       if i < 63 {
        if i < 58 {
         if i < 56 {
          if i < 55 {
           Table::row(720007200, -32400, 0, "AKST")
          } else {
           Table::row(733921200, -32400, 3600, "AKDT")
          }
         } else {
          if i < 57 {
           Table::row(752061600, -32400, 0, "AKST")
          } else {
           Table::row(765370800, -32400, 3600, "AKDT")
          }
         }
        } else {
         if i < 60 {
          if i < 59 {
           Table::row(783511200, -32400, 0, "AKST")
          } else {
           Table::row(796820400, -32400, 3600, "AKDT")
          }
         } else {
          if i < 61 {
           Table::row(814960800, -32400, 0, "AKST")
          } else {
           if i < 62 {
            Table::row(828874800, -32400, 3600, "AKDT")
           } else {
            Table::row(846410400, -32400, 0, "AKST")
           }
          }
         }
        }
       } else {
        if i < 67 {
         if i < 65 {
          if i < 64 {
           Table::row(860324400, -32400, 3600, "AKDT")
          } else {
           Table::row(877860000, -32400, 0, "AKST")
          }
         } else {
          if i < 66 {
           Table::row(891774000, -32400, 3600, "AKDT")
          } else {
           Table::row(909309600, -32400, 0, "AKST")
          }
         }
        } else {
         if i < 69 {
          if i < 68 {
           Table::row(923223600, -32400, 3600, "AKDT")
          } else {
           Table::row(941364000, -32400, 0, "AKST")
          }
         } else {
          if i < 70 {
           Table::row(954673200, -32400, 3600, "AKDT")
          } else {
           if i < 71 {
            Table::row(972813600, -32400, 0, "AKST")
           } else {
            Table::row(986122800, -32400, 3600, "AKDT")
           }
          }
         }
        }
       }
      }
     }
    } else {
     if i < 108 {
      if i < 90 {
       if i < 81 {
        if i < 76 {
         if i < 74 {
          if i < 73 {
           Table::row(1004263200, -32400, 0, "AKST")
          } else {
           Table::row(1018177200, -32400, 3600, "AKDT")
          }
         } else {
          if i < 75 {
           Table::row(1035712800, -32400, 0, "AKST")
          } else {
           Table::row(1049626800, -32400, 3600, "AKDT")
          }
         }
        } else {
         if i < 78 {
          if i < 77 {
           Table::row(1067162400, -32400, 0, "AKST")
          } else {
           Table::row(1081076400, -32400, 3600, "AKDT")
          }
         } else {
          if i < 79 {
           Table::row(1099216800, -32400, 0, "AKST")
          } else {
           if i < 80 {
            Table::row(1112526000, -32400, 3600, "AKDT")
           } else {
            Table::row(1130666400, -32400, 0, "AKST")
           }
          }
         }
        }
       } else {
        if i < 85 {
         if i < 83 {
          if i < 82 {
           Table::row(1143975600, -32400, 3600, "AKDT")
          } else {
           Table::row(1162116000, -32400, 0, "AKST")
          }
         } else {
          if i < 84 {
           Table::row(1173610800, -32400, 3600, "AKDT")
          } else {
           Table::row(1194170400, -32400, 0, "AKST")
          }
         }
        } else {
         if i < 87 {
          if i < 86 {
           Table::row(1205060400, -32400, 3600, "AKDT")
          } else {
           Table::row(1225620000, -32400, 0, "AKST")
          }
         } else {
          if i < 88 {
           Table::row(1236510000, -32400, 3600, "AKDT")
          } else {
           if i < 89 {
            Table::row(1257069600, -32400, 0, "AKST")
           } else {
            Table::row(1268564400, -32400, 3600, "AKDT")
           }
          }
         }
        }
       }
      } else {
       if i < 99 {
        if i < 94 {
         if i < 92 {
          if i < 91 {
           Table::row(1289124000, -32400, 0, "AKST")
          } else {
           Table::row(1300014000, -32400, 3600, "AKDT")
          }
         } else {
          if i < 93 {
           Table::row(1320573600, -32400, 0, "AKST")
          } else {
           Table::row(1331463600, -32400, 3600, "AKDT")
          }
         }
        } else {
         if i < 96 {
          if i < 95 {
           Table::row(1352023200, -32400, 0, "AKST")
          } else {
           Table::row(1362913200, -32400, 3600, "AKDT")
          }
         } else {
          if i < 97 {
           Table::row(1383472800, -32400, 0, "AKST")
          } else {
           if i < 98 {
            Table::row(1394362800, -32400, 3600, "AKDT")
           } else {
            Table::row(1414922400, -32400, 0, "AKST")
           }
          }
         }
        }
       } else {
        if i < 103 {
         if i < 101 {
          if i < 100 {
           Table::row(1425812400, -32400, 3600, "AKDT")
          } else {
           Table::row(1446372000, -32400, 0, "AKST")
          }
         } else {
          if i < 102 {
           Table::row(1457866800, -32400, 3600, "AKDT")
          } else {
           Table::row(1478426400, -32400, 0, "AKST")
          }
         }
        } else {
         if i < 105 {
          if i < 104 {
           Table::row(1489316400, -32400, 3600, "AKDT")
          } else {
           Table::row(1509876000, -32400, 0, "AKST")
          }
         } else {
          if i < 106 {
           Table::row(1520766000, -32400, 3600, "AKDT")
          } else {
           if i < 107 {
            Table::row(1541325600, -32400, 0, "AKST")
           } else {
            Table::row(1552215600, -32400, 3600, "AKDT")
           }
          }
         }
        }
       }
      }
     } else {
      if i < 126 {
       if i < 117 {
        if i < 112 {
         if i < 110 {
          if i < 109 {
           Table::row(1572775200, -32400, 0, "AKST")
          } else {
           Table::row(1583665200, -32400, 3600, "AKDT")
          }
         } else {
          if i < 111 {
           Table::row(1604224800, -32400, 0, "AKST")
          } else {
           Table::row(1615719600, -32400, 3600, "AKDT")
          }
         }
        } else {
         if i < 114 {
          if i < 113 {
           Table::row(1636279200, -32400, 0, "AKST")
          } else {
           Table::row(1647169200, -32400, 3600, "AKDT")
          }
         } else {
          if i < 115 {
           Table::row(1667728800, -32400, 0, "AKST")
          } else {
           if i < 116 {
            Table::row(1678618800, -32400, 3600, "AKDT")
           } else {
            Table::row(1699178400, -32400, 0, "AKST")
           }
          }
         }
        }
       } else {
        if i < 121 {
         if i < 119 {
          if i < 118 {
           Table::row(1710068400, -32400, 3600, "AKDT")
          } else {
           Table::row(1730628000, -32400, 0, "AKST")
          }
         } else {
          if i < 120 {
           Table::row(1741518000, -32400, 3600, "AKDT")
          } else {
           Table::row(1762077600, -32400, 0, "AKST")
          }
         }
        } else {
         if i < 123 {
          if i < 122 {
           Table::row(1772967600, -32400, 3600, "AKDT")
          } else {
           Table::row(1793527200, -32400, 0, "AKST")
          }
         } else {
          if i < 124 {
           Table::row(1805022000, -32400, 3600, "AKDT")
          } else {
           if i < 125 {
            Table::row(1825581600, -32400, 0, "AKST")
           } else {
            Table::row(1836471600, -32400, 3600, "AKDT")
           }
          }
         }
        }
       }
      } else {
       if i < 135 {
        if i < 130 {
         if i < 128 {
          if i < 127 {
           Table::row(1857031200, -32400, 0, "AKST")
          } else {
           Table::row(1867921200, -32400, 3600, "AKDT")
          }
         } else {
          if i < 129 {
           Table::row(1888480800, -32400, 0, "AKST")
          } else {
           Table::row(1899370800, -32400, 3600, "AKDT")
          }
         }
        } else {
         if i < 132 {
          if i < 131 {
           Table::row(1919930400, -32400, 0, "AKST")
          } else {
           Table::row(1930820400, -32400, 3600, "AKDT")
          }
         } else {
          if i < 133 {
           Table::row(1951380000, -32400, 0, "AKST")
          } else {
           if i < 134 {
            Table::row(1962874800, -32400, 3600, "AKDT")
           } else {
            Table::row(1983434400, -32400, 0, "AKST")
           }
          }
         }
        }
       } else {
        if i < 140 {
         if i < 137 {
          if i < 136 {
           Table::row(1994324400, -32400, 3600, "AKDT")
          } else {
           Table::row(2014884000, -32400, 0, "AKST")
          }
         } else {
          if i < 138 {
           Table::row(2025774000, -32400, 3600, "AKDT")
          } else {
           if i < 139 {
            Table::row(2046333600, -32400, 0, "AKST")
           } else {
            Table::row(2057223600, -32400, 3600, "AKDT")
           }
          }
         }
        } else {
         if i < 142 {
          if i < 141 {
           Table::row(2077783200, -32400, 0, "AKST")
          } else {
           Table::row(2088673200, -32400, 3600, "AKDT")
          }
         } else {
          if i < 143 {
           Table::row(2109232800, -32400, 0, "AKST")
          } else {
           if i < 144 {
            Table::row(2120122800, -32400, 3600, "AKDT")
           } else {
            Table::row(2140682400, -32400, 0, "AKST")
           }
          }
         }
        }
       }
      }
     }
    }
}

/// The rows of the table of the zone `America/Anchorage`.
pub open spec fn anchorage_rows() -> spec_fn(int) -> (i64, FixedTimespan) {
    |i: int| anchorage_row(i)
}

/// The table of the zone `America/Anchorage`.
pub open spec fn anchorage() -> Table {
    Table::listed(Table::row(0, 50424, 0, "LMT").1, 145, anchorage_rows())
}

/// Row `i` of the table of the zone `America/Anguilla`.
pub open spec fn anguilla_row(i: int) -> (i64, FixedTimespan) {
    Table::row(-1825098464, -14400, 0, "AST")
}

/// The rows of the table of the zone `America/Anguilla`.
pub open spec fn anguilla_rows() -> spec_fn(int) -> (i64, FixedTimespan) {
    |i: int| anguilla_row(i)
}

/// The table of the zone `America/Anguilla`.
pub open spec fn anguilla() -> Table {
    Table::listed(Table::row(0, -15136, 0, "LMT").1, 1, anguilla_rows())
}

/// Row `i` of the table of the zone `America/Antigua`.
pub open spec fn antigua_row(i: int) -> (i64, FixedTimespan) {
    if i < 1 {
     Table::row(-1825098768, -18000, 0, "EST")
    } else {
     Table::row(-599598000, -14400, 0, "AST")
    }
}

/// The rows of the table of the zone `America/Antigua`.
pub open spec fn antigua_rows() -> spec_fn(int) -> (i64, FixedTimespan) {
    |i: int| antigua_row(i)
}

/// The table of the zone `America/Antigua`.
pub open spec fn antigua() -> Table {
    Table::listed(Table::row(0, -14832, 0, "LMT").1, 2, antigua_rows())
}

/// Row `i` of the table of the zone `America/Araguaina`.
pub open spec fn araguaina_row(i: int) -> (i64, FixedTimespan) {
    if i < 26 {
     if i < 13 {
      if i < 6 {
       if i < 3 {
        if i < 1 {
         Table::row(-1767214032, -10800, 0, "-03")
        } else {
         if i < 2 {
          Table::row(-1206957600, -10800, 3600, "-02")
         } else {
          Table::row(-1191362400, -10800, 0, "-03")
         }
        }
       } else {
        if i < 4 {
         Table::row(-1175374800, -10800, 3600, "-02")
        } else {
         if i < 5 {
          Table::row(-1159826400, -10800, 0, "-03")
         } else {
          Table::row(-633819600, -10800, 3600, "-02")
         }
        }
       }
      } else {
       if i < 9 {
        if i < 7 {
         Table::row(-622069200, -10800, 0, "-03")
        } else {
         if i < 8 {
          Table::row(-602283600, -10800, 3600, "-02")
         } else {
          Table::row(-591832800, -10800, 0, "-03")
         }
        }
       } else {
        if i < 11 {
         if i < 10 {
          Table::row(-570747600, -10800, 3600, "-02")
         } else {
          Table::row(-560210400, -10800, 0, "-03")
         }
        } else {
         if i < 12 {
          Table::row(-539125200, -10800, 3600, "-02")
         } else {
          Table::row(-531352800, -10800, 0, "-03")
         }
        }
       }
      }
     } else {
      if i < 19 {
       if i < 16 {
        if i < 14 {
         Table::row(-191365200, -10800, 3600, "-02")
        } else {
         if i < 15 {
          Table::row(-184197600, -10800, 0, "-03")
         } else {
          Table::row(-155163600, -10800, 3600, "-02")
         }
        }
       } else {
        if i < 17 {
         Table::row(-150069600, -10800, 0, "-03")
        } else {
         if i < 18 {
          Table::row(-128898000, -10800, 3600, "-02")
         } else {
          Table::row(-121125600, -10800, 0, "-03")
         }
        }
       }
      } else {
       if i < 22 {
        if i < 20 {
         Table::row(-99954000, -10800, 3600, "-02")
        } else {
         if i < 21 {
          Table::row(-89589600, -10800, 0, "-03")
         } else {
          Table::row(-68418000, -10800, 3600, "-02")
         }
        }
       } else {
        if i < 24 {
         if i < 23 {
          Table::row(-57967200, -10800, 0, "-03")
         } else {
          Table::row(499748400, -10800, 3600, "-02")
         }
        } else {
         if i < 25 {
          Table::row(511236000, -10800, 0, "-03")
         } else {
          Table::row(530593200, -10800, 3600, "-02")
         }
        }
       }
      }
     }
    } else {
     if i < 39 {
      if i < 32 {
       if i < 29 {
        if i < 27 {
         Table::row(540266400, -10800, 0, "-03")
        } else {
         if i < 28 {
          Table::row(562129200, -10800, 3600, "-02")
         } else {
          Table::row(571197600, -10800, 0, "-03")
         }
        }
       } else {
        if i < 30 {
         Table::row(592974000, -10800, 3600, "-02")
        } else {
         if i < 31 {
          Table::row(602042400, -10800, 0, "-03")
         } else {
          Table::row(624423600, -10800, 3600, "-02")
         }
        }
       }
      } else {
       if i < 35 {
        if i < 33 {
         Table::row(634701600, -10800, 0, "-03")
        } else {
         if i < 34 {
          Table::row(813726000, -10800, 3600, "-02")
         } else {
          Table::row(824004000, -10800, 0, "-03")
         }
        }
       } else {
        if i < 37 {
         if i < 36 {
          Table::row(844570800, -10800, 3600, "-02")
         } else {
          Table::row(856058400, -10800, 0, "-03")
         }
        } else {
         if i < 38 {
          Table::row(876106800, -10800, 3600, "-02")
         } else {
          Table::row(888717600, -10800, 0, "-03")
         }
        }
       }
      }
     } else {
      if i < 45 {
       if i < 42 {
        if i < 40 {
         Table::row(908074800, -10800, 3600, "-02")
        } else {
         if i < 41 {
          Table::row(919562400, -10800, 0, "-03")
         } else {
          Table::row(938919600, -10800, 3600, "-02")
         }
        }
       } else {
        if i < 43 {
         Table::row(951616800, -10800, 0, "-03")
        } else {
         if i < 44 {
          Table::row(970974000, -10800, 3600, "-02")
         } else {
          Table::row(982461600, -10800, 0, "-03")
         }
        }
       }
      } else {
       if i < 48 {
        if i < 46 {
         Table::row(1003028400, -10800, 3600, "-02")
        } else {
         if i < 47 {
          Table::row(1013911200, -10800, 0, "-03")
         } else {
          Table::row(1036292400, -10800, 3600, "-02")
         }
        }
       } else {
        if i < 50 {
         if i < 49 {
          Table::row(1045360800, -10800, 0, "-03")
         } else {
          Table::row(1350788400, -10800, 3600, "-02")
         }
        } else {
         if i < 51 {
          Table::row(1361066400, -10800, 0, "-03")
         } else {
          Table::row(2147483647, -10800, 0, "-03")
         }
        }
       }
      }
     }
    }
}

/// The rows of the table of the zone `America/Araguaina`.
pub open spec fn araguaina_rows() -> spec_fn(int) -> (i64, FixedTimespan) {
    |i: int| araguaina_row(i)
}

/// The table of the zone `America/Araguaina`.
pub open spec fn araguaina() -> Table {
    Table::listed(Table::row(0, -11568, 0, "LMT").1, 52, araguaina_rows())
}

/// Row `i` of the table of the zone `America/Argentina/Buenos_Aires`.
pub open spec fn argentina_buenos_aires_row(i: int) -> (i64, FixedTimespan) {
    if i < 31 {
     if i < 15 {
      if i < 7 {
       if i < 3 {
        if i < 1 {
         Table::row(-2372097972, -15408, 0, "CMT")
        } else {
         if i < 2 {
          Table::row(-1567453392, -14400, 0, "-04")
         } else {
          Table::row(-1233432000, -14400, 3600, "-03")
         }
        }
       } else {
        if i < 5 {
         if i < 4 {
          Table::row(-1222981200, -14400, 0, "-04")
         } else {
          Table::row(-1205956800, -14400, 3600, "-03")
         }
        } else {
         if i < 6 {
          Table::row(-1194037200, -14400, 0, "-04")
         } else {
          Table::row(-1172865600, -14400, 3600, "-03")
         }
        }
       }
      } else {
       if i < 11 {
        if i < 9 {
         if i < 8 {
          Table::row(-1162501200, -14400, 0, "-04")
         } else {
          Table::row(-1141329600, -14400, 3600, "-03")
         }
        } else {
         if i < 10 {
          Table::row(-1130965200, -14400, 0, "-04")
         } else {
          Table::row(-1109793600, -14400, 3600, "-03")
         }
        }
       } else {
        if i < 13 {
         if i < 12 {
          Table::row(-1099429200, -14400, 0, "-04")
         } else {
          Table::row(-1078257600, -14400, 3600, "-03")
         }
        } else {
         if i < 14 {
          Table::row(-1067806800, -14400, 0, "-04")
         } else {
          Table::row(-1046635200, -14400, 3600, "-03")
         }
        }
       }
      }
     } else {
      if i < 23 {
       if i < 19 {
        if i < 17 {
         if i < 16 {
          Table::row(-1036270800, -14400, 0, "-04")
         } else {
          Table::row(-1015099200, -14400, 3600, "-03")
         }
        } else {
         if i < 18 {
          Table::row(-1004734800, -14400, 0, "-04")
         } else {
          Table::row(-983563200, -14400, 3600, "-03")
         }
        }
       } else {
        if i < 21 {
         if i < 20 {
          Table::row(-973198800, -14400, 0, "-04")
         } else {
          Table::row(-952027200, -14400, 3600, "-03")
         }
        } else {
         if i < 22 {
          Table::row(-941576400, -14400, 0, "-04")
         } else {
          Table::row(-931032000, -14400, 3600, "-03")
         }
        }
       }
      } else {
       if i < 27 {
        if i < 25 {
         if i < 24 {
          Table::row(-900882000, -14400, 0, "-04")
         } else {
          Table::row(-890337600, -14400, 3600, "-03")
         }
        } else {
         if i < 26 {
          Table::row(-833749200, -14400, 0, "-04")
         } else {
          Table::row(-827265600, -14400, 3600, "-03")
         }
        }
       } else {
        if i < 29 {
         if i < 28 {
          Table::row(-752274000, -14400, 0, "-04")
         } else {
          Table::row(-733780800, -14400, 3600, "-03")
         }
        } else {
         if i < 30 {
          Table::row(-197326800, -14400, 0, "-04")
         } else {
          Table::row(-190843200, -14400, 3600, "-03")
         }
        }
       }
      }
     }
    } else {
     if i < 46 {
      if i < 38 {
       if i < 34 {
        if i < 32 {
         Table::row(-184194000, -14400, 0, "-04")
        } else {
         if i < 33 {
          Table::row(-164491200, -14400, 3600, "-03")
         } else {
          Table::row(-152658000, -14400, 0, "-04")
         }
        }
       } else {
        if i < 36 {
         if i < 35 {
          Table::row(-132955200, -14400, 3600, "-03")
         } else {
          Table::row(-121122000, -14400, 0, "-04")
         }
        } else {
         if i < 37 {
          Table::row(-101419200, -14400, 3600, "-03")
         } else {
          Table::row(-86821200, -14400, 0, "-04")
         }
        }
       }
      } else {
       if i < 42 {
        if i < 40 {
         if i < 39 {
          Table::row(-71092800, -14400, 3600, "-03")
         } else {
          Table::row(-54766800, -14400, 0, "-04")
         }
        } else {
         if i < 41 {
          Table::row(-39038400, -14400, 3600, "-03")
         } else {
          Table::row(-23317200, -14400, 0, "-04")
         }
        }
       } else {
        if i < 44 {
         if i < 43 {
          Table::row(-7588800, -10800, 0, "-03")
         } else {
          Table::row(128142000, -10800, 3600, "-02")
         }
        } else {
         if i < 45 {
          Table::row(136605600, -10800, 0, "-03")
         } else {
          Table::row(596948400, -10800, 3600, "-02")
         }
        }
       }
      }
     } else {
      if i < 54 {
       if i < 50 {
        if i < 48 {
         if i < 47 {
          Table::row(605066400, -10800, 0, "-03")
         } else {
          Table::row(624423600, -10800, 3600, "-02")
         }
        } else {
         if i < 49 {
          Table::row(636516000, -10800, 0, "-03")
         } else {
          Table::row(656478000, -10800, 3600, "-02")
         }
        }
       } else {
        if i < 52 {
         if i < 51 {
          Table::row(667965600, -10800, 0, "-03")
         } else {
          Table::row(687927600, -10800, 3600, "-02")
         }
        } else {
         if i < 53 {
          Table::row(699415200, -10800, 0, "-03")
         } else {
          Table::row(719377200, -10800, 3600, "-02")
         }
        }
       }
      } else {
       if i < 58 {
        if i < 56 {
         if i < 55 {
          Table::row(731469600, -10800, 0, "-03")
         } else {
          Table::row(938919600, -14400, 3600, "-03")
         }
        } else {
         if i < 57 {
          Table::row(952052400, -10800, 0, "-03")
         } else {
          Table::row(1198983600, -10800, 3600, "-02")
         }
        }
       } else {
        if i < 60 {
         if i < 59 {
          Table::row(1205632800, -10800, 0, "-03")
         } else {
          Table::row(1224385200, -10800, 3600, "-02")
         }
        } else {
         if i < 61 {
          Table::row(1237082400, -10800, 0, "-03")
         } else {
          Table::row(2147483647, -10800, 0, "-03")
         }
        }
       }
      }
     }
    }
}

/// The rows of the table of the zone `America/Argentina/Buenos_Aires`.
pub open spec fn argentina_buenos_aires_rows() -> spec_fn(int) -> (i64, FixedTimespan) {
    |i: int| argentina_buenos_aires_row(i)
}

/// The table of the zone `America/Argentina/Buenos_Aires`.
pub open spec fn argentina_buenos_aires() -> Table {
    Table::listed(Table::row(0, -14028, 0, "LMT").1, 62, argentina_buenos_aires_rows())
}

/// Row `i` of the table of the zone `America/Argentina/Catamarca`.
pub open spec fn argentina_catamarca_row(i: int) -> (i64, FixedTimespan) {
    if i < 31 {
     if i < 15 {
      if i < 7 {
       if i < 3 {
        if i < 1 {
         Table::row(-2372096212, -15408, 0, "CMT")
        } else {
         if i < 2 {
          Table::row(-1567453392, -14400, 0, "-04")
         } else {
          Table::row(-1233432000, -14400, 3600, "-03")
         }
        }
       } else {
        if i < 5 {
         if i < 4 {
          Table::row(-1222981200, -14400, 0, "-04")
         } else {
          Table::row(-1205956800, -14400, 3600, "-03")
         }
        } else {
         if i < 6 {
          Table::row(-1194037200, -14400, 0, "-04")
         } else {
          Table::row(-1172865600, -14400, 3600, "-03")
         }
        }
       }
      } else {
       if i < 11 {
        if i < 9 {
         if i < 8 {
          Table::row(-1162501200, -14400, 0, "-04")
         } else {
          Table::row(-1141329600, -14400, 3600, "-03")
         }
        } else {
         if i < 10 {
          Table::row(-1130965200, -14400, 0, "-04")
         } else {
          Table::row(-1109793600, -14400, 3600, "-03")
         }
        }
       } else {
        if i < 13 {
         if i < 12 {
          Table::row(-1099429200, -14400, 0, "-04")
         } else {
          Table::row(-1078257600, -14400, 3600, "-03")
         }
        } else {
         if i < 14 {
          Table::row(-1067806800, -14400, 0, "-04")
         } else {
          Table::row(-1046635200, -14400, 3600, "-03")
         }
        }
       }
      }
     } else {
      if i < 23 {
       if i < 19 {
        if i < 17 {
         if i < 16 {
          Table::row(-1036270800, -14400, 0, "-04")
         } else {
          Table::row(-1015099200, -14400, 3600, "-03")
         }
        } else {
         if i < 18 {
          Table::row(-1004734800, -14400, 0, "-04")
         } else {
          Table::row(-983563200, -14400, 3600, "-03")
         }
        }
       } else {
        if i < 21 {
         if i < 20 {
          Table::row(-973198800, -14400, 0, "-04")
         } else {
          Table::row(-952027200, -14400, 3600, "-03")
         }
        } else {
         if i < 22 {
          Table::row(-941576400, -14400, 0, "-04")
         } else {
          Table::row(-931032000, -14400, 3600, "-03")
         }
        }
       }
      } else {
       if i < 27 {
        if i < 25 {
         if i < 24 {
          Table::row(-900882000, -14400, 0, "-04")
         } else {
          Table::row(-890337600, -14400, 3600, "-03")
         }
        } else {
         if i < 26 {
          Table::row(-833749200, -14400, 0, "-04")
         } else {
          Table::row(-827265600, -14400, 3600, "-03")
         }
        }
       } else {
        if i < 29 {
         if i < 28 {
          Table::row(-752274000, -14400, 0, "-04")
         } else {
          Table::row(-733780800, -14400, 3600, "-03")
         }
        } else {
         if i < 30 {
          Table::row(-197326800, -14400, 0, "-04")
         } else {
          Table::row(-190843200, -14400, 3600, "-03")
         }
        }
       }
      }
     }
    } else {
     if i < 46 {
      if i < 38 {
       if i < 34 {
        if i < 32 {
         Table::row(-184194000, -14400, 0, "-04")
        } else {
         if i < 33 {
          Table::row(-164491200, -14400, 3600, "-03")
         } else {
          Table::row(-152658000, -14400, 0, "-04")
         }
        }
       } else {
        if i < 36 {
         if i < 35 {
          Table::row(-132955200, -14400, 3600, "-03")
         } else {
          Table::row(-121122000, -14400, 0, "-04")
         }
        } else {
         if i < 37 {
          Table::row(-101419200, -14400, 3600, "-03")
         } else {
          Table::row(-86821200, -14400, 0, "-04")
         }
        }
       }
      } else {
       if i < 42 {
        if i < 40 {
         if i < 39 {
          Table::row(-71092800, -14400, 3600, "-03")
         } else {
          Table::row(-54766800, -14400, 0, "-04")
         }
        } else {
         if i < 41 {
          Table::row(-39038400, -14400, 3600, "-03")
         } else {
          Table::row(-23317200, -14400, 0, "-04")
         }
        }
       } else {
        if i < 44 {
         if i < 43 {
          Table::row(-7588800, -10800, 0, "-03")
         } else {
          Table::row(128142000, -10800, 3600, "-02")
         }
        } else {
         if i < 45 {
          Table::row(136605600, -10800, 0, "-03")
         } else {
          Table::row(596948400, -10800, 3600, "-02")
         }
        }
       }
      }
     } else {
      if i < 54 {
       if i < 50 {
        if i < 48 {
         if i < 47 {
          Table::row(605066400, -10800, 0, "-03")
         } else {
          Table::row(624423600, -10800, 3600, "-02")
         }
        } else {
         if i < 49 {
          Table::row(636516000, -10800, 0, "-03")
         } else {
          Table::row(656478000, -10800, 3600, "-02")
         }
        }
       } else {
        if i < 52 {
         if i < 51 {
          Table::row(667965600, -14400, 0, "-04")
         } else {
          Table::row(687931200, -14400, 7200, "-02")
         }
        } else {
         if i < 53 {
          Table::row(699415200, -10800, 0, "-03")
         } else {
          Table::row(719377200, -10800, 3600, "-02")
         }
        }
       }
      } else {
       if i < 58 {
        if i < 56 {
         if i < 55 {
          Table::row(731469600, -10800, 0, "-03")
         } else {
          Table::row(938919600, -14400, 3600, "-03")
         }
        } else {
         if i < 57 {
          Table::row(952052400, -10800, 0, "-03")
         } else {
          Table::row(1086058800, -14400, 0, "-04")
         }
        }
       } else {
        if i < 60 {
         if i < 59 {
          Table::row(1087704000, -10800, 0, "-03")
         } else {
          Table::row(1198983600, -10800, 3600, "-02")
         }
        } else {
         if i < 61 {
          Table::row(1205632800, -10800, 0, "-03")
         } else {
          Table::row(2147483647, -10800, 0, "-03")
         }
        }
       }
      }
     }
    }
}

/// The rows of the table of the zone `America/Argentina/Catamarca`.
pub open spec fn argentina_catamarca_rows() -> spec_fn(int) -> (i64, FixedTimespan) {
    |i: int| argentina_catamarca_row(i)
}

/// The table of the zone `America/Argentina/Catamarca`.
pub open spec fn argentina_catamarca() -> Table {
    Table::listed(Table::row(0, -15788, 0, "LMT").1, 62, argentina_catamarca_rows())
}

/// Row `i` of the table of the zone `America/Argentina/ComodRivadavia`.
pub open spec fn argentina_comodrivadavia_row(i: int) -> (i64, FixedTimespan) {
    if i < 31 {
     if i < 15 {
      if i < 7 {
       if i < 3 {
        if i < 1 {
         Table::row(-2372096212, -15408, 0, "CMT")
        } else {
         if i < 2 {
          Table::row(-1567453392, -14400, 0, "-04")
         } else {
          Table::row(-1233432000, -14400, 3600, "-03")
         }
        }
       } else {
        if i < 5 {
         if i < 4 {
          Table::row(-1222981200, -14400, 0, "-04")
         } else {
          Table::row(-1205956800, -14400, 3600, "-03")
         }
        } else {
         if i < 6 {
          Table::row(-1194037200, -14400, 0, "-04")
         } else {
          Table::row(-1172865600, -14400, 3600, "-03")
         }
        }
       }
      } else {
       if i < 11 {
        if i < 9 {
         if i < 8 {
          Table::row(-1162501200, -14400, 0, "-04")
         } else {
          Table::row(-1141329600, -14400, 3600, "-03")
         }
        } else {
         if i < 10 {
          Table::row(-1130965200, -14400, 0, "-04")
         } else {
          Table::row(-1109793600, -14400, 3600, "-03")
         }
        }
       } else {
        if i < 13 {
         if i < 12 {
          Table::row(-1099429200, -14400, 0, "-04")
         } else {
          Table::row(-1078257600, -14400, 3600, "-03")
         }
        } else {
         if i < 14 {
          Table::row(-1067806800, -14400, 0, "-04")
         } else {
          Table::row(-1046635200, -14400, 3600, "-03")
         }
        }
       }
      }
     } else {
      if i < 23 {
       if i < 19 {
        if i < 17 {
         if i < 16 {
          Table::row(-1036270800, -14400, 0, "-04")
         } else {
          Table::row(-1015099200, -14400, 3600, "-03")
         }
        } else {
         if i < 18 {
          Table::row(-1004734800, -14400, 0, "-04")
         } else {
          Table::row(-983563200, -14400, 3600, "-03")
         }
        }
       } else {
        if i < 21 {
         if i < 20 {
          Table::row(-973198800, -14400, 0, "-04")
         } else {
          Table::row(-952027200, -14400, 3600, "-03")
         }
        } else {
         if i < 22 {
          Table::row(-941576400, -14400, 0, "-04")
         } else {
          Table::row(-931032000, -14400, 3600, "-03")
         }
        }
       }
      } else {
       if i < 27 {
        if i < 25 {
         if i < 24 {
          Table::row(-900882000, -14400, 0, "-04")
         } else {
          Table::row(-890337600, -14400, 3600, "-03")
         }
        } else {
         if i < 26 {
          Table::row(-833749200, -14400, 0, "-04")
         } else {
          Table::row(-827265600, -14400, 3600, "-03")
         }
        }
       } else {
        if i < 29 {
         if i < 28 {
          Table::row(-752274000, -14400, 0, "-04")
         } else {
          Table::row(-733780800, -14400, 3600, "-03")
         }
        } else {
         if i < 30 {
          Table::row(-197326800, -14400, 0, "-04")
         } else {
          Table::row(-190843200, -14400, 3600, "-03")
         }
        }
       }
      }
     }
    } else {
     if i < 46 {
      if i < 38 {
       if i < 34 {
        if i < 32 {
         Table::row(-184194000, -14400, 0, "-04")
        } else {
         if i < 33 {
          Table::row(-164491200, -14400, 3600, "-03")
         } else {
          Table::row(-152658000, -14400, 0, "-04")
         }
        }
       } else {
        if i < 36 {
         if i < 35 {
          Table::row(-132955200, -14400, 3600, "-03")
         } else {
          Table::row(-121122000, -14400, 0, "-04")
         }
        } else {
         if i < 37 {
          Table::row(-101419200, -14400, 3600, "-03")
         } else {
          Table::row(-86821200, -14400, 0, "-04")
         }
        }
       }
      } else {
       if i < 42 {
        if i < 40 {
         if i < 39 {
          Table::row(-71092800, -14400, 3600, "-03")
         } else {
          Table::row(-54766800, -14400, 0, "-04")
         }
        } else {
         if i < 41 {
          Table::row(-39038400, -14400, 3600, "-03")
         } else {
          Table::row(-23317200, -14400, 0, "-04")
         }
        }
       } else {
        if i < 44 {
         if i < 43 {
          Table::row(-7588800, -10800, 0, "-03")
         } else {
          Table::row(128142000, -10800, 3600, "-02")
         }
        } else {
         if i < 45 {
          Table::row(136605600, -10800, 0, "-03")
         } else {
          Table::row(596948400, -10800, 3600, "-02")
         }
        }
       }
      }
     } else {
      if i < 54 {
       if i < 50 {
        if i < 48 {
         if i < 47 {
          Table::row(605066400, -10800, 0, "-03")
         } else {
          Table::row(624423600, -10800, 3600, "-02")
         }
        } else {
         if i < 49 {
          Table::row(636516000, -10800, 0, "-03")
         } else {
          Table::row(656478000, -10800, 3600, "-02")
         }
        }
       } else {
        if i < 52 {
         if i < 51 {
          Table::row(667965600, -14400, 0, "-04")
         } else {
          Table::row(687931200, -14400, 7200, "-02")
         }
        } else {
         if i < 53 {
          Table::row(699415200, -10800, 0, "-03")
         } else {
          Table::row(719377200, -10800, 3600, "-02")
         }
        }
       }
      } else {
       if i < 58 {
        if i < 56 {
         if i < 55 {
          Table::row(731469600, -10800, 0, "-03")
         } else {
          Table::row(938919600, -14400, 3600, "-03")
         }
        } else {
         if i < 57 {
          Table::row(952052400, -10800, 0, "-03")
         } else {
          Table::row(1086058800, -14400, 0, "-04")
         }
        }
       } else {
        if i < 60 {
         if i < 59 {
          Table::row(1087704000, -10800, 0, "-03")
         } else {
          Table::row(1198983600, -10800, 3600, "-02")
         }
        } else {
         if i < 61 {
          Table::row(1205632800, -10800, 0, "-03")
         } else {
          Table::row(2147483647, -10800, 0, "-03")
         }
        }
       }
      }
     }
    }
}

/// The rows of the table of the zone `America/Argentina/ComodRivadavia`.
pub open spec fn argentina_comodrivadavia_rows() -> spec_fn(int) -> (i64, FixedTimespan) {
    |i: int| argentina_comodrivadavia_row(i)
}

/// The table of the zone `America/Argentina/ComodRivadavia`.
pub open spec fn argentina_comodrivadavia() -> Table {
    Table::listed(Table::row(0, -15788, 0, "LMT").1, 62, argentina_comodrivadavia_rows())
}

/// Row `i` of the table of the zone `America/Argentina/Cordoba`.
pub open spec fn argentina_cordoba_row(i: int) -> (i64, FixedTimespan) {
    if i < 31 {
     if i < 15 {
      if i < 7 {
       if i < 3 {
        if i < 1 {
         Table::row(-2372096592, -15408, 0, "CMT")
        } else {
         if i < 2 {
          Table::row(-1567453392, -14400, 0, "-04")
         } else {
          Table::row(-1233432000, -14400, 3600, "-03")
         }
        }
       } else {
        if i < 5 {
         if i < 4 {
          Table::row(-1222981200, -14400, 0, "-04")
         } else {
          Table::row(-1205956800, -14400, 3600, "-03")
         }
        } else {
         if i < 6 {
          Table::row(-1194037200, -14400, 0, "-04")
         } else {
          Table::row(-1172865600, -14400, 3600, "-03")
         }
        }
       }
      } else {
       if i < 11 {
        if i < 9 {
         if i < 8 {
          Table::row(-1162501200, -14400, 0, "-04")
         } else {
          Table::row(-1141329600, -14400, 3600, "-03")
         }
        } else {
         if i < 10 {
          Table::row(-1130965200, -14400, 0, "-04")
         } else {
          Table::row(-1109793600, -14400, 3600, "-03")
         }
        }
       } else {
        if i < 13 {
         if i < 12 {
          Table::row(-1099429200, -14400, 0, "-04")
         } else {
          Table::row(-1078257600, -14400, 3600, "-03")
         }
        } else {
         if i < 14 {
          Table::row(-1067806800, -14400, 0, "-04")
         } else {
          Table::row(-1046635200, -14400, 3600, "-03")
         }
        }
       }
      }
     } else {
      if i < 23 {
       if i < 19 {
        if i < 17 {
         if i < 16 {
          Table::row(-1036270800, -14400, 0, "-04")
         } else {
          Table::row(-1015099200, -14400, 3600, "-03")
         }
        } else {
         if i < 18 {
          Table::row(-1004734800, -14400, 0, "-04")
         } else {
          Table::row(-983563200, -14400, 3600, "-03")
         }
        }
       } else {
        if i < 21 {
         if i < 20 {
          Table::row(-973198800, -14400, 0, "-04")
         } else {
          Table::row(-952027200, -14400, 3600, "-03")
         }
        } else {
         if i < 22 {
          Table::row(-941576400, -14400, 0, "-04")
         } else {
          Table::row(-931032000, -14400, 3600, "-03")
         }
        }
       }
      } else {
       if i < 27 {
        if i < 25 {
         if i < 24 {
          Table::row(-900882000, -14400, 0, "-04")
         } else {
          Table::row(-890337600, -14400, 3600, "-03")
         }
        } else {
         if i < 26 {
          Table::row(-833749200, -14400, 0, "-04")
         } else {
          Table::row(-827265600, -14400, 3600, "-03")
         }
        }
       } else {
        if i < 29 {
         if i < 28 {
          Table::row(-752274000, -14400, 0, "-04")
         } else {
          Table::row(-733780800, -14400, 3600, "-03")
         }
        } else {
         if i < 30 {
          Table::row(-197326800, -14400, 0, "-04")
         } else {
          Table::row(-190843200, -14400, 3600, "-03")
         }
        }
       }
      }
     }
    } else {
     if i < 46 {
      if i < 38 {
       if i < 34 {
        if i < 32 {
         Table::row(-184194000, -14400, 0, "-04")
        } else {
         if i < 33 {
          Table::row(-164491200, -14400, 3600, "-03")
         } else {
          Table::row(-152658000, -14400, 0, "-04")
         }
        }
       } else {
        if i < 36 {
         if i < 35 {
          Table::row(-132955200, -14400, 3600, "-03")
         } else {
          Table::row(-121122000, -14400, 0, "-04")
         }
        } else {
         if i < 37 {
          Table::row(-101419200, -14400, 3600, "-03")
         } else {
          Table::row(-86821200, -14400, 0, "-04")
         }
        }
       }
      } else {
       if i < 42 {
        if i < 40 {
         if i < 39 {
          Table::row(-71092800, -14400, 3600, "-03")
         } else {
          Table::row(-54766800, -14400, 0, "-04")
         }
        } else {
         if i < 41 {
          Table::row(-39038400, -14400, 3600, "-03")
         } else {
          Table::row(-23317200, -14400, 0, "-04")
         }
        }
       } else {
        if i < 44 {
         if i < 43 {
          Table::row(-7588800, -10800, 0, "-03")
         } else {
          Table::row(128142000, -10800, 3600, "-02")
         }
        } else {
         if i < 45 {
          Table::row(136605600, -10800, 0, "-03")
         } else {
          Table::row(596948400, -10800, 3600, "-02")
         }
        }
       }
      }
     } else {
      if i < 54 {
       if i < 50 {
        if i < 48 {
         if i < 47 {
          Table::row(605066400, -10800, 0, "-03")
         } else {
          Table::row(624423600, -10800, 3600, "-02")
         }
        } else {
         if i < 49 {
          Table::row(636516000, -10800, 0, "-03")
         } else {
          Table::row(656478000, -10800, 3600, "-02")
         }
        }
       } else {
        if i < 52 {
         if i < 51 {
          Table::row(667965600, -14400, 0, "-04")
         } else {
          Table::row(687931200, -14400, 7200, "-02")
         }
        } else {
         if i < 53 {
          Table::row(699415200, -10800, 0, "-03")
         } else {
          Table::row(719377200, -10800, 3600, "-02")
         }
        }
       }
      } else {
       if i < 58 {
        if i < 56 {
         if i < 55 {
          Table::row(731469600, -10800, 0, "-03")
         } else {
          Table::row(938919600, -14400, 3600, "-03")
         }
        } else {
         if i < 57 {
          Table::row(952052400, -10800, 0, "-03")
         } else {
          Table::row(1198983600, -10800, 3600, "-02")
         }
        }
       } else {
        if i < 60 {
         if i < 59 {
          Table::row(1205632800, -10800, 0, "-03")
         } else {
          Table::row(1224385200, -10800, 3600, "-02")
         }
        } else {
         if i < 61 {
          Table::row(1237082400, -10800, 0, "-03")
         } else {
          Table::row(2147483647, -10800, 0, "-03")
         }
        }
       }
      }
     }
    }
}

/// The rows of the table of the zone `America/Argentina/Cordoba`.
pub open spec fn argentina_cordoba_rows() -> spec_fn(int) -> (i64, FixedTimespan) {
    |i: int| argentina_cordoba_row(i)
}

/// The table of the zone `America/Argentina/Cordoba`.
pub open spec fn argentina_cordoba() -> Table {
    Table::listed(Table::row(0, -15408, 0, "LMT").1, 62, argentina_cordoba_rows())
}

/// Row `i` of the table of the zone `America/Argentina/Jujuy`.
pub open spec fn argentina_jujuy_row(i: int) -> (i64, FixedTimespan) {
    if i < 30 {
     if i < 15 {
      if i < 7 {
       if i < 3 {
        if i < 1 {
         Table::row(-2372096328, -15408, 0, "CMT")
        } else {
         if i < 2 {
          Table::row(-1567453392, -14400, 0, "-04")
         } else {
          Table::row(-1233432000, -14400, 3600, "-03")
         }
        }
       } else {
        if i < 5 {
         if i < 4 {
          Table::row(-1222981200, -14400, 0, "-04")
         } else {
          Table::row(-1205956800, -14400, 3600, "-03")
         }
        } else {
         if i < 6 {
          Table::row(-1194037200, -14400, 0, "-04")
         } else {
          Table::row(-1172865600, -14400, 3600, "-03")
         }
        }
       }
      } else {
       if i < 11 {
        if i < 9 {
         if i < 8 {
          Table::row(-1162501200, -14400, 0, "-04")
         } else {
          Table::row(-1141329600, -14400, 3600, "-03")
         }
        } else {
         if i < 10 {
          Table::row(-1130965200, -14400, 0, "-04")
         } else {
          Table::row(-1109793600, -14400, 3600, "-03")
         }
        }
       } else {
        if i < 13 {
         if i < 12 {
          Table::row(-1099429200, -14400, 0, "-04")
         } else {
          Table::row(-1078257600, -14400, 3600, "-03")
         }
        } else {
         if i < 14 {
          Table::row(-1067806800, -14400, 0, "-04")
         } else {
          Table::row(-1046635200, -14400, 3600, "-03")
         }
        }
       }
      }
     } else {
      if i < 22 {
       if i < 18 {
        if i < 16 {
         Table::row(-1036270800, -14400, 0, "-04")
        } else {
         if i < 17 {
          Table::row(-1015099200, -14400, 3600, "-03")
         } else {
          Table::row(-1004734800, -14400, 0, "-04")
         }
        }
       } else {
        if i < 20 {
         if i < 19 {
          Table::row(-983563200, -14400, 3600, "-03")
         } else {
          Table::row(-973198800, -14400, 0, "-04")
         }
        } else {
         if i < 21 {
          Table::row(-952027200, -14400, 3600, "-03")
         } else {
          Table::row(-941576400, -14400, 0, "-04")
         }
        }
       }
      } else {
       if i < 26 {
        if i < 24 {
         if i < 23 {
          Table::row(-931032000, -14400, 3600, "-03")
         } else {
          Table::row(-900882000, -14400, 0, "-04")
         }
        } else {
         if i < 25 {
          Table::row(-890337600, -14400, 3600, "-03")
         } else {
          Table::row(-833749200, -14400, 0, "-04")
         }
        }
       } else {
        if i < 28 {
         if i < 27 {
          Table::row(-827265600, -14400, 3600, "-03")
         } else {
          Table::row(-752274000, -14400, 0, "-04")
         }
        } else {
         if i < 29 {
          Table::row(-733780800, -14400, 3600, "-03")
         } else {
          Table::row(-197326800, -14400, 0, "-04")
         }
        }
       }
      }
     }
    } else {
     if i < 45 {
      if i < 37 {
       if i < 33 {
        if i < 31 {
         Table::row(-190843200, -14400, 3600, "-03")
        } else {
         if i < 32 {
          Table::row(-184194000, -14400, 0, "-04")
         } else {
          Table::row(-164491200, -14400, 3600, "-03")
         }
        }
       } else {
        if i < 35 {
         if i < 34 {
          Table::row(-152658000, -14400, 0, "-04")
         } else {
          Table::row(-132955200, -14400, 3600, "-03")
         }
        } else {
         if i < 36 {
          Table::row(-121122000, -14400, 0, "-04")
         } else {
          Table::row(-101419200, -14400, 3600, "-03")
         }
        }
       }
      } else {
       if i < 41 {
        if i < 39 {
         if i < 38 {
          Table::row(-86821200, -14400, 0, "-04")
         } else {
          Table::row(-71092800, -14400, 3600, "-03")
         }
        } else {
         if i < 40 {
          Table::row(-54766800, -14400, 0, "-04")
         } else {
          Table::row(-39038400, -14400, 3600, "-03")
         }
        }
       } else {
        if i < 43 {
         if i < 42 {
          Table::row(-23317200, -14400, 0, "-04")
         } else {
          Table::row(-7588800, -10800, 0, "-03")
         }
        } else {
         if i < 44 {
          Table::row(128142000, -10800, 3600, "-02")
         } else {
          Table::row(136605600, -10800, 0, "-03")
         }
        }
       }
      }
     } else {
      if i < 52 {
       if i < 48 {
        if i < 46 {
         Table::row(596948400, -10800, 3600, "-02")
        } else {
         if i < 47 {
          Table::row(605066400, -10800, 0, "-03")
         } else {
          Table::row(624423600, -10800, 3600, "-02")
         }
        }
       } else {
        if i < 50 {
         if i < 49 {
          Table::row(636516000, -14400, 0, "-04")
         } else {
          Table::row(657086400, -14400, 3600, "-03")
         }
        } else {
         if i < 51 {
          Table::row(669178800, -14400, 0, "-04")
         } else {
          Table::row(686721600, -14400, 7200, "-02")
         }
        }
       }
      } else {
       if i < 56 {
        if i < 54 {
         if i < 53 {
          Table::row(699415200, -10800, 0, "-03")
         } else {
          Table::row(719377200, -10800, 3600, "-02")
         }
        } else {
         if i < 55 {
          Table::row(731469600, -10800, 0, "-03")
         } else {
          Table::row(938919600, -14400, 3600, "-03")
         }
        }
       } else {
        if i < 58 {
         if i < 57 {
          Table::row(952052400, -10800, 0, "-03")
         } else {
          Table::row(1198983600, -10800, 3600, "-02")
         }
        } else {
         if i < 59 {
          Table::row(1205632800, -10800, 0, "-03")
         } else {
          Table::row(2147483647, -10800, 0, "-03")
         }
        }
       }
      }
     }
    }
}

/// The rows of the table of the zone `America/Argentina/Jujuy`.
pub open spec fn argentina_jujuy_rows() -> spec_fn(int) -> (i64, FixedTimespan) {
    |i: int| argentina_jujuy_row(i)
}

/// The table of the zone `America/Argentina/Jujuy`.
pub open spec fn argentina_jujuy() -> Table {
    Table::listed(Table::row(0, -15672, 0, "LMT").1, 60, argentina_jujuy_rows())
}

/// Row `i` of the table of the zone `America/Argentina/La_Rioja`.
pub open spec fn argentina_la_rioja_row(i: int) -> (i64, FixedTimespan) {
    if i < 31 {
     if i < 15 {
      if i < 7 {
       if i < 3 {
        if i < 1 {
         Table::row(-2372095956, -15408, 0, "CMT")
        } else {
         if i < 2 {
          Table::row(-1567453392, -14400, 0, "-04")
         } else {
          Table::row(-1233432000, -14400, 3600, "-03")
         }
        }
       } else {
        if i < 5 {
         if i < 4 {
          Table::row(-1222981200, -14400, 0, "-04")
         } else {
          Table::row(-1205956800, -14400, 3600, "-03")
         }
        } else {
         if i < 6 {
          Table::row(-1194037200, -14400, 0, "-04")
         } else {
          Table::row(-1172865600, -14400, 3600, "-03")
         }
        }
       }
      } else {
       if i < 11 {
        if i < 9 {
         if i < 8 {
          Table::row(-1162501200, -14400, 0, "-04")
         } else {
          Table::row(-1141329600, -14400, 3600, "-03")
         }
        } else {
         if i < 10 {
          Table::row(-1130965200, -14400, 0, "-04")
         } else {
          Table::row(-1109793600, -14400, 3600, "-03")
         }
        }
       } else {
        if i < 13 {
         if i < 12 {
          Table::row(-1099429200, -14400, 0, "-04")
         } else {
          Table::row(-1078257600, -14400, 3600, "-03")
         }
        } else {
         if i < 14 {
          Table::row(-1067806800, -14400, 0, "-04")
         } else {
          Table::row(-1046635200, -14400, 3600, "-03")
         }
        }
       }
      }
     } else {
      if i < 23 {
       if i < 19 {
        if i < 17 {
         if i < 16 {
          Table::row(-1036270800, -14400, 0, "-04")
         } else {
          Table::row(-1015099200, -14400, 3600, "-03")
         }
        } else {
         if i < 18 {
          Table::row(-1004734800, -14400, 0, "-04")
         } else {
          Table::row(-983563200, -14400, 3600, "-03")
         }
        }
       } else {
        if i < 21 {
         if i < 20 {
          Table::row(-973198800, -14400, 0, "-04")
         } else {
          Table::row(-952027200, -14400, 3600, "-03")
         }
        } else {
         if i < 22 {
          Table::row(-941576400, -14400, 0, "-04")
         } else {
          Table::row(-931032000, -14400, 3600, "-03")
         }
        }
       }
      } else {
       if i < 27 {
        if i < 25 {
         if i < 24 {
          Table::row(-900882000, -14400, 0, "-04")
         } else {
          Table::row(-890337600, -14400, 3600, "-03")
         }
        } else {
         if i < 26 {
          Table::row(-833749200, -14400, 0, "-04")
         } else {
          Table::row(-827265600, -14400, 3600, "-03")
         }
        }
       } else {
        if i < 29 {
         if i < 28 {
          Table::row(-752274000, -14400, 0, "-04")
         } else {
          Table::row(-733780800, -14400, 3600, "-03")
         }
        } else {
         if i < 30 {
          Table::row(-197326800, -14400, 0, "-04")
         } else {
          Table::row(-190843200, -14400, 3600, "-03")
         }
        }
       }
      }
     }
    } else {
     if i < 47 {
      if i < 39 {
       if i < 35 {
        if i < 33 {
         if i < 32 {
          Table::row(-184194000, -14400, 0, "-04")
         } else {
          Table::row(-164491200, -14400, 3600, "-03")
         }
        } else {
         if i < 34 {
          Table::row(-152658000, -14400, 0, "-04")
         } else {
          Table::row(-132955200, -14400, 3600, "-03")
         }
        }
       } else {
        if i < 37 {
         if i < 36 {
          Table::row(-121122000, -14400, 0, "-04")
         } else {
          Table::row(-101419200, -14400, 3600, "-03")
         }
        } else {
         if i < 38 {
          Table::row(-86821200, -14400, 0, "-04")
         } else {
          Table::row(-71092800, -14400, 3600, "-03")
         }
        }
       }
      } else {
       if i < 43 {
        if i < 41 {
         if i < 40 {
          Table::row(-54766800, -14400, 0, "-04")
         } else {
          Table::row(-39038400, -14400, 3600, "-03")
         }
        } else {
         if i < 42 {
          Table::row(-23317200, -14400, 0, "-04")
         } else {
          Table::row(-7588800, -10800, 0, "-03")
         }
        }
       } else {
        if i < 45 {
         if i < 44 {
          Table::row(128142000, -10800, 3600, "-02")
         } else {
          Table::row(136605600, -10800, 0, "-03")
         }
        } else {
         if i < 46 {
          Table::row(596948400, -10800, 3600, "-02")
         } else {
          Table::row(605066400, -10800, 0, "-03")
         }
        }
       }
      }
     } else {
      if i < 55 {
       if i < 51 {
        if i < 49 {
         if i < 48 {
          Table::row(624423600, -10800, 3600, "-02")
         } else {
          Table::row(636516000, -10800, 0, "-03")
         }
        } else {
         if i < 50 {
          Table::row(656478000, -10800, 3600, "-02")
         } else {
          Table::row(667792800, -14400, 0, "-04")
         }
        }
       } else {
        if i < 53 {
         if i < 52 {
          Table::row(673588800, -10800, 0, "-03")
         } else {
          Table::row(687927600, -10800, 3600, "-02")
         }
        } else {
         if i < 54 {
          Table::row(699415200, -10800, 0, "-03")
         } else {
          Table::row(719377200, -10800, 3600, "-02")
         }
        }
       }
      } else {
       if i < 59 {
        if i < 57 {
         if i < 56 {
          Table::row(731469600, -10800, 0, "-03")
         } else {
          Table::row(938919600, -14400, 3600, "-03")
         }
        } else {
         if i < 58 {
          Table::row(952052400, -10800, 0, "-03")
         } else {
          Table::row(1086058800, -14400, 0, "-04")
         }
        }
       } else {
        if i < 61 {
         if i < 60 {
          Table::row(1087704000, -10800, 0, "-03")
         } else {
          Table::row(1198983600, -10800, 3600, "-02")
         }
        } else {
         if i < 62 {
          Table::row(1205632800, -10800, 0, "-03")
         } else {
          Table::row(2147483647, -10800, 0, "-03")
         }
        }
       }
      }
     }
    }
}

/// The rows of the table of the zone `America/Argentina/La_Rioja`.
pub open spec fn argentina_la_rioja_rows() -> spec_fn(int) -> (i64, FixedTimespan) {
    |i: int| argentina_la_rioja_row(i)
}

/// The table of the zone `America/Argentina/La_Rioja`.
pub open spec fn argentina_la_rioja() -> Table {
    Table::listed(Table::row(0, -16044, 0, "LMT").1, 63, argentina_la_rioja_rows())
}

/// Row `i` of the table of the zone `America/Argentina/Mendoza`.
pub open spec fn argentina_mendoza_row(i: int) -> (i64, FixedTimespan) {
    if i < 31 {
     if i < 15 {
      if i < 7 {
       if i < 3 {
        if i < 1 {
         Table::row(-2372095484, -15408, 0, "CMT")
        } else {
         if i < 2 {
          Table::row(-1567453392, -14400, 0, "-04")
         } else {
          Table::row(-1233432000, -14400, 3600, "-03")
         }
        }
       } else {
        if i < 5 {
         if i < 4 {
          Table::row(-1222981200, -14400, 0, "-04")
         } else {
          Table::row(-1205956800, -14400, 3600, "-03")
         }
        } else {
         if i < 6 {
          Table::row(-1194037200, -14400, 0, "-04")
         } else {
          Table::row(-1172865600, -14400, 3600, "-03")
         }
        }
       }
      } else {
       if i < 11 {
        if i < 9 {
         if i < 8 {
          Table::row(-1162501200, -14400, 0, "-04")
         } else {
          Table::row(-1141329600, -14400, 3600, "-03")
         }
        } else {
         if i < 10 {
          Table::row(-1130965200, -14400, 0, "-04")
         } else {
          Table::row(-1109793600, -14400, 3600, "-03")
         }
        }
       } else {
        if i < 13 {
         if i < 12 {
          Table::row(-1099429200, -14400, 0, "-04")
         } else {
          Table::row(-1078257600, -14400, 3600, "-03")
         }
        } else {
         if i < 14 {
          Table::row(-1067806800, -14400, 0, "-04")
         } else {
          Table::row(-1046635200, -14400, 3600, "-03")
         }
        }
       }
      }
     } else {
      if i < 23 {
       if i < 19 {
        if i < 17 {
         if i < 16 {
          Table::row(-1036270800, -14400, 0, "-04")
         } else {
          Table::row(-1015099200, -14400, 3600, "-03")
         }
        } else {
         if i < 18 {
          Table::row(-1004734800, -14400, 0, "-04")
         } else {
          Table::row(-983563200, -14400, 3600, "-03")
         }
        }
       } else {
        if i < 21 {
         if i < 20 {
          Table::row(-973198800, -14400, 0, "-04")
         } else {
          Table::row(-952027200, -14400, 3600, "-03")
         }
        } else {
         if i < 22 {
          Table::row(-941576400, -14400, 0, "-04")
         } else {
          Table::row(-931032000, -14400, 3600, "-03")
         }
        }
       }
      } else {
       if i < 27 {
        if i < 25 {
         if i < 24 {
          Table::row(-900882000, -14400, 0, "-04")
         } else {
          Table::row(-890337600, -14400, 3600, "-03")
         }
        } else {
         if i < 26 {
          Table::row(-833749200, -14400, 0, "-04")
         } else {
          Table::row(-827265600, -14400, 3600, "-03")
         }
        }
       } else {
        if i < 29 {
         if i < 28 {
          Table::row(-752274000, -14400, 0, "-04")
         } else {
          Table::row(-733780800, -14400, 3600, "-03")
         }
        } else {
         if i < 30 {
          Table::row(-197326800, -14400, 0, "-04")
         } else {
          Table::row(-190843200, -14400, 3600, "-03")
         }
        }
       }
      }
     }
    } else {
     if i < 46 {
      if i < 38 {
       if i < 34 {
        if i < 32 {
         Table::row(-184194000, -14400, 0, "-04")
        } else {
         if i < 33 {
          Table::row(-164491200, -14400, 3600, "-03")
         } else {
          Table::row(-152658000, -14400, 0, "-04")
         }
        }
       } else {
        if i < 36 {
         if i < 35 {
          Table::row(-132955200, -14400, 3600, "-03")
         } else {
          Table::row(-121122000, -14400, 0, "-04")
         }
        } else {
         if i < 37 {
          Table::row(-101419200, -14400, 3600, "-03")
         } else {
          Table::row(-86821200, -14400, 0, "-04")
         }
        }
       }
      } else {
       if i < 42 {
        if i < 40 {
         if i < 39 {
          Table::row(-71092800, -14400, 3600, "-03")
         } else {
          Table::row(-54766800, -14400, 0, "-04")
         }
        } else {
         if i < 41 {
          Table::row(-39038400, -14400, 3600, "-03")
         } else {
          Table::row(-23317200, -14400, 0, "-04")
         }
        }
       } else {
        if i < 44 {
         if i < 43 {
          Table::row(-7588800, -10800, 0, "-03")
         } else {
          Table::row(128142000, -10800, 3600, "-02")
         }
        } else {
         if i < 45 {
          Table::row(136605600, -10800, 0, "-03")
         } else {
          Table::row(596948400, -10800, 3600, "-02")
         }
        }
       }
      }
     } else {
      if i < 54 {
       if i < 50 {
        if i < 48 {
         if i < 47 {
          Table::row(605066400, -10800, 0, "-03")
         } else {
          Table::row(624423600, -10800, 3600, "-02")
         }
        } else {
         if i < 49 {
          Table::row(636516000, -14400, 0, "-04")
         } else {
          Table::row(655963200, -14400, 3600, "-03")
         }
        }
       } else {
        if i < 52 {
         if i < 51 {
          Table::row(667796400, -14400, 0, "-04")
         } else {
          Table::row(687499200, -14400, 3600, "-03")
         }
        } else {
         if i < 53 {
          Table::row(699418800, -14400, 0, "-04")
         } else {
          Table::row(719380800, -14400, 7200, "-02")
         }
        }
       }
      } else {
       if i < 58 {
        if i < 56 {
         if i < 55 {
          Table::row(731469600, -10800, 0, "-03")
         } else {
          Table::row(938919600, -14400, 3600, "-03")
         }
        } else {
         if i < 57 {
          Table::row(952052400, -10800, 0, "-03")
         } else {
          Table::row(1085281200, -14400, 0, "-04")
         }
        }
       } else {
        if i < 60 {
         if i < 59 {
          Table::row(1096171200, -10800, 0, "-03")
         } else {
          Table::row(1198983600, -10800, 3600, "-02")
         }
        } else {
         if i < 61 {
          Table::row(1205632800, -10800, 0, "-03")
         } else {
          Table::row(2147483647, -10800, 0, "-03")
         }
        }
       }
      }
     }
    }
}

/// The rows of the table of the zone `America/Argentina/Mendoza`.
pub open spec fn argentina_mendoza_rows() -> spec_fn(int) -> (i64, FixedTimespan) {
    |i: int| argentina_mendoza_row(i)
}

/// The table of the zone `America/Argentina/Mendoza`.
pub open spec fn argentina_mendoza() -> Table {
    Table::listed(Table::row(0, -16516, 0, "LMT").1, 62, argentina_mendoza_rows())
}

/// Row `i` of the table of the zone `America/Argentina/Rio_Gallegos`.
pub open spec fn argentina_rio_gallegos_row(i: int) -> (i64, FixedTimespan) {
    if i < 31 {
     if i < 15 {
      if i < 7 {
       if i < 3 {
        if i < 1 {
         Table::row(-2372095388, -15408, 0, "CMT")
        } else {
         if i < 2 {
          Table::row(-1567453392, -14400, 0, "-04")
         } else {
          Table::row(-1233432000, -14400, 3600, "-03")
         }
        }
       } else {
        if i < 5 {
         if i < 4 {
          Table::row(-1222981200, -14400, 0, "-04")
         } else {
          Table::row(-1205956800, -14400, 3600, "-03")
         }
        } else {
         if i < 6 {
          Table::row(-1194037200, -14400, 0, "-04")
         } else {
          Table::row(-1172865600, -14400, 3600, "-03")
         }
        }
       }
      } else {
       if i < 11 {
        if i < 9 {
         if i < 8 {
          Table::row(-1162501200, -14400, 0, "-04")
         } else {
          Table::row(-1141329600, -14400, 3600, "-03")
         }
        } else {
         if i < 10 {
          Table::row(-1130965200, -14400, 0, "-04")
         } else {
          Table::row(-1109793600, -14400, 3600, "-03")
         }
        }
       } else {
        if i < 13 {
         if i < 12 {
          Table::row(-1099429200, -14400, 0, "-04")
         } else {
          Table::row(-1078257600, -14400, 3600, "-03")
         }
        } else {
         if i < 14 {
          Table::row(-1067806800, -14400, 0, "-04")
         } else {
          Table::row(-1046635200, -14400, 3600, "-03")
         }
        }
       }
      }
     } else {
      if i < 23 {
       if i < 19 {
        if i < 17 {
         if i < 16 {
          Table::row(-1036270800, -14400, 0, "-04")
         } else {
          Table::row(-1015099200, -14400, 3600, "-03")
         }
        } else {
         if i < 18 {
          Table::row(-1004734800, -14400, 0, "-04")
         } else {
          Table::row(-983563200, -14400, 3600, "-03")
         }
        }
       } else {
        if i < 21 {
         if i < 20 {
          Table::row(-973198800, -14400, 0, "-04")
         } else {
          Table::row(-952027200, -14400, 3600, "-03")
         }
        } else {
         if i < 22 {
          Table::row(-941576400, -14400, 0, "-04")
         } else {
          Table::row(-931032000, -14400, 3600, "-03")
         }
        }
       }
      } else {
       if i < 27 {
        if i < 25 {
         if i < 24 {
          Table::row(-900882000, -14400, 0, "-04")
         } else {
          Table::row(-890337600, -14400, 3600, "-03")
         }
        } else {
         if i < 26 {
          Table::row(-833749200, -14400, 0, "-04")
         } else {
          Table::row(-827265600, -14400, 3600, "-03")
         }
        }
       } else {
        if i < 29 {
         if i < 28 {
          Table::row(-752274000, -14400, 0, "-04")
         } else {
          Table::row(-733780800, -14400, 3600, "-03")
         }
        } else {
         if i < 30 {
          Table::row(-197326800, -14400, 0, "-04")
         } else {
          Table::row(-190843200, -14400, 3600, "-03")
         }
        }
       }
      }
     }
    } else {
     if i < 46 {
      if i < 38 {
       if i < 34 {
        if i < 32 {
         Table::row(-184194000, -14400, 0, "-04")
        } else {
         if i < 33 {
          Table::row(-164491200, -14400, 3600, "-03")
         } else {
          Table::row(-152658000, -14400, 0, "-04")
         }
        }
       } else {
        if i < 36 {
         if i < 35 {
          Table::row(-132955200, -14400, 3600, "-03")
         } else {
          Table::row(-121122000, -14400, 0, "-04")
         }
        } else {
         if i < 37 {
          Table::row(-101419200, -14400, 3600, "-03")
         } else {
          Table::row(-86821200, -14400, 0, "-04")
         }
        }
       }
      } else {
       if i < 42 {
        if i < 40 {
         if i < 39 {
          Table::row(-71092800, -14400, 3600, "-03")
         } else {
          Table::row(-54766800, -14400, 0, "-04")
         }
        } else {
         if i < 41 {
          Table::row(-39038400, -14400, 3600, "-03")
         } else {
          Table::row(-23317200, -14400, 0, "-04")
         }
        }
       } else {
        if i < 44 {
         if i < 43 {
          Table::row(-7588800, -10800, 0, "-03")
         } else {
          Table::row(128142000, -10800, 3600, "-02")
         }
        } else {
         if i < 45 {
          Table::row(136605600, -10800, 0, "-03")
         } else {
          Table::row(596948400, -10800, 3600, "-02")
         }
        }
       }
      }
     } else {
      if i < 54 {
       if i < 50 {
        if i < 48 {
         if i < 47 {
          Table::row(605066400, -10800, 0, "-03")
         } else {
          Table::row(624423600, -10800, 3600, "-02")
         }
        } else {
         if i < 49 {
          Table::row(636516000, -10800, 0, "-03")
         } else {
          Table::row(656478000, -10800, 3600, "-02")
         }
        }
       } else {
        if i < 52 {
         if i < 51 {
          Table::row(667965600, -10800, 0, "-03")
         } else {
          Table::row(687927600, -10800, 3600, "-02")
         }
        } else {
         if i < 53 {
          Table::row(699415200, -10800, 0, "-03")
         } else {
          Table::row(719377200, -10800, 3600, "-02")
         }
        }
       }
      } else {
       if i < 58 {
        if i < 56 {
         if i < 55 {
          Table::row(731469600, -10800, 0, "-03")
         } else {
          Table::row(938919600, -14400, 3600, "-03")
         }
        } else {
         if i < 57 {
          Table::row(952052400, -10800, 0, "-03")
         } else {
          Table::row(1086058800, -14400, 0, "-04")
         }
        }
       } else {
        if i < 60 {
         if i < 59 {
          Table::row(1087704000, -10800, 0, "-03")
         } else {
          Table::row(1198983600, -10800, 3600, "-02")
         }
        } else {
         if i < 61 {
          Table::row(1205632800, -10800, 0, "-03")
         } else {
          Table::row(2147483647, -10800, 0, "-03")
         }
        }
       }
      }
     }
    }
}

/// The rows of the table of the zone `America/Argentina/Rio_Gallegos`.
pub open spec fn argentina_rio_gallegos_rows() -> spec_fn(int) -> (i64, FixedTimespan) {
    |i: int| argentina_rio_gallegos_row(i)
}

/// The table of the zone `America/Argentina/Rio_Gallegos`.
pub open spec fn argentina_rio_gallegos() -> Table {
    Table::listed(Table::row(0, -16612, 0, "LMT").1, 62, argentina_rio_gallegos_rows())
}

/// Row `i` of the table of the zone `America/Argentina/Salta`.
pub open spec fn argentina_salta_row(i: int) -> (i64, FixedTimespan) {
    if i < 30 {
     if i < 15 {
      if i < 7 {
       if i < 3 {
        if i < 1 {
         Table::row(-2372096300, -15408, 0, "CMT")
        } else {
         if i < 2 {
          Table::row(-1567453392, -14400, 0, "-04")
         } else {
          Table::row(-1233432000, -14400, 3600, "-03")
         }
        }
       } else {
        if i < 5 {
         if i < 4 {
          Table::row(-1222981200, -14400, 0, "-04")
         } else {
          Table::row(-1205956800, -14400, 3600, "-03")
         }
        } else {
         if i < 6 {
          Table::row(-1194037200, -14400, 0, "-04")
         } else {
          Table::row(-1172865600, -14400, 3600, "-03")
         }
        }
       }
      } else {
       if i < 11 {
        if i < 9 {
         if i < 8 {
          Table::row(-1162501200, -14400, 0, "-04")
         } else {
          Table::row(-1141329600, -14400, 3600, "-03")
         }
        } else {
         if i < 10 {
          Table::row(-1130965200, -14400, 0, "-04")
         } else {
          Table::row(-1109793600, -14400, 3600, "-03")
         }
        }
       } else {
        if i < 13 {
         if i < 12 {
          Table::row(-1099429200, -14400, 0, "-04")
         } else {
          Table::row(-1078257600, -14400, 3600, "-03")
         }
        } else {
         if i < 14 {
          Table::row(-1067806800, -14400, 0, "-04")
         } else {
          Table::row(-1046635200, -14400, 3600, "-03")
         }
        }
       }
      }
     } else {
      if i < 22 {
       if i < 18 {
        if i < 16 {
         Table::row(-1036270800, -14400, 0, "-04")
        } else {
         if i < 17 {
          Table::row(-1015099200, -14400, 3600, "-03")
         } else {
          Table::row(-1004734800, -14400, 0, "-04")
         }
        }
       } else {
        if i < 20 {
         if i < 19 {
          Table::row(-983563200, -14400, 3600, "-03")
         } else {
          Table::row(-973198800, -14400, 0, "-04")
         }
        } else {
         if i < 21 {
          Table::row(-952027200, -14400, 3600, "-03")
         } else {
          Table::row(-941576400, -14400, 0, "-04")
         }
        }
       }
      } else {
       if i < 26 {
        if i < 24 {
         if i < 23 {
          Table::row(-931032000, -14400, 3600, "-03")
         } else {
          Table::row(-900882000, -14400, 0, "-04")
         }
        } else {
         if i < 25 {
          Table::row(-890337600, -14400, 3600, "-03")
         } else {
          Table::row(-833749200, -14400, 0, "-04")
         }
        }
       } else {
        if i < 28 {
         if i < 27 {
          Table::row(-827265600, -14400, 3600, "-03")
         } else {
          Table::row(-752274000, -14400, 0, "-04")
         }
        } else {
         if i < 29 {
          Table::row(-733780800, -14400, 3600, "-03")
         } else {
          Table::row(-197326800, -14400, 0, "-04")
         }
        }
       }
      }
     }
    } else {
     if i < 45 {
      if i < 37 {
       if i < 33 {
        if i < 31 {
         Table::row(-190843200, -14400, 3600, "-03")
        } else {
         if i < 32 {
          Table::row(-184194000, -14400, 0, "-04")
         } else {
          Table::row(-164491200, -14400, 3600, "-03")
         }
        }
       } else {
        if i < 35 {
         if i < 34 {
          Table::row(-152658000, -14400, 0, "-04")
         } else {
          Table::row(-132955200, -14400, 3600, "-03")
         }
        } else {
         if i < 36 {
          Table::row(-121122000, -14400, 0, "-04")
         } else {
          Table::row(-101419200, -14400, 3600, "-03")
         }
        }
       }
      } else {
       if i < 41 {
        if i < 39 {
         if i < 38 {
          Table::row(-86821200, -14400, 0, "-04")
         } else {
          Table::row(-71092800, -14400, 3600, "-03")
         }
        } else {
         if i < 40 {
          Table::row(-54766800, -14400, 0, "-04")
         } else {
          Table::row(-39038400, -14400, 3600, "-03")
         }
        }
       } else {
        if i < 43 {
         if i < 42 {
          Table::row(-23317200, -14400, 0, "-04")
         } else {
          Table::row(-7588800, -10800, 0, "-03")
         }
        } else {
         if i < 44 {
          Table::row(128142000, -10800, 3600, "-02")
         } else {
          Table::row(136605600, -10800, 0, "-03")
         }
        }
       }
      }
     } else {
      if i < 52 {
       if i < 48 {
        if i < 46 {
         Table::row(596948400, -10800, 3600, "-02")
        } else {
         if i < 47 {
          Table::row(605066400, -10800, 0, "-03")
         } else {
          Table::row(624423600, -10800, 3600, "-02")
         }
        }
       } else {
        if i < 50 {
         if i < 49 {
          Table::row(636516000, -10800, 0, "-03")
         } else {
          Table::row(656478000, -10800, 3600, "-02")
         }
        } else {
         if i < 51 {
          Table::row(667965600, -14400, 0, "-04")
         } else {
          Table::row(687931200, -14400, 7200, "-02")
         }
        }
       }
      } else {
       if i < 56 {
        if i < 54 {
         if i < 53 {
          Table::row(699415200, -10800, 0, "-03")
         } else {
          Table::row(719377200, -10800, 3600, "-02")
         }
        } else {
         if i < 55 {
          Table::row(731469600, -10800, 0, "-03")
         } else {
          Table::row(938919600, -14400, 3600, "-03")
         }
        }
       } else {
        if i < 58 {
         if i < 57 {
          Table::row(952052400, -10800, 0, "-03")
         } else {
          Table::row(1198983600, -10800, 3600, "-02")
         }
        } else {
         if i < 59 {
          Table::row(1205632800, -10800, 0, "-03")
         } else {
          Table::row(2147483647, -10800, 0, "-03")
         }
        }
       }
      }
     }
    }
}

/// The rows of the table of the zone `America/Argentina/Salta`.
pub open spec fn argentina_salta_rows() -> spec_fn(int) -> (i64, FixedTimespan) {
    |i: int| argentina_salta_row(i)
}

/// The table of the zone `America/Argentina/Salta`.
pub open spec fn argentina_salta() -> Table {
    Table::listed(Table::row(0, -15700, 0, "LMT").1, 60, argentina_salta_rows())
}

/// Row `i` of the table of the zone `America/Argentina/San_Juan`.
pub open spec fn argentina_san_juan_row(i: int) -> (i64, FixedTimespan) {
    if i < 31 {
     if i < 15 {
      if i < 7 {
       if i < 3 {
        if i < 1 {
         Table::row(-2372095556, -15408, 0, "CMT")
        } else {
         if i < 2 {
          Table::row(-1567453392, -14400, 0, "-04")
         } else {
          Table::row(-1233432000, -14400, 3600, "-03")
         }
        }
       } else {
        if i < 5 {
         if i < 4 {
          Table::row(-1222981200, -14400, 0, "-04")
         } else {
          Table::row(-1205956800, -14400, 3600, "-03")
         }
        } else {
         if i < 6 {
          Table::row(-1194037200, -14400, 0, "-04")
         } else {
          Table::row(-1172865600, -14400, 3600, "-03")
         }
        }
       }
      } else {
       if i < 11 {
        if i < 9 {
         if i < 8 {
          Table::row(-1162501200, -14400, 0, "-04")
         } else {
          Table::row(-1141329600, -14400, 3600, "-03")
         }
        } else {
         if i < 10 {
          Table::row(-1130965200, -14400, 0, "-04")
         } else {
          Table::row(-1109793600, -14400, 3600, "-03")
         }
        }
       } else {
        if i < 13 {
         if i < 12 {
          Table::row(-1099429200, -14400, 0, "-04")
         } else {
          Table::row(-1078257600, -14400, 3600, "-03")
         }
        } else {
         if i < 14 {
          Table::row(-1067806800, -14400, 0, "-04")
         } else {
          Table::row(-1046635200, -14400, 3600, "-03")
         }
        }
       }
      }
     } else {
      if i < 23 {
       if i < 19 {
        if i < 17 {
         if i < 16 {
          Table::row(-1036270800, -14400, 0, "-04")
         } else {
          Table::row(-1015099200, -14400, 3600, "-03")
         }
        } else {
         if i < 18 {
          Table::row(-1004734800, -14400, 0, "-04")
         } else {
          Table::row(-983563200, -14400, 3600, "-03")
         }
        }
       } else {
        if i < 21 {
         if i < 20 {
          Table::row(-973198800, -14400, 0, "-04")
         } else {
          Table::row(-952027200, -14400, 3600, "-03")
         }
        } else {
         if i < 22 {
          Table::row(-941576400, -14400, 0, "-04")
         } else {
          Table::row(-931032000, -14400, 3600, "-03")
         }
        }
       }
      } else {
       if i < 27 {
        if i < 25 {
         if i < 24 {
          Table::row(-900882000, -14400, 0, "-04")
         } else {
          Table::row(-890337600, -14400, 3600, "-03")
         }
        } else {
         if i < 26 {
          Table::row(-833749200, -14400, 0, "-04")
         } else {
          Table::row(-827265600, -14400, 3600, "-03")
         }
        }
       } else {
        if i < 29 {
         if i < 28 {
          Table::row(-752274000, -14400, 0, "-04")
         } else {
          Table::row(-733780800, -14400, 3600, "-03")
         }
        } else {
         if i < 30 {
          Table::row(-197326800, -14400, 0, "-04")
         } else {
          Table::row(-190843200, -14400, 3600, "-03")
         }
        }
       }
      }
     }
    } else {
     if i < 47 {
      if i < 39 {
       if i < 35 {
        if i < 33 {
         if i < 32 {
          Table::row(-184194000, -14400, 0, "-04")
         } else {
          Table::row(-164491200, -14400, 3600, "-03")
         }
        } else {
         if i < 34 {
          Table::row(-152658000, -14400, 0, "-04")
         } else {
          Table::row(-132955200, -14400, 3600, "-03")
         }
        }
       } else {
        if i < 37 {
         if i < 36 {
          Table::row(-121122000, -14400, 0, "-04")
         } else {
          Table::row(-101419200, -14400, 3600, "-03")
         }
        } else {
         if i < 38 {
          Table::row(-86821200, -14400, 0, "-04")
         } else {
          Table::row(-71092800, -14400, 3600, "-03")
         }
        }
       }
      } else {
       if i < 43 {
        if i < 41 {
         if i < 40 {
          Table::row(-54766800, -14400, 0, "-04")
         } else {
          Table::row(-39038400, -14400, 3600, "-03")
         }
        } else {
         if i < 42 {
          Table::row(-23317200, -14400, 0, "-04")
         } else {
          Table::row(-7588800, -10800, 0, "-03")
         }
        }
       } else {
        if i < 45 {
         if i < 44 {
          Table::row(128142000, -10800, 3600, "-02")
         } else {
          Table::row(136605600, -10800, 0, "-03")
         }
        } else {
         if i < 46 {
          Table::row(596948400, -10800, 3600, "-02")
         } else {
          Table::row(605066400, -10800, 0, "-03")
         }
        }
       }
      }
     } else {
      if i < 55 {
       if i < 51 {
        if i < 49 {
         if i < 48 {
          Table::row(624423600, -10800, 3600, "-02")
         } else {
          Table::row(636516000, -10800, 0, "-03")
         }
        } else {
         if i < 50 {
          Table::row(656478000, -10800, 3600, "-02")
         } else {
          Table::row(667792800, -14400, 0, "-04")
         }
        }
       } else {
        if i < 53 {
         if i < 52 {
          Table::row(673588800, -10800, 0, "-03")
         } else {
          Table::row(687927600, -10800, 3600, "-02")
         }
        } else {
         if i < 54 {
          Table::row(699415200, -10800, 0, "-03")
         } else {
          Table::row(719377200, -10800, 3600, "-02")
         }
        }
       }
      } else {
       if i < 59 {
        if i < 57 {
         if i < 56 {
          Table::row(731469600, -10800, 0, "-03")
         } else {
          Table::row(938919600, -14400, 3600, "-03")
         }
        } else {
         if i < 58 {
          Table::row(952052400, -10800, 0, "-03")
         } else {
          Table::row(1085972400, -14400, 0, "-04")
         }
        }
       } else {
        if i < 61 {
         if i < 60 {
          Table::row(1090728000, -10800, 0, "-03")
         } else {
          Table::row(1198983600, -10800, 3600, "-02")
         }
        } else {
         if i < 62 {
          Table::row(1205632800, -10800, 0, "-03")
         } else {
          Table::row(2147483647, -10800, 0, "-03")
         }
        }
       }
      }
     }
    }
}

/// The rows of the table of the zone `America/Argentina/San_Juan`.
pub open spec fn argentina_san_juan_rows() -> spec_fn(int) -> (i64, FixedTimespan) {
    |i: int| argentina_san_juan_row(i)
}

/// The table of the zone `America/Argentina/San_Juan`.
pub open spec fn argentina_san_juan() -> Table {
    Table::listed(Table::row(0, -16444, 0, "LMT").1, 63, argentina_san_juan_rows())
}

/// Row `i` of the table of the zone `America/Argentina/San_Luis`.
pub open spec fn argentina_san_luis_row(i: int) -> (i64, FixedTimespan) {
    if i < 31 {
     if i < 15 {
      if i < 7 {
       if i < 3 {
        if i < 1 {
         Table::row(-2372096076, -15408, 0, "CMT")
        } else {
         if i < 2 {
          Table::row(-1567453392, -14400, 0, "-04")
         } else {
          Table::row(-1233432000, -14400, 3600, "-03")
         }
        }
       } else {
        if i < 5 {
         if i < 4 {
          Table::row(-1222981200, -14400, 0, "-04")
         } else {
          Table::row(-1205956800, -14400, 3600, "-03")
         }
        } else {
         if i < 6 {
          Table::row(-1194037200, -14400, 0, "-04")
         } else {
          Table::row(-1172865600, -14400, 3600, "-03")
         }
        }
       }
      } else {
       if i < 11 {
        if i < 9 {
         if i < 8 {
          Table::row(-1162501200, -14400, 0, "-04")
         } else {
          Table::row(-1141329600, -14400, 3600, "-03")
         }
        } else {
         if i < 10 {
          Table::row(-1130965200, -14400, 0, "-04")
         } else {
          Table::row(-1109793600, -14400, 3600, "-03")
         }
        }
       } else {
        if i < 13 {
         if i < 12 {
          Table::row(-1099429200, -14400, 0, "-04")
         } else {
          Table::row(-1078257600, -14400, 3600, "-03")
         }
        } else {
         if i < 14 {
          Table::row(-1067806800, -14400, 0, "-04")
         } else {
          Table::row(-1046635200, -14400, 3600, "-03")
         }
        }
       }
      }
     } else {
      if i < 23 {
       if i < 19 {
        if i < 17 {
         if i < 16 {
          Table::row(-1036270800, -14400, 0, "-04")
         } else {
          Table::row(-1015099200, -14400, 3600, "-03")
         }
        } else {
         if i < 18 {
          Table::row(-1004734800, -14400, 0, "-04")
         } else {
          Table::row(-983563200, -14400, 3600, "-03")
         }
        }
       } else {
        if i < 21 {
         if i < 20 {
          Table::row(-973198800, -14400, 0, "-04")
         } else {
          Table::row(-952027200, -14400, 3600, "-03")
         }
        } else {
         if i < 22 {
          Table::row(-941576400, -14400, 0, "-04")
         } else {
          Table::row(-931032000, -14400, 3600, "-03")
         }
        }
       }
      } else {
       if i < 27 {
        if i < 25 {
         if i < 24 {
          Table::row(-900882000, -14400, 0, "-04")
         } else {
          Table::row(-890337600, -14400, 3600, "-03")
         }
        } else {
         if i < 26 {
          Table::row(-833749200, -14400, 0, "-04")
         } else {
          Table::row(-827265600, -14400, 3600, "-03")
         }
        }
       } else {
        if i < 29 {
         if i < 28 {
          Table::row(-752274000, -14400, 0, "-04")
         } else {
          Table::row(-733780800, -14400, 3600, "-03")
         }
        } else {
         if i < 30 {
          Table::row(-197326800, -14400, 0, "-04")
         } else {
          Table::row(-190843200, -14400, 3600, "-03")
         }
        }
       }
      }
     }
    } else {
     if i < 47 {
      if i < 39 {
       if i < 35 {
        if i < 33 {
         if i < 32 {
          Table::row(-184194000, -14400, 0, "-04")
         } else {
          Table::row(-164491200, -14400, 3600, "-03")
         }
        } else {
         if i < 34 {
          Table::row(-152658000, -14400, 0, "-04")
         } else {
          Table::row(-132955200, -14400, 3600, "-03")
         }
        }
       } else {
        if i < 37 {
         if i < 36 {
          Table::row(-121122000, -14400, 0, "-04")
         } else {
          Table::row(-101419200, -14400, 3600, "-03")
         }
        } else {
         if i < 38 {
          Table::row(-86821200, -14400, 0, "-04")
         } else {
          Table::row(-71092800, -14400, 3600, "-03")
         }
        }
       }
      } else {
       if i < 43 {
        if i < 41 {
         if i < 40 {
          Table::row(-54766800, -14400, 0, "-04")
         } else {
          Table::row(-39038400, -14400, 3600, "-03")
         }
        } else {
         if i < 42 {
          Table::row(-23317200, -14400, 0, "-04")
         } else {
          Table::row(-7588800, -10800, 0, "-03")
         }
        }
       } else {
        if i < 45 {
         if i < 44 {
          Table::row(128142000, -10800, 3600, "-02")
         } else {
          Table::row(136605600, -10800, 0, "-03")
         }
        } else {
         if i < 46 {
          Table::row(596948400, -10800, 3600, "-02")
         } else {
          Table::row(605066400, -10800, 0, "-03")
         }
        }
       }
      }
     } else {
      if i < 55 {
       if i < 51 {
        if i < 49 {
         if i < 48 {
          Table::row(624423600, -10800, 3600, "-02")
         } else {
          Table::row(637380000, -14400, 0, "-04")
         }
        } else {
         if i < 50 {
          Table::row(655963200, -14400, 3600, "-03")
         } else {
          Table::row(667796400, -14400, 0, "-04")
         }
        }
       } else {
        if i < 53 {
         if i < 52 {
          Table::row(675748800, -10800, 0, "-03")
         } else {
          Table::row(938919600, -14400, 3600, "-03")
         }
        } else {
         if i < 54 {
          Table::row(952052400, -10800, 0, "-03")
         } else {
          Table::row(1085972400, -14400, 0, "-04")
         }
        }
       }
      } else {
       if i < 59 {
        if i < 57 {
         if i < 56 {
          Table::row(1090728000, -10800, 0, "-03")
         } else {
          Table::row(1198983600, -10800, 3600, "-02")
         }
        } else {
         if i < 58 {
          Table::row(1200880800, -14400, 3600, "-03")
         } else {
          Table::row(1205031600, -14400, 0, "-04")
         }
        }
       } else {
        if i < 61 {
         if i < 60 {
          Table::row(1223784000, -14400, 3600, "-03")
         } else {
          Table::row(1236481200, -14400, 0, "-04")
         }
        } else {
         if i < 62 {
          Table::row(1255233600, -10800, 0, "-03")
         } else {
          Table::row(2147483647, -10800, 0, "-03")
         }
        }
       }
      }
     }
    }
}

/// The rows of the table of the zone `America/Argentina/San_Luis`.
pub open spec fn argentina_san_luis_rows() -> spec_fn(int) -> (i64, FixedTimespan) {
    |i: int| argentina_san_luis_row(i)
}

/// The table of the zone `America/Argentina/San_Luis`.
pub open spec fn argentina_san_luis() -> Table {
    Table::listed(Table::row(0, -15924, 0, "LMT").1, 63, argentina_san_luis_rows())
}

/// Row `i` of the table of the zone `America/Argentina/Tucuman`.
pub open spec fn argentina_tucuman_row(i: int) -> (i64, FixedTimespan) {
    if i < 32 {
     if i < 16 {
      if i < 8 {
       if i < 4 {
        if i < 2 {
         if i < 1 {
          Table::row(-2372096348, -15408, 0, "CMT")
         } else {
          Table::row(-1567453392, -14400, 0, "-04")
         }
        } else {
         if i < 3 {
          Table::row(-1233432000, -14400, 3600, "-03")
         } else {
          Table::row(-1222981200, -14400, 0, "-04")
         }
        }
       } else {
        if i < 6 {
         if i < 5 {
          Table::row(-1205956800, -14400, 3600, "-03")
         } else {
          Table::row(-1194037200, -14400, 0, "-04")
         }
        } else {
         if i < 7 {
          Table::row(-1172865600, -14400, 3600, "-03")
         } else {
          Table::row(-1162501200, -14400, 0, "-04")
         }
        }
       }
      } else {
       if i < 12 {
        if i < 10 {
         if i < 9 {
          Table::row(-1141329600, -14400, 3600, "-03")
         } else {
          Table::row(-1130965200, -14400, 0, "-04")
         }
        } else {
         if i < 11 {
          Table::row(-1109793600, -14400, 3600, "-03")
         } else {
          Table::row(-1099429200, -14400, 0, "-04")
         }
        }
       } else {
        if i < 14 {
         if i < 13 {
          Table::row(-1078257600, -14400, 3600, "-03")
         } else {
          Table::row(-1067806800, -14400, 0, "-04")
         }
        } else {
         if i < 15 {
          Table::row(-1046635200, -14400, 3600, "-03")
         } else {
          Table::row(-1036270800, -14400, 0, "-04")
         }
        }
       }
      }
     } else {
      if i < 24 {
       if i < 20 {
        if i < 18 {
         if i < 17 {
          Table::row(-1015099200, -14400, 3600, "-03")
         } else {
          Table::row(-1004734800, -14400, 0, "-04")
         }
        } else {
         if i < 19 {
          Table::row(-983563200, -14400, 3600, "-03")
         } else {
          Table::row(-973198800, -14400, 0, "-04")
         }
        }
       } else {
        if i < 22 {
         if i < 21 {
          Table::row(-952027200, -14400, 3600, "-03")
         } else {
          Table::row(-941576400, -14400, 0, "-04")
         }
        } else {
         if i < 23 {
          Table::row(-931032000, -14400, 3600, "-03")
         } else {
          Table::row(-900882000, -14400, 0, "-04")
         }
        }
       }
      } else {
       if i < 28 {
        if i < 26 {
         if i < 25 {
          Table::row(-890337600, -14400, 3600, "-03")
         } else {
          Table::row(-833749200, -14400, 0, "-04")
         }
        } else {
         if i < 27 {
          Table::row(-827265600, -14400, 3600, "-03")
         } else {
          Table::row(-752274000, -14400, 0, "-04")
         }
        }
       } else {
        if i < 30 {
         if i < 29 {
          Table::row(-733780800, -14400, 3600, "-03")
         } else {
          Table::row(-197326800, -14400, 0, "-04")
         }
        } else {
         if i < 31 {
          Table::row(-190843200, -14400, 3600, "-03")
         } else {
          Table::row(-184194000, -14400, 0, "-04")
         }
        }
       }
      }
     }
    } else {
     if i < 48 {
      if i < 40 {
       if i < 36 {
        if i < 34 {
         if i < 33 {
          Table::row(-164491200, -14400, 3600, "-03")
         } else {
          Table::row(-152658000, -14400, 0, "-04")
         }
        } else {
         if i < 35 {
          Table::row(-132955200, -14400, 3600, "-03")
         } else {
          Table::row(-121122000, -14400, 0, "-04")
         }
        }
       } else {
        if i < 38 {
         if i < 37 {
          Table::row(-101419200, -14400, 3600, "-03")
         } else {
          Table::row(-86821200, -14400, 0, "-04")
         }
        } else {
         if i < 39 {
          Table::row(-71092800, -14400, 3600, "-03")
         } else {
          Table::row(-54766800, -14400, 0, "-04")
         }
        }
       }
      } else {
       if i < 44 {
        if i < 42 {
         if i < 41 {
          Table::row(-39038400, -14400, 3600, "-03")
         } else {
          Table::row(-23317200, -14400, 0, "-04")
         }
        } else {
         if i < 43 {
          Table::row(-7588800, -10800, 0, "-03")
         } else {
          Table::row(128142000, -10800, 3600, "-02")
         }
        }
       } else {
        if i < 46 {
         if i < 45 {
          Table::row(136605600, -10800, 0, "-03")
         } else {
          Table::row(596948400, -10800, 3600, "-02")
         }
        } else {
         if i < 47 {
          Table::row(605066400, -10800, 0, "-03")
         } else {
          Table::row(624423600, -10800, 3600, "-02")
         }
        }
       }
      }
     } else {
      if i < 56 {
       if i < 52 {
        if i < 50 {
         if i < 49 {
          Table::row(636516000, -10800, 0, "-03")
         } else {
          Table::row(656478000, -10800, 3600, "-02")
         }
        } else {
         if i < 51 {
          Table::row(667965600, -14400, 0, "-04")
         } else {
          Table::row(687931200, -14400, 7200, "-02")
         }
        }
       } else {
        if i < 54 {
         if i < 53 {
          Table::row(699415200, -10800, 0, "-03")
         } else {
          Table::row(719377200, -10800, 3600, "-02")
         }
        } else {
         if i < 55 {
          Table::row(731469600, -10800, 0, "-03")
         } else {
          Table::row(938919600, -14400, 3600, "-03")
         }
        }
       }
      } else {
       if i < 60 {
        if i < 58 {
         if i < 57 {
          Table::row(952052400, -10800, 0, "-03")
         } else {
          Table::row(1086058800, -14400, 0, "-04")
         }
        } else {
         if i < 59 {
          Table::row(1087099200, -10800, 0, "-03")
         } else {
          Table::row(1198983600, -10800, 3600, "-02")
         }
        }
       } else {
        if i < 62 {
         if i < 61 {
          Table::row(1205632800, -10800, 0, "-03")
         } else {
          Table::row(1224385200, -10800, 3600, "-02")
         }
        } else {
         if i < 63 {
          Table::row(1237082400, -10800, 0, "-03")
         } else {
          Table::row(2147483647, -10800, 0, "-03")
         }
        }
       }
      }
     }
    }
}

/// The rows of the table of the zone `America/Argentina/Tucuman`.
pub open spec fn argentina_tucuman_rows() -> spec_fn(int) -> (i64, FixedTimespan) {
    |i: int| argentina_tucuman_row(i)
}

/// The table of the zone `America/Argentina/Tucuman`.
pub open spec fn argentina_tucuman() -> Table {
    Table::listed(Table::row(0, -15652, 0, "LMT").1, 64, argentina_tucuman_rows())
}

/// Row `i` of the table of the zone `America/Argentina/Ushuaia`.
pub open spec fn argentina_ushuaia_row(i: int) -> (i64, FixedTimespan) {
    if i < 31 {
     if i < 15 {
      if i < 7 {
       if i < 3 {
        if i < 1 {
         Table::row(-2372095608, -15408, 0, "CMT")
        } else {
         if i < 2 {
          Table::row(-1567453392, -14400, 0, "-04")
         } else {
          Table::row(-1233432000, -14400, 3600, "-03")
         }
        }
       } else {
        if i < 5 {
         if i < 4 {
          Table::row(-1222981200, -14400, 0, "-04")
         } else {
          Table::row(-1205956800, -14400, 3600, "-03")
         }
        } else {
         if i < 6 {
          Table::row(-1194037200, -14400, 0, "-04")
         } else {
          Table::row(-1172865600, -14400, 3600, "-03")
         }
        }
       }
      } else {
       if i < 11 {
        if i < 9 {
         if i < 8 {
          Table::row(-1162501200, -14400, 0, "-04")
         } else {
          Table::row(-1141329600, -14400, 3600, "-03")
         }
        } else {
         if i < 10 {
          Table::row(-1130965200, -14400, 0, "-04")
         } else {
          Table::row(-1109793600, -14400, 3600, "-03")
         }
        }
       } else {
        if i < 13 {
         if i < 12 {
          Table::row(-1099429200, -14400, 0, "-04")
         } else {
          Table::row(-1078257600, -14400, 3600, "-03")
         }
        } else {
         if i < 14 {
          Table::row(-1067806800, -14400, 0, "-04")
         } else {
          Table::row(-1046635200, -14400, 3600, "-03")
         }
        }
       }
      }
     } else {
      if i < 23 {
       if i < 19 {
        if i < 17 {
         if i < 16 {
          Table::row(-1036270800, -14400, 0, "-04")
         } else {
          Table::row(-1015099200, -14400, 3600, "-03")
         }
        } else {
         if i < 18 {
          Table::row(-1004734800, -14400, 0, "-04")
         } else {
          Table::row(-983563200, -14400, 3600, "-03")
         }
        }
       } else {
        if i < 21 {
         if i < 20 {
          Table::row(-973198800, -14400, 0, "-04")
         } else {
          Table::row(-952027200, -14400, 3600, "-03")
         }
        } else {
         if i < 22 {
          Table::row(-941576400, -14400, 0, "-04")
         } else {
          Table::row(-931032000, -14400, 3600, "-03")
         }
        }
       }
      } else {
       if i < 27 {
        if i < 25 {
         if i < 24 {
          Table::row(-900882000, -14400, 0, "-04")
         } else {
          Table::row(-890337600, -14400, 3600, "-03")
         }
        } else {
         if i < 26 {
          Table::row(-833749200, -14400, 0, "-04")
         } else {
          Table::row(-827265600, -14400, 3600, "-03")
         }
        }
       } else {
        if i < 29 {
         if i < 28 {
          Table::row(-752274000, -14400, 0, "-04")
         } else {
          Table::row(-733780800, -14400, 3600, "-03")
         }
        } else {
         if i < 30 {
          Table::row(-197326800, -14400, 0, "-04")
         } else {
          Table::row(-190843200, -14400, 3600, "-03")
         }
        }
       }
      }
     }
    } else {
     if i < 46 {
      if i < 38 {
       if i < 34 {
        if i < 32 {
         Table::row(-184194000, -14400, 0, "-04")
        } else {
         if i < 33 {
          Table::row(-164491200, -14400, 3600, "-03")
         } else {
          Table::row(-152658000, -14400, 0, "-04")
         }
        }
       } else {
        if i < 36 {
         if i < 35 {
          Table::row(-132955200, -14400, 3600, "-03")
         } else {
          Table::row(-121122000, -14400, 0, "-04")
         }
        } else {
         if i < 37 {
          Table::row(-101419200, -14400, 3600, "-03")
         } else {
          Table::row(-86821200, -14400, 0, "-04")
         }
        }
       }
      } else {
       if i < 42 {
        if i < 40 {
         if i < 39 {
          Table::row(-71092800, -14400, 3600, "-03")
         } else {
          Table::row(-54766800, -14400, 0, "-04")
         }
        } else {
         if i < 41 {
          Table::row(-39038400, -14400, 3600, "-03")
         } else {
          Table::row(-23317200, -14400, 0, "-04")
         }
        }
       } else {
        if i < 44 {
         if i < 43 {
          Table::row(-7588800, -10800, 0, "-03")
         } else {
          Table::row(128142000, -10800, 3600, "-02")
         }
        } else {
         if i < 45 {
          Table::row(136605600, -10800, 0, "-03")
         } else {
          Table::row(596948400, -10800, 3600, "-02")
         }
        }
       }
      }
     } else {
      if i < 54 {
       if i < 50 {
        if i < 48 {
         if i < 47 {
          Table::row(605066400, -10800, 0, "-03")
         } else {
          Table::row(624423600, -10800, 3600, "-02")
         }
        } else {
         if i < 49 {
          Table::row(636516000, -10800, 0, "-03")
         } else {
          Table::row(656478000, -10800, 3600, "-02")
         }
        }
       } else {
        if i < 52 {
         if i < 51 {
          Table::row(667965600, -10800, 0, "-03")
         } else {
          Table::row(687927600, -10800, 3600, "-02")
         }
        } else {
         if i < 53 {
          Table::row(699415200, -10800, 0, "-03")
         } else {
          Table::row(719377200, -10800, 3600, "-02")
         }
        }
       }
      } else {
       if i < 58 {
        if i < 56 {
         if i < 55 {
          Table::row(731469600, -10800, 0, "-03")
         } else {
          Table::row(938919600, -14400, 3600, "-03")
         }
        } else {
         if i < 57 {
          Table::row(952052400, -10800, 0, "-03")
         } else {
          Table::row(1085886000, -14400, 0, "-04")
         }
        }
       } else {
        if i < 60 {
         if i < 59 {
          Table::row(1087704000, -10800, 0, "-03")
         } else {
          Table::row(1198983600, -10800, 3600, "-02")
         }
        } else {
         if i < 61 {
          Table::row(1205632800, -10800, 0, "-03")
         } else {
          Table::row(2147483647, -10800, 0, "-03")
         }
        }
       }
      }
     }
    }
}

/// The rows of the table of the zone `America/Argentina/Ushuaia`.
pub open spec fn argentina_ushuaia_rows() -> spec_fn(int) -> (i64, FixedTimespan) {
    |i: int| argentina_ushuaia_row(i)
}

/// The table of the zone `America/Argentina/Ushuaia`.
pub open spec fn argentina_ushuaia() -> Table {
    Table::listed(Table::row(0, -16392, 0, "LMT").1, 62, argentina_ushuaia_rows())
}

/// Row `i` of the table of the zone `America/Aruba`.
pub open spec fn aruba_row(i: int) -> (i64, FixedTimespan) {
    if i < 1 {
     Table::row(-1826738376, -16200, 0, "-0430")
    } else {
     Table::row(-157750200, -14400, 0, "AST")
    }
}

/// The rows of the table of the zone `America/Aruba`.
pub open spec fn aruba_rows() -> spec_fn(int) -> (i64, FixedTimespan) {
    |i: int| aruba_row(i)
}

/// The table of the zone `America/Aruba`.
pub open spec fn aruba() -> Table {
    Table::listed(Table::row(0, -16824, 0, "LMT").1, 2, aruba_rows())
}

/// Row `i` of the table of the zone `America/Asuncion`.
pub open spec fn asuncion_row(i: int) -> (i64, FixedTimespan) {
    if i < 52 {
     if i < 26 {
      if i < 13 {
       if i < 6 {
        if i < 3 {
         if i < 1 {
          Table::row(-2524507760, -13840, 0, "AMT")
         } else {
          if i < 2 {
           Table::row(-1206389360, -14400, 0, "-04")
          } else {
           Table::row(86760000, -10800, 0, "-03")
          }
         }
        } else {
         if i < 4 {
          Table::row(134017200, -14400, 0, "-04")
         } else {
          if i < 5 {
           Table::row(181368000, -14400, 3600, "-03")
          } else {
           Table::row(194497200, -14400, 0, "-04")
          }
         }
        }
       } else {
        if i < 9 {
         if i < 7 {
          Table::row(212990400, -14400, 3600, "-03")
         } else {
          if i < 8 {
           Table::row(226033200, -14400, 0, "-04")
          } else {
           Table::row(244526400, -14400, 3600, "-03")
          }
         }
        } else {
         if i < 11 {
          if i < 10 {
           Table::row(257569200, -14400, 0, "-04")
          } else {
           Table::row(276062400, -14400, 3600, "-03")
          }
         } else {
          if i < 12 {
           Table::row(291783600, -14400, 0, "-04")
          } else {
           Table::row(307598400, -14400, 3600, "-03")
          }
         }
        }
       }
      } else {
       if i < 19 {
        if i < 16 {
         if i < 14 {
          Table::row(323406000, -14400, 0, "-04")
         } else {
          if i < 15 {
           Table::row(339220800, -14400, 3600, "-03")
          } else {
           Table::row(354942000, -14400, 0, "-04")
          }
         }
        } else {
         if i < 17 {
          Table::row(370756800, -14400, 3600, "-03")
         } else {
          if i < 18 {
           Table::row(386478000, -14400, 0, "-04")
          } else {
           Table::row(402292800, -14400, 3600, "-03")
          }
         }
        }
       } else {
        if i < 22 {
         if i < 20 {
          Table::row(418014000, -14400, 0, "-04")
         } else {
          if i < 21 {
           Table::row(433828800, -14400, 3600, "-03")
          } else {
           Table::row(449636400, -14400, 0, "-04")
          }
         }
        } else {
         if i < 24 {
          if i < 23 {
           Table::row(465451200, -14400, 3600, "-03")
          } else {
           Table::row(481172400, -14400, 0, "-04")
          }
         } else {
          if i < 25 {
           Table::row(496987200, -14400, 3600, "-03")
          } else {
           Table::row(512708400, -14400, 0, "-04")
          }
         }
        }
       }
      }
     } else {
      if i < 39 {
       if i < 32 {
        if i < 29 {
         if i < 27 {
          Table::row(528523200, -14400, 3600, "-03")
         } else {
          if i < 28 {
           Table::row(544244400, -14400, 0, "-04")
          } else {
           Table::row(560059200, -14400, 3600, "-03")
          }
         }
        } else {
         if i < 30 {
          Table::row(575866800, -14400, 0, "-04")
         } else {
          if i < 31 {
           Table::row(591681600, -14400, 3600, "-03")
          } else {
           Table::row(607402800, -14400, 0, "-04")
          }
         }
        }
       } else {
        if i < 35 {
         if i < 33 {
          Table::row(625032000, -14400, 3600, "-03")
         } else {
          if i < 34 {
           Table::row(638938800, -14400, 0, "-04")
          } else {
           Table::row(654753600, -14400, 3600, "-03")
          }
         }
        } else {
         if i < 37 {
          if i < 36 {
           Table::row(670474800, -14400, 0, "-04")
          } else {
           Table::row(686721600, -14400, 3600, "-03")
          }
         } else {
          if i < 38 {
           Table::row(699418800, -14400, 0, "-04")
          } else {
           Table::row(718257600, -14400, 3600, "-03")
          }
         }
        }
       }
      } else {
       if i < 45 {
        if i < 42 {
         if i < 40 {
          Table::row(733546800, -14400, 0, "-04")
         } else {
          if i < 41 {
           Table::row(749448000, -14400, 3600, "-03")
          } else {
           Table::row(762318000, -14400, 0, "-04")
          }
         }
        } else {
         if i < 43 {
          Table::row(780984000, -14400, 3600, "-03")
         } else {
          if i < 44 {
           Table::row(793767600, -14400, 0, "-04")
          } else {
           Table::row(812520000, -14400, 3600, "-03")
          }
         }
        }
       } else {
        if i < 48 {
         if i < 46 {
          Table::row(825649200, -14400, 0, "-04")
         } else {
          if i < 47 {
           Table::row(844574400, -14400, 3600, "-03")
          } else {
           Table::row(856666800, -14400, 0, "-04")
          }
         }
        } else {
         if i < 50 {
          if i < 49 {
           Table::row(876024000, -14400, 3600, "-03")
          } else {
           Table::row(888721200, -14400, 0, "-04")
          }
         } else {
          if i < 51 {
           Table::row(907473600, -14400, 3600, "-03")
          } else {
           Table::row(920775600, -14400, 0, "-04")
          }
         }
        }
       }
      }
     }
    } else {
     if i < 78 {
      if i < 65 {
       if i < 58 {
        if i < 55 {
         if i < 53 {
          Table::row(938923200, -14400, 3600, "-03")
         } else {
          if i < 54 {
           Table::row(952225200, -14400, 0, "-04")
          } else {
           Table::row(970372800, -14400, 3600, "-03")
          }
         }
        } else {
         if i < 56 {
          Table::row(983674800, -14400, 0, "-04")
         } else {
          if i < 57 {
           Table::row(1002427200, -14400, 3600, "-03")
          } else {
           Table::row(1018148400, -14400, 0, "-04")
          }
         }
        }
       } else {
        if i < 61 {
         if i < 59 {
          Table::row(1030852800, -14400, 3600, "-03")
         } else {
          if i < 60 {
           Table::row(1049598000, -14400, 0, "-04")
          } else {
           Table::row(1062907200, -14400, 3600, "-03")
          }
         }
        } else {
         if i < 63 {
          if i < 62 {
           Table::row(1081047600, -14400, 0, "-04")
          } else {
           Table::row(1097985600, -14400, 3600, "-03")
          }
         } else {
          if i < 64 {
           Table::row(1110682800, -14400, 0, "-04")
          } else {
           Table::row(1129435200, -14400, 3600, "-03")
          }
         }
        }
       }
      } else {
       if i < 71 {
        if i < 68 {
         if i < 66 {
          Table::row(1142132400, -14400, 0, "-04")
         } else {
          if i < 67 {
           Table::row(1160884800, -14400, 3600, "-03")
          } else {
           Table::row(1173582000, -14400, 0, "-04")
          }
         }
        } else {
         if i < 69 {
          Table::row(1192939200, -14400, 3600, "-03")
         } else {
          if i < 70 {
           Table::row(1205031600, -14400, 0, "-04")
          } else {
           Table::row(1224388800, -14400, 3600, "-03")
          }
         }
        }
       } else {
        if i < 74 {
         if i < 72 {
          Table::row(1236481200, -14400, 0, "-04")
         } else {
          if i < 73 {
           Table::row(1255838400, -14400, 3600, "-03")
          } else {
           Table::row(1270954800, -14400, 0, "-04")
          }
         }
        } else {
         if i < 76 {
          if i < 75 {
           Table::row(1286078400, -14400, 3600, "-03")
          } else {
           Table::row(1302404400, -14400, 0, "-04")
          }
         } else {
          if i < 77 {
           Table::row(1317528000, -14400, 3600, "-03")
          } else {
           Table::row(1333854000, -14400, 0, "-04")
          }
         }
        }
       }
      }
     } else {
      if i < 91 {
       if i < 84 {
        if i < 81 {
         if i < 79 {
          Table::row(1349582400, -14400, 3600, "-03")
         } else {
          if i < 80 {
           Table::row(1364094000, -14400, 0, "-04")
          } else {
           Table::row(1381032000, -14400, 3600, "-03")
          }
         }
        } else {
         if i < 82 {
          Table::row(1395543600, -14400, 0, "-04")
         } else {
          if i < 83 {
           Table::row(1412481600, -14400, 3600, "-03")
          } else {
           Table::row(1426993200, -14400, 0, "-04")
          }
         }
        }
       } else {
        if i < 87 {
         if i < 85 {
          Table::row(1443931200, -14400, 3600, "-03")
         } else {
          if i < 86 {
           Table::row(1459047600, -14400, 0, "-04")
          } else {
           Table::row(1475380800, -14400, 3600, "-03")
          }
         }
        } else {
         if i < 89 {
          if i < 88 {
           Table::row(1490497200, -14400, 0, "-04")
          } else {
           Table::row(1506830400, -14400, 3600, "-03")
          }
         } else {
          if i < 90 {
           Table::row(1521946800, -14400, 0, "-04")
          } else {
           Table::row(1538884800, -14400, 3600, "-03")
          }
         }
        }
       }
      } else {
       if i < 98 {
        if i < 94 {
         if i < 92 {
          Table::row(1553396400, -14400, 0, "-04")
         } else {
          if i < 93 {
           Table::row(1570334400, -14400, 3600, "-03")
          } else {
           Table::row(1584846000, -14400, 0, "-04")
          }
         }
        } else {
         if i < 96 {
          if i < 95 {
           Table::row(1601784000, -14400, 3600, "-03")
          } else {
           Table::row(1616900400, -14400, 0, "-04")
          }
         } else {
          if i < 97 {
           Table::row(1633233600, -14400, 3600, "-03")
          } else {
           Table::row(1648350000, -14400, 0, "-04")
          }
         }
        }
       } else {
        if i < 101 {
         if i < 99 {
          Table::row(1664683200, -14400, 3600, "-03")
         } else {
          if i < 100 {
           Table::row(1679799600, -14400, 0, "-04")
          } else {
           Table::row(1696132800, -14400, 3600, "-03")
          }
         }
        } else {
         if i < 103 {
          if i < 102 {
           Table::row(1711249200, -14400, 0, "-04")
          } else {
           Table::row(1728187200, -14400, 3600, "-03")
          }
         } else {
          if i < 104 {
           Table::row(1728961200, -10800, 0, "-03")
          } else {
           Table::row(2147483647, -10800, 0, "-03")
          }
         }
        }
       }
      }
     }
    }
}

/// The rows of the table of the zone `America/Asuncion`.
pub open spec fn asuncion_rows() -> spec_fn(int) -> (i64, FixedTimespan) {
    |i: int| asuncion_row(i)
}

/// The table of the zone `America/Asuncion`.
pub open spec fn asuncion() -> Table {
    Table::listed(Table::row(0, -13840, 0, "LMT").1, 105, asuncion_rows())
}

/// Row `i` of the table of the zone `America/Atikokan`.
pub open spec fn atikokan_row(i: int) -> (i64, FixedTimespan) {
    if i < 3 {
     if i < 1 {
      Table::row(-2366733212, -21600, 0, "CST")
     } else {
      if i < 2 {
       Table::row(-1632067200, -21600, 3600, "CDT")
      } else {
       Table::row(-1615136400, -21600, 0, "CST")
      }
     }
    } else {
     if i < 5 {
      if i < 4 {
       Table::row(-923248800, -21600, 3600, "CDT")
      } else {
       Table::row(-880214400, -21600, 3600, "CWT")
      }
     } else {
      if i < 6 {
       Table::row(-769395600, -21600, 3600, "CPT")
      } else {
       Table::row(-765392400, -18000, 0, "EST")
      }
     }
    }
}

/// The rows of the table of the zone `America/Atikokan`.
pub open spec fn atikokan_rows() -> spec_fn(int) -> (i64, FixedTimespan) {
    |i: int| atikokan_row(i)
}

/// The table of the zone `America/Atikokan`.
pub open spec fn atikokan() -> Table {
    Table::listed(Table::row(0, -21988, 0, "LMT").1, 7, atikokan_rows())
}

/// Row `i` of the table of the zone `America/Atka`.
pub open spec fn atka_row(i: int) -> (i64, FixedTimespan) {
    if i < 72 {
     if i < 36 {
      if i < 18 {
       if i < 9 {
        if i < 4 {
         if i < 2 {
          if i < 1 {
           Table::row(-3225223727, -42398, 0, "LMT")
          } else {
           Table::row(-2188944802, -39600, 0, "NST")
          }
         } else {
          if i < 3 {
           Table::row(-880196400, -39600, 3600, "NWT")
          } else {
           Table::row(-769395600, -39600, 3600, "NPT")
          }
         }
        } else {
         if i < 6 {
          if i < 5 {
           Table::row(-765374400, -39600, 0, "NST")
          } else {
           Table::row(-86878800, -39600, 0, "BST")
          }
         } else {
          if i < 7 {
           Table::row(-21466800, -39600, 3600, "BDT")
          } else {
           if i < 8 {
            Table::row(-5745600, -39600, 0, "BST")
           } else {
            Table::row(9982800, -39600, 3600, "BDT")
           }
          }
         }
        }
       } else {
        if i < 13 {
         if i < 11 {
          if i < 10 {
           Table::row(25704000, -39600, 0, "BST")
          } else {
           Table::row(41432400, -39600, 3600, "BDT")
          }
         } else {
          if i < 12 {
           Table::row(57758400, -39600, 0, "BST")
          } else {
           Table::row(73486800, -39600, 3600, "BDT")
          }
         }
        } else {
         if i < 15 {
          if i < 14 {
           Table::row(89208000, -39600, 0, "BST")
          } else {
           Table::row(104936400, -39600, 3600, "BDT")
          }
         } else {
          if i < 16 {
           Table::row(120657600, -39600, 0, "BST")
          } else {
           if i < 17 {
            Table::row(126709200, -39600, 3600, "BDT")
           } else {
            Table::row(152107200, -39600, 0, "BST")
           }
          }
         }
        }
       }
      } else {
       if i < 27 {
        if i < 22 {
         if i < 20 {
          if i < 19 {
           Table::row(162392400, -39600, 3600, "BDT")
          } else {
           Table::row(183556800, -39600, 0, "BST")
          }
         } else {
          if i < 21 {
           Table::row(199285200, -39600, 3600, "BDT")
          } else {
           Table::row(215611200, -39600, 0, "BST")
          }
         }
        } else {
         if i < 24 {
          if i < 23 {
           Table::row(230734800, -39600, 3600, "BDT")
          } else {
           Table::row(247060800, -39600, 0, "BST")
          }
         } else {
          if i < 25 {
           Table::row(262789200, -39600, 3600, "BDT")
          } else {
           if i < 26 {
            Table::row(278510400, -39600, 0, "BST")
           } else {
            Table::row(294238800, -39600, 3600, "BDT")
           }
          }
         }
        }
       } else {
        if i < 31 {
         if i < 29 {
          if i < 28 {
           Table::row(309960000, -39600, 0, "BST")
          } else {
           Table::row(325688400, -39600, 3600, "BDT")
          }
         } else {
          if i < 30 {
           Table::row(341409600, -39600, 0, "BST")
          } else {
           Table::row(357138000, -39600, 3600, "BDT")
          }
         }
        } else {
         if i < 33 {
          if i < 32 {
           Table::row(372859200, -39600, 0, "BST")
          } else {
           Table::row(388587600, -39600, 3600, "BDT")
          }
         } else {
          if i < 34 {
           Table::row(404913600, -39600, 0, "BST")
          } else {
           if i < 35 {
            Table::row(420037200, -39600, 3600, "BDT")
           } else {
            Table::row(436363200, -36000, 0, "AHST")
           }
          }
         }
        }
       }
      }
     } else {
      if i < 54 {
       if i < 45 {
        if i < 40 {
         if i < 38 {
          if i < 37 {
           Table::row(439034400, -36000, 0, "HST")
          } else {
           Table::row(452088000, -36000, 3600, "HDT")
          }
         } else {
          if i < 39 {
           Table::row(467809200, -36000, 0, "HST")
          } else {
           Table::row(483537600, -36000, 3600, "HDT")
          }
         }
        } else {
         if i < 42 {
          if i < 41 {
           Table::row(499258800, -36000, 0, "HST")
          } else {
           Table::row(514987200, -36000, 3600, "HDT")
          }
         } else {
          if i < 43 {
           Table::row(530708400, -36000, 0, "HST")
          } else {
           if i < 44 {
            Table::row(544622400, -36000, 3600, "HDT")
           } else {
            Table::row(562158000, -36000, 0, "HST")
           }
          }
         }
        }
       } else {
        if i < 49 {
         if i < 47 {
          if i < 46 {
           Table::row(576072000, -36000, 3600, "HDT")
          } else {
           Table::row(594212400, -36000, 0, "HST")
          }
         } else {
          if i < 48 {
           Table::row(607521600, -36000, 3600, "HDT")
          } else {
           Table::row(625662000, -36000, 0, "HST")
          }
         }
        } else {
         if i < 51 {
          if i < 50 {
           Table::row(638971200, -36000, 3600, "HDT")
          } else {
           Table::row(657111600, -36000, 0, "HST")
          }
         } else {
          if i < 52 {
           Table::row(671025600, -36000, 3600, "HDT")
          } else {
           if i < 53 {
            Table::row(688561200, -36000, 0, "HST")
           } else {
            Table::row(702475200, -36000, 3600, "HDT")
           }
          }
         }
        }
       }
      } else {
       if i < 63 {
        if i < 58 {
         if i < 56 {
          if i < 55 {
           Table::row(720010800, -36000, 0, "HST")
          } else {
           Table::row(733924800, -36000, 3600, "HDT")
          }
         } else {
          if i < 57 {
           Table::row(752065200, -36000, 0, "HST")
          } else {
           Table::row(765374400, -36000, 3600, "HDT")
          }
         }
        } else {
         if i < 60 {
          if i < 59 {
           Table::row(783514800, -36000, 0, "HST")
          } else {
           Table::row(796824000, -36000, 3600, "HDT")
          }
         } else {
          if i < 61 {
           Table::row(814964400, -36000, 0, "HST")
          } else {
           if i < 62 {
            Table::row(828878400, -36000, 3600, "HDT")
           } else {
            Table::row(846414000, -36000, 0, "HST")
           }
          }
         }
        }
       } else {
        if i < 67 {
         if i < 65 {
          if i < 64 {
           Table::row(860328000, -36000, 3600, "HDT")
          } else {
           Table::row(877863600, -36000, 0, "HST")
          }
         } else {
          if i < 66 {
           Table::row(891777600, -36000, 3600, "HDT")
          } else {
           Table::row(909313200, -36000, 0, "HST")
          }
         }
        } else {
         if i < 69 {
          if i < 68 {
           Table::row(923227200, -36000, 3600, "HDT")
          } else {
           Table::row(941367600, -36000, 0, "HST")
          }
         } else {
          if i < 70 {
           Table::row(954676800, -36000, 3600, "HDT")
          } else {
           if i < 71 {
            Table::row(972817200, -36000, 0, "HST")
           } else {
            Table::row(986126400, -36000, 3600, "HDT")
           }
          }
         }
        }
       }
      }
     }
    } else {
     if i < 108 {
      if i < 90 {
       if i < 81 {
        if i < 76 {
         if i < 74 {
          if i < 73 {
           Table::row(1004266800, -36000, 0, "HST")
          } else {
           Table::row(1018180800, -36000, 3600, "HDT")
          }
         } else {
          if i < 75 {
           Table::row(1035716400, -36000, 0, "HST")
          } else {
           Table::row(1049630400, -36000, 3600, "HDT")
          }
         }
        } else {
         if i < 78 {
          if i < 77 {
           Table::row(1067166000, -36000, 0, "HST")
          } else {
           Table::row(1081080000, -36000, 3600, "HDT")
          }
         } else {
          if i < 79 {
           Table::row(1099220400, -36000, 0, "HST")
          } else {
           if i < 80 {
            Table::row(1112529600, -36000, 3600, "HDT")
           } else {
            Table::row(1130670000, -36000, 0, "HST")
           }
          }
         }
        }
       } else {
        if i < 85 {
         if i < 83 {
          if i < 82 {
           Table::row(1143979200, -36000, 3600, "HDT")
          } else {
           Table::row(1162119600, -36000, 0, "HST")
          }
         } else {
          if i < 84 {
           Table::row(1173614400, -36000, 3600, "HDT")
          } else {
           Table::row(1194174000, -36000, 0, "HST")
          }
         }
        } else {
         if i < 87 {
          if i < 86 {
           Table::row(1205064000, -36000, 3600, "HDT")
          } else {
           Table::row(1225623600, -36000, 0, "HST")
          }
         } else {
          if i < 88 {
           Table::row(1236513600, -36000, 3600, "HDT")
          } else {
           if i < 89 {
            Table::row(1257073200, -36000, 0, "HST")
           } else {
            Table::row(1268568000, -36000, 3600, "HDT")
           }
          }
         }
        }
       }
      } else {
       if i < 99 {
        if i < 94 {
         if i < 92 {
          if i < 91 {
           Table::row(1289127600, -36000, 0, "HST")
          } else {
           Table::row(1300017600, -36000, 3600, "HDT")
          }
         } else {
          if i < 93 {
           Table::row(1320577200, -36000, 0, "HST")
          } else {
           Table::row(1331467200, -36000, 3600, "HDT")
          }
         }
        } else {
         if i < 96 {
          if i < 95 {
           Table::row(1352026800, -36000, 0, "HST")
          } else {
           Table::row(1362916800, -36000, 3600, "HDT")
          }
         } else {
          if i < 97 {
           Table::row(1383476400, -36000, 0, "HST")
          } else {
           if i < 98 {
            Table::row(1394366400, -36000, 3600, "HDT")
           } else {
            Table::row(1414926000, -36000, 0, "HST")
           }
          }
         }
        }
       } else {
        if i < 103 {
         if i < 101 {
          if i < 100 {
           Table::row(1425816000, -36000, 3600, "HDT")
          } else {
           Table::row(1446375600, -36000, 0, "HST")
          }
         } else {
          if i < 102 {
           Table::row(1457870400, -36000, 3600, "HDT")
          } else {
           Table::row(1478430000, -36000, 0, "HST")
          }
         }
        } else {
         if i < 105 {
          if i < 104 {
           Table::row(1489320000, -36000, 3600, "HDT")
          } else {
           Table::row(1509879600, -36000, 0, "HST")
          }
         } else {
          if i < 106 {
           Table::row(1520769600, -36000, 3600, "HDT")
          } else {
           if i < 107 {
            Table::row(1541329200, -36000, 0, "HST")
           } else {
            Table::row(1552219200, -36000, 3600, "HDT")
           }
          }
         }
        }
       }
      }
     } else {
      if i < 126 {
       if i < 117 {
        if i < 112 {
         if i < 110 {
          if i < 109 {
           Table::row(1572778800, -36000, 0, "HST")
          } else {
           Table::row(1583668800, -36000, 3600, "HDT")
          }
         } else {
          if i < 111 {
           Table::row(1604228400, -36000, 0, "HST")
          } else {
           Table::row(1615723200, -36000, 3600, "HDT")
          }
         }
        } else {
         if i < 114 {
          if i < 113 {
           Table::row(1636282800, -36000, 0, "HST")
          } else {
           Table::row(1647172800, -36000, 3600, "HDT")
          }
         } else {
          if i < 115 {
           Table::row(1667732400, -36000, 0, "HST")
          } else {
           if i < 116 {
            Table::row(1678622400, -36000, 3600, "HDT")
           } else {
            Table::row(1699182000, -36000, 0, "HST")
           }
          }
         }
        }
       } else {
        if i < 121 {
         if i < 119 {
          if i < 118 {
           Table::row(1710072000, -36000, 3600, "HDT")
          } else {
           Table::row(1730631600, -36000, 0, "HST")
          }
         } else {
          if i < 120 {
           Table::row(1741521600, -36000, 3600, "HDT")
          } else {
           Table::row(1762081200, -36000, 0, "HST")
          }
         }
        } else {
         if i < 123 {
          if i < 122 {
           Table::row(1772971200, -36000, 3600, "HDT")
          } else {
           Table::row(1793530800, -36000, 0, "HST")
          }
         } else {
          if i < 124 {
           Table::row(1805025600, -36000, 3600, "HDT")
          } else {
           if i < 125 {
            Table::row(1825585200, -36000, 0, "HST")
           } else {
            Table::row(1836475200, -36000, 3600, "HDT")
           }
          }
         }
        }
       }
      } else {
       if i < 135 {
        if i < 130 {
         if i < 128 {
          if i < 127 {
           Table::row(1857034800, -36000, 0, "HST")
          } else {
           Table::row(1867924800, -36000, 3600, "HDT")
          }
         } else {
          if i < 129 {
           Table::row(1888484400, -36000, 0, "HST")
          } else {
           Table::row(1899374400, -36000, 3600, "HDT")
          }
         }
        } else {
         if i < 132 {
          if i < 131 {
           Table::row(1919934000, -36000, 0, "HST")
          } else {
           Table::row(1930824000, -36000, 3600, "HDT")
          }
         } else {
          if i < 133 {
           Table::row(1951383600, -36000, 0, "HST")
          } else {
           if i < 134 {
            Table::row(1962878400, -36000, 3600, "HDT")
           } else {
            Table::row(1983438000, -36000, 0, "HST")
           }
          }
         }
        }
       } else {
        if i < 140 {
         if i < 137 {
          if i < 136 {
           Table::row(1994328000, -36000, 3600, "HDT")
          } else {
           Table::row(2014887600, -36000, 0, "HST")
          }
         } else {
          if i < 138 {
           Table::row(2025777600, -36000, 3600, "HDT")
          } else {
           if i < 139 {
            Table::row(2046337200, -36000, 0, "HST")
           } else {
            Table::row(2057227200, -36000, 3600, "HDT")
           }
          }
         }
        } else {
         if i < 142 {
          if i < 141 {
           Table::row(2077786800, -36000, 0, "HST")
          } else {
           Table::row(2088676800, -36000, 3600, "HDT")
          }
         } else {
          if i < 143 {
           Table::row(2109236400, -36000, 0, "HST")
          } else {
           if i < 144 {
            Table::row(2120126400, -36000, 3600, "HDT")
           } else {
            Table::row(2140686000, -36000, 0, "HST")
           }
          }
         }
        }
       }
      }
     }
    }
}

/// The rows of the table of the zone `America/Atka`.
pub open spec fn atka_rows() -> spec_fn(int) -> (i64, FixedTimespan) {
    |i: int| atka_row(i)
}

/// The table of the zone `America/Atka`.
pub open spec fn atka() -> Table {
    Table::listed(Table::row(0, 44002, 0, "LMT").1, 145, atka_rows())
}

/// Row `i` of the table of the zone `America/Bahia`.
pub open spec fn bahia_row(i: int) -> (i64, FixedTimespan) {
    if i < 31 {
     if i < 15 {
      if i < 7 {
       if i < 3 {
        if i < 1 {
         Table::row(-1767216356, -10800, 0, "-03")
        } else {
         if i < 2 {
          Table::row(-1206957600, -10800, 3600, "-02")
         } else {
          Table::row(-1191362400, -10800, 0, "-03")
         }
        }
       } else {
        if i < 5 {
         if i < 4 {
          Table::row(-1175374800, -10800, 3600, "-02")
         } else {
          Table::row(-1159826400, -10800, 0, "-03")
         }
        } else {
         if i < 6 {
          Table::row(-633819600, -10800, 3600, "-02")
         } else {
          Table::row(-622069200, -10800, 0, "-03")
         }
        }
       }
      } else {
       if i < 11 {
        if i < 9 {
         if i < 8 {
          Table::row(-602283600, -10800, 3600, "-02")
         } else {
          Table::row(-591832800, -10800, 0, "-03")
         }
        } else {
         if i < 10 {
          Table::row(-570747600, -10800, 3600, "-02")
         } else {
          Table::row(-560210400, -10800, 0, "-03")
         }
        }
       } else {
        if i < 13 {
         if i < 12 {
          Table::row(-539125200, -10800, 3600, "-02")
         } else {
          Table::row(-531352800, -10800, 0, "-03")
         }
        } else {
         if i < 14 {
          Table::row(-191365200, -10800, 3600, "-02")
         } else {
          Table::row(-184197600, -10800, 0, "-03")
         }
        }
       }
      }
     } else {
      if i < 23 {
       if i < 19 {
        if i < 17 {
         if i < 16 {
          Table::row(-155163600, -10800, 3600, "-02")
         } else {
          Table::row(-150069600, -10800, 0, "-03")
         }
        } else {
         if i < 18 {
          Table::row(-128898000, -10800, 3600, "-02")
         } else {
          Table::row(-121125600, -10800, 0, "-03")
         }
        }
       } else {
        if i < 21 {
         if i < 20 {
          Table::row(-99954000, -10800, 3600, "-02")
         } else {
          Table::row(-89589600, -10800, 0, "-03")
         }
        } else {
         if i < 22 {
          Table::row(-68418000, -10800, 3600, "-02")
         } else {
          Table::row(-57967200, -10800, 0, "-03")
         }
        }
       }
      } else {
       if i < 27 {
        if i < 25 {
         if i < 24 {
          Table::row(499748400, -10800, 3600, "-02")
         } else {
          Table::row(511236000, -10800, 0, "-03")
         }
        } else {
         if i < 26 {
          Table::row(530593200, -10800, 3600, "-02")
         } else {
          Table::row(540266400, -10800, 0, "-03")
         }
        }
       } else {
        if i < 29 {
         if i < 28 {
          Table::row(562129200, -10800, 3600, "-02")
         } else {
          Table::row(571197600, -10800, 0, "-03")
         }
        } else {
         if i < 30 {
          Table::row(592974000, -10800, 3600, "-02")
         } else {
          Table::row(602042400, -10800, 0, "-03")
         }
        }
       }
      }
     }
    } else {
     if i < 46 {
      if i < 38 {
       if i < 34 {
        if i < 32 {
         Table::row(624423600, -10800, 3600, "-02")
        } else {
         if i < 33 {
          Table::row(634701600, -10800, 0, "-03")
         } else {
          Table::row(656478000, -10800, 3600, "-02")
         }
        }
       } else {
        if i < 36 {
         if i < 35 {
          Table::row(666756000, -10800, 0, "-03")
         } else {
          Table::row(687927600, -10800, 3600, "-02")
         }
        } else {
         if i < 37 {
          Table::row(697600800, -10800, 0, "-03")
         } else {
          Table::row(719982000, -10800, 3600, "-02")
         }
        }
       }
      } else {
       if i < 42 {
        if i < 40 {
         if i < 39 {
          Table::row(728445600, -10800, 0, "-03")
         } else {
          Table::row(750826800, -10800, 3600, "-02")
         }
        } else {
         if i < 41 {
          Table::row(761709600, -10800, 0, "-03")
         } else {
          Table::row(782276400, -10800, 3600, "-02")
         }
        }
       } else {
        if i < 44 {
         if i < 43 {
          Table::row(793159200, -10800, 0, "-03")
         } else {
          Table::row(813726000, -10800, 3600, "-02")
         }
        } else {
         if i < 45 {
          Table::row(824004000, -10800, 0, "-03")
         } else {
          Table::row(844570800, -10800, 3600, "-02")
         }
        }
       }
      }
     } else {
      if i < 54 {
       if i < 50 {
        if i < 48 {
         if i < 47 {
          Table::row(856058400, -10800, 0, "-03")
         } else {
          Table::row(876106800, -10800, 3600, "-02")
         }
        } else {
         if i < 49 {
          Table::row(888717600, -10800, 0, "-03")
         } else {
          Table::row(908074800, -10800, 3600, "-02")
         }
        }
       } else {
        if i < 52 {
         if i < 51 {
          Table::row(919562400, -10800, 0, "-03")
         } else {
          Table::row(938919600, -10800, 3600, "-02")
         }
        } else {
         if i < 53 {
          Table::row(951616800, -10800, 0, "-03")
         } else {
          Table::row(970974000, -10800, 3600, "-02")
         }
        }
       }
      } else {
       if i < 58 {
        if i < 56 {
         if i < 55 {
          Table::row(982461600, -10800, 0, "-03")
         } else {
          Table::row(1003028400, -10800, 3600, "-02")
         }
        } else {
         if i < 57 {
          Table::row(1013911200, -10800, 0, "-03")
         } else {
          Table::row(1036292400, -10800, 3600, "-02")
         }
        }
       } else {
        if i < 60 {
         if i < 59 {
          Table::row(1045360800, -10800, 0, "-03")
         } else {
          Table::row(1318734000, -10800, 3600, "-02")
         }
        } else {
         if i < 61 {
          Table::row(1330221600, -10800, 0, "-03")
         } else {
          Table::row(2147483647, -10800, 0, "-03")
         }
        }
       }
      }
     }
    }
}

/// The rows of the table of the zone `America/Bahia`.
pub open spec fn bahia_rows() -> spec_fn(int) -> (i64, FixedTimespan) {
    |i: int| bahia_row(i)
}

/// The table of the zone `America/Bahia`.
pub open spec fn bahia() -> Table {
    Table::listed(Table::row(0, -9244, 0, "LMT").1, 62, bahia_rows())
}

/// Row `i` of the table of the zone `America/Bahia_Banderas`.
pub open spec fn bahia_banderas_row(i: int) -> (i64, FixedTimespan) {
    if i < 30 {
     if i < 15 {
      if i < 7 {
       if i < 3 {
        if i < 1 {
         Table::row(-1514739600, -25200, 0, "MST")
        } else {
         if i < 2 {
          Table::row(-1343149200, -21600, 0, "CST")
         } else {
          Table::row(-1234807200, -25200, 0, "MST")
         }
        }
       } else {
        if i < 5 {
         if i < 4 {
          Table::row(-1220461200, -25200, 3600, "MDT")
         } else {
          Table::row(-1207159200, -25200, 0, "MST")
         }
        } else {
         if i < 6 {
          Table::row(-1191344400, -21600, 0, "CST")
         } else {
          Table::row(-873828000, -25200, 0, "MST")
         }
        }
       }
      } else {
       if i < 11 {
        if i < 9 {
         if i < 8 {
          Table::row(828867600, -25200, 3600, "MDT")
         } else {
          Table::row(846403200, -25200, 0, "MST")
         }
        } else {
         if i < 10 {
          Table::row(860317200, -25200, 3600, "MDT")
         } else {
          Table::row(877852800, -25200, 0, "MST")
         }
        }
       } else {
        if i < 13 {
         if i < 12 {
          Table::row(891766800, -25200, 3600, "MDT")
         } else {
          Table::row(909302400, -25200, 0, "MST")
         }
        } else {
         if i < 14 {
          Table::row(923216400, -25200, 3600, "MDT")
         } else {
          Table::row(941356800, -25200, 0, "MST")
         }
        }
       }
      }
     } else {
      if i < 22 {
       if i < 18 {
        if i < 16 {
         Table::row(954666000, -25200, 3600, "MDT")
        } else {
         if i < 17 {
          Table::row(972806400, -25200, 0, "MST")
         } else {
          Table::row(989139600, -25200, 3600, "MDT")
         }
        }
       } else {
        if i < 20 {
         if i < 19 {
          Table::row(1001836800, -25200, 0, "MST")
         } else {
          Table::row(1018170000, -25200, 3600, "MDT")
         }
        } else {
         if i < 21 {
          Table::row(1035705600, -25200, 0, "MST")
         } else {
          Table::row(1049619600, -25200, 3600, "MDT")
         }
        }
       }
      } else {
       if i < 26 {
        if i < 24 {
         if i < 23 {
          Table::row(1067155200, -25200, 0, "MST")
         } else {
          Table::row(1081069200, -25200, 3600, "MDT")
         }
        } else {
         if i < 25 {
          Table::row(1099209600, -25200, 0, "MST")
         } else {
          Table::row(1112518800, -25200, 3600, "MDT")
         }
        }
       } else {
        if i < 28 {
         if i < 27 {
          Table::row(1130659200, -25200, 0, "MST")
         } else {
          Table::row(1143968400, -25200, 3600, "MDT")
         }
        } else {
         if i < 29 {
          Table::row(1162108800, -25200, 0, "MST")
         } else {
          Table::row(1175418000, -25200, 3600, "MDT")
         }
        }
       }
      }
     }
    } else {
     if i < 45 {
      if i < 37 {
       if i < 33 {
        if i < 31 {
         Table::row(1193558400, -25200, 0, "MST")
        } else {
         if i < 32 {
          Table::row(1207472400, -25200, 3600, "MDT")
         } else {
          Table::row(1225008000, -25200, 0, "MST")
         }
        }
       } else {
        if i < 35 {
         if i < 34 {
          Table::row(1238922000, -25200, 3600, "MDT")
         } else {
          Table::row(1256457600, -25200, 0, "MST")
         }
        } else {
         if i < 36 {
          Table::row(1270371600, -25200, 7200, "CDT")
         } else {
          Table::row(1288508400, -21600, 0, "CST")
         }
        }
       }
      } else {
       if i < 41 {
        if i < 39 {
         if i < 38 {
          Table::row(1301817600, -21600, 3600, "CDT")
         } else {
          Table::row(1319958000, -21600, 0, "CST")
         }
        } else {
         if i < 40 {
          Table::row(1333267200, -21600, 3600, "CDT")
         } else {
          Table::row(1351407600, -21600, 0, "CST")
         }
        }
       } else {
        if i < 43 {
         if i < 42 {
          Table::row(1365321600, -21600, 3600, "CDT")
         } else {
          Table::row(1382857200, -21600, 0, "CST")
         }
        } else {
         if i < 44 {
          Table::row(1396771200, -21600, 3600, "CDT")
         } else {
          Table::row(1414306800, -21600, 0, "CST")
         }
        }
       }
      }
     } else {
      if i < 53 {
       if i < 49 {
        if i < 47 {
         if i < 46 {
          Table::row(1428220800, -21600, 3600, "CDT")
         } else {
          Table::row(1445756400, -21600, 0, "CST")
         }
        } else {
         if i < 48 {
          Table::row(1459670400, -21600, 3600, "CDT")
         } else {
          Table::row(1477810800, -21600, 0, "CST")
         }
        }
       } else {
        if i < 51 {
         if i < 50 {
          Table::row(1491120000, -21600, 3600, "CDT")
         } else {
          Table::row(1509260400, -21600, 0, "CST")
         }
        } else {
         if i < 52 {
          Table::row(1522569600, -21600, 3600, "CDT")
         } else {
          Table::row(1540710000, -21600, 0, "CST")
         }
        }
       }
      } else {
       if i < 57 {
        if i < 55 {
         if i < 54 {
          Table::row(1554624000, -21600, 3600, "CDT")
         } else {
          Table::row(1572159600, -21600, 0, "CST")
         }
        } else {
         if i < 56 {
          Table::row(1586073600, -21600, 3600, "CDT")
         } else {
          Table::row(1603609200, -21600, 0, "CST")
         }
        }
       } else {
        if i < 59 {
         if i < 58 {
          Table::row(1617523200, -21600, 3600, "CDT")
         } else {
          Table::row(1635663600, -21600, 0, "CST")
         }
        } else {
         if i < 60 {
          Table::row(1648972800, -21600, 3600, "CDT")
         } else {
          Table::row(1667113200, -21600, 0, "CST")
         }
        }
       }
      }
     }
    }
}

/// The rows of the table of the zone `America/Bahia_Banderas`.
pub open spec fn bahia_banderas_rows() -> spec_fn(int) -> (i64, FixedTimespan) {
    |i: int| bahia_banderas_row(i)
}

/// The table of the zone `America/Bahia_Banderas`.
pub open spec fn bahia_banderas() -> Table {
    Table::listed(Table::row(0, -25260, 0, "LMT").1, 61, bahia_banderas_rows())
}

/// Row `i` of the table of the zone `America/Barbados`.
pub open spec fn barbados_row(i: int) -> (i64, FixedTimespan) {
    if i < 7 {
     if i < 3 {
      if i < 1 {
       Table::row(-1841256091, -14400, 0, "AST")
      } else {
       if i < 2 {
        Table::row(-874263600, -14400, 3600, "ADT")
       } else {
        Table::row(-862682400, -14400, 0, "AST")
       }
      }
     } else {
      if i < 5 {
       if i < 4 {
        Table::row(-841604400, -14400, 3600, "ADT")
       } else {
        Table::row(-830714400, -14400, 0, "AST")
       }
      } else {
       if i < 6 {
        Table::row(-811882800, -14400, 1800, "-0330")
       } else {
        Table::row(-798660000, -14400, 0, "AST")
       }
      }
     }
    } else {
     if i < 11 {
      if i < 9 {
       if i < 8 {
        Table::row(234943200, -14400, 3600, "ADT")
       } else {
        Table::row(244616400, -14400, 0, "AST")
       }
      } else {
       if i < 10 {
        Table::row(261554400, -14400, 3600, "ADT")
       } else {
        Table::row(276066000, -14400, 0, "AST")
       }
      }
     } else {
      if i < 13 {
       if i < 12 {
        Table::row(293004000, -14400, 3600, "ADT")
       } else {
        Table::row(307515600, -14400, 0, "AST")
       }
      } else {
       if i < 14 {
        Table::row(325058400, -14400, 3600, "ADT")
       } else {
        Table::row(338706000, -14400, 0, "AST")
       }
      }
     }
    }
}

/// The rows of the table of the zone `America/Barbados`.
pub open spec fn barbados_rows() -> spec_fn(int) -> (i64, FixedTimespan) {
    |i: int| barbados_row(i)
}

/// The table of the zone `America/Barbados`.
pub open spec fn barbados() -> Table {
    Table::listed(Table::row(0, -14309, 0, "LMT").1, 15, barbados_rows())
}

/// Row `i` of the table of the zone `America/Belem`.
pub open spec fn belem_row(i: int) -> (i64, FixedTimespan) {
    if i < 15 {
     if i < 7 {
      if i < 3 {
       if i < 1 {
        Table::row(-1767213964, -10800, 0, "-03")
       } else {
        if i < 2 {
         Table::row(-1206957600, -10800, 3600, "-02")
        } else {
         Table::row(-1191362400, -10800, 0, "-03")
        }
       }
      } else {
       if i < 5 {
        if i < 4 {
         Table::row(-1175374800, -10800, 3600, "-02")
        } else {
         Table::row(-1159826400, -10800, 0, "-03")
        }
       } else {
        if i < 6 {
         Table::row(-633819600, -10800, 3600, "-02")
        } else {
         Table::row(-622069200, -10800, 0, "-03")
        }
       }
      }
     } else {
      if i < 11 {
       if i < 9 {
        if i < 8 {
         Table::row(-602283600, -10800, 3600, "-02")
        } else {
         Table::row(-591832800, -10800, 0, "-03")
        }
       } else {
        if i < 10 {
         Table::row(-570747600, -10800, 3600, "-02")
        } else {
         Table::row(-560210400, -10800, 0, "-03")
        }
       }
      } else {
       if i < 13 {
        if i < 12 {
         Table::row(-539125200, -10800, 3600, "-02")
        } else {
         Table::row(-531352800, -10800, 0, "-03")
        }
       } else {
        if i < 14 {
         Table::row(-191365200, -10800, 3600, "-02")
        } else {
         Table::row(-184197600, -10800, 0, "-03")
        }
       }
      }
     }
    } else {
     if i < 22 {
      if i < 18 {
       if i < 16 {
        Table::row(-155163600, -10800, 3600, "-02")
       } else {
        if i < 17 {
         Table::row(-150069600, -10800, 0, "-03")
        } else {
         Table::row(-128898000, -10800, 3600, "-02")
        }
       }
      } else {
       if i < 20 {
        if i < 19 {
         Table::row(-121125600, -10800, 0, "-03")
        } else {
         Table::row(-99954000, -10800, 3600, "-02")
        }
       } else {
        if i < 21 {
         Table::row(-89589600, -10800, 0, "-03")
        } else {
         Table::row(-68418000, -10800, 3600, "-02")
        }
       }
      }
     } else {
      if i < 26 {
       if i < 24 {
        if i < 23 {
         Table::row(-57967200, -10800, 0, "-03")
        } else {
         Table::row(499748400, -10800, 3600, "-02")
        }
       } else {
        if i < 25 {
         Table::row(511236000, -10800, 0, "-03")
        } else {
         Table::row(530593200, -10800, 3600, "-02")
        }
       }
      } else {
       if i < 28 {
        if i < 27 {
         Table::row(540266400, -10800, 0, "-03")
        } else {
         Table::row(562129200, -10800, 3600, "-02")
        }
       } else {
        if i < 29 {
         Table::row(571197600, -10800, 0, "-03")
        } else {
         Table::row(2147483647, -10800, 0, "-03")
        }
       }
      }
     }
    }
}

/// The rows of the table of the zone `America/Belem`.
pub open spec fn belem_rows() -> spec_fn(int) -> (i64, FixedTimespan) {
    |i: int| belem_row(i)
}

/// The table of the zone `America/Belem`.
pub open spec fn belem() -> Table {
    Table::listed(Table::row(0, -11636, 0, "LMT").1, 30, belem_rows())
}

/// Row `i` of the table of the zone `America/Belize`.
pub open spec fn belize_row(i: int) -> (i64, FixedTimespan) {
    if i < 49 {
     if i < 24 {
      if i < 12 {
       if i < 6 {
        if i < 3 {
         if i < 1 {
          Table::row(-1822500432, -21600, 0, "CST")
         } else {
          if i < 2 {
           Table::row(-1616954400, -21600, 1800, "-0530")
          } else {
           Table::row(-1606069800, -21600, 0, "CST")
          }
         }
        } else {
         if i < 4 {
          Table::row(-1585504800, -21600, 1800, "-0530")
         } else {
          if i < 5 {
           Table::row(-1574015400, -21600, 0, "CST")
          } else {
           Table::row(-1554055200, -21600, 1800, "-0530")
          }
         }
        }
       } else {
        if i < 9 {
         if i < 7 {
          Table::row(-1542565800, -21600, 0, "CST")
         } else {
          if i < 8 {
           Table::row(-1522605600, -21600, 1800, "-0530")
          } else {
           Table::row(-1511116200, -21600, 0, "CST")
          }
         }
        } else {
         if i < 10 {
          Table::row(-1490551200, -21600, 1800, "-0530")
         } else {
          if i < 11 {
           Table::row(-1479666600, -21600, 0, "CST")
          } else {
           Table::row(-1459101600, -21600, 1800, "-0530")
          }
         }
        }
       }
      } else {
       if i < 18 {
        if i < 15 {
         if i < 13 {
          Table::row(-1448217000, -21600, 0, "CST")
         } else {
          if i < 14 {
           Table::row(-1427652000, -21600, 1800, "-0530")
          } else {
           Table::row(-1416162600, -21600, 0, "CST")
          }
         }
        } else {
         if i < 16 {
          Table::row(-1396202400, -21600, 1800, "-0530")
         } else {
          if i < 17 {
           Table::row(-1384713000, -21600, 0, "CST")
          } else {
           Table::row(-1364752800, -21600, 1800, "-0530")
          }
         }
        }
       } else {
        if i < 21 {
         if i < 19 {
          Table::row(-1353263400, -21600, 0, "CST")
         } else {
          if i < 20 {
           Table::row(-1333303200, -21600, 1800, "-0530")
          } else {
           Table::row(-1321813800, -21600, 0, "CST")
          }
         }
        } else {
         if i < 22 {
          Table::row(-1301248800, -21600, 1800, "-0530")
         } else {
          if i < 23 {
           Table::row(-1290364200, -21600, 0, "CST")
          } else {
           Table::row(-1269799200, -21600, 1800, "-0530")
          }
         }
        }
       }
      }
     } else {
      if i < 36 {
       if i < 30 {
        if i < 27 {
         if i < 25 {
          Table::row(-1258914600, -21600, 0, "CST")
         } else {
          if i < 26 {
           Table::row(-1238349600, -21600, 1800, "-0530")
          } else {
           Table::row(-1226860200, -21600, 0, "CST")
          }
         }
        } else {
         if i < 28 {
          Table::row(-1206900000, -21600, 1800, "-0530")
         } else {
          if i < 29 {
           Table::row(-1195410600, -21600, 0, "CST")
          } else {
           Table::row(-1175450400, -21600, 1800, "-0530")
          }
         }
        }
       } else {
        if i < 33 {
         if i < 31 {
          Table::row(-1163961000, -21600, 0, "CST")
         } else {
          if i < 32 {
           Table::row(-1143396000, -21600, 1800, "-0530")
          } else {
           Table::row(-1132511400, -21600, 0, "CST")
          }
         }
        } else {
         if i < 34 {
          Table::row(-1111946400, -21600, 1800, "-0530")
         } else {
          if i < 35 {
           Table::row(-1101061800, -21600, 0, "CST")
          } else {
           Table::row(-1080496800, -21600, 1800, "-0530")
          }
         }
        }
       }
      } else {
       if i < 42 {
        if i < 39 {
         if i < 37 {
          Table::row(-1069612200, -21600, 0, "CST")
         } else {
          if i < 38 {
           Table::row(-1049047200, -21600, 1800, "-0530")
          } else {
           Table::row(-1037557800, -21600, 0, "CST")
          }
         }
        } else {
         if i < 40 {
          Table::row(-1017597600, -21600, 1800, "-0530")
         } else {
          if i < 41 {
           Table::row(-1006108200, -21600, 0, "CST")
          } else {
           Table::row(-986148000, -21600, 1800, "-0530")
          }
         }
        }
       } else {
        if i < 45 {
         if i < 43 {
          Table::row(-974658600, -21600, 0, "CST")
         } else {
          if i < 44 {
           Table::row(-954093600, -21600, 1800, "-0530")
          } else {
           Table::row(-943209000, -21600, 0, "CST")
          }
         }
        } else {
         if i < 47 {
          if i < 46 {
           Table::row(-922644000, -21600, 1800, "-0530")
          } else {
           Table::row(-911759400, -21600, 0, "CST")
          }
         } else {
          if i < 48 {
           Table::row(-891194400, -21600, 1800, "-0530")
          } else {
           Table::row(-879705000, -21600, 0, "CST")
          }
         }
        }
       }
      }
     }
    } else {
     if i < 73 {
      if i < 61 {
       if i < 55 {
        if i < 52 {
         if i < 50 {
          Table::row(-868212000, -21600, 3600, "CWT")
         } else {
          if i < 51 {
           Table::row(-769395600, -21600, 3600, "CPT")
          } else {
           Table::row(-758746800, -21600, 0, "CST")
          }
         }
        } else {
         if i < 53 {
          Table::row(-701892000, -21600, 1800, "-0530")
         } else {
          if i < 54 {
           Table::row(-690402600, -21600, 0, "CST")
          } else {
           Table::row(-670442400, -21600, 1800, "-0530")
          }
         }
        }
       } else {
        if i < 58 {
         if i < 56 {
          Table::row(-658953000, -21600, 0, "CST")
         } else {
          if i < 57 {
           Table::row(-638992800, -21600, 1800, "-0530")
          } else {
           Table::row(-627503400, -21600, 0, "CST")
          }
         }
        } else {
         if i < 59 {
          Table::row(-606938400, -21600, 1800, "-0530")
         } else {
          if i < 60 {
           Table::row(-596053800, -21600, 0, "CST")
          } else {
           Table::row(-575488800, -21600, 1800, "-0530")
          }
         }
        }
       }
      } else {
       if i < 67 {
        if i < 64 {
         if i < 62 {
          Table::row(-564604200, -21600, 0, "CST")
         } else {
          if i < 63 {
           Table::row(-544039200, -21600, 1800, "-0530")
          } else {
           Table::row(-532549800, -21600, 0, "CST")
          }
         }
        } else {
         if i < 65 {
          Table::row(-512589600, -21600, 1800, "-0530")
         } else {
          if i < 66 {
           Table::row(-501100200, -21600, 0, "CST")
          } else {
           Table::row(-481140000, -21600, 1800, "-0530")
          }
         }
        }
       } else {
        if i < 70 {
         if i < 68 {
          Table::row(-469650600, -21600, 0, "CST")
         } else {
          if i < 69 {
           Table::row(-449690400, -21600, 1800, "-0530")
          } else {
           Table::row(-438201000, -21600, 0, "CST")
          }
         }
        } else {
         if i < 71 {
          Table::row(-417636000, -21600, 1800, "-0530")
         } else {
          if i < 72 {
           Table::row(-406751400, -21600, 0, "CST")
          } else {
           Table::row(-386186400, -21600, 1800, "-0530")
          }
         }
        }
       }
      }
     } else {
      if i < 85 {
       if i < 79 {
        if i < 76 {
         if i < 74 {
          Table::row(-375301800, -21600, 0, "CST")
         } else {
          if i < 75 {
           Table::row(-354736800, -21600, 1800, "-0530")
          } else {
           Table::row(-343247400, -21600, 0, "CST")
          }
         }
        } else {
         if i < 77 {
          Table::row(-323287200, -21600, 1800, "-0530")
         } else {
          if i < 78 {
           Table::row(-311797800, -21600, 0, "CST")
          } else {
           Table::row(-291837600, -21600, 1800, "-0530")
          }
         }
        }
       } else {
        if i < 82 {
         if i < 80 {
          Table::row(-280348200, -21600, 0, "CST")
         } else {
          if i < 81 {
           Table::row(-259783200, -21600, 1800, "-0530")
          } else {
           Table::row(-248898600, -21600, 0, "CST")
          }
         }
        } else {
         if i < 83 {
          Table::row(-228333600, -21600, 1800, "-0530")
         } else {
          if i < 84 {
           Table::row(-217449000, -21600, 0, "CST")
          } else {
           Table::row(-196884000, -21600, 1800, "-0530")
          }
         }
        }
       }
      } else {
       if i < 91 {
        if i < 88 {
         if i < 86 {
          Table::row(-185999400, -21600, 0, "CST")
         } else {
          if i < 87 {
           Table::row(-165434400, -21600, 1800, "-0530")
          } else {
           Table::row(-153945000, -21600, 0, "CST")
          }
         }
        } else {
         if i < 89 {
          Table::row(-133984800, -21600, 1800, "-0530")
         } else {
          if i < 90 {
           Table::row(-122495400, -21600, 0, "CST")
          } else {
           Table::row(-102535200, -21600, 1800, "-0530")
          }
         }
        }
       } else {
        if i < 94 {
         if i < 92 {
          Table::row(-91045800, -21600, 0, "CST")
         } else {
          if i < 93 {
           Table::row(-70480800, -21600, 1800, "-0530")
          } else {
           Table::row(-59596200, -21600, 0, "CST")
          }
         }
        } else {
         if i < 96 {
          if i < 95 {
           Table::row(123919200, -21600, 3600, "CDT")
          } else {
           Table::row(129618000, -21600, 0, "CST")
          }
         } else {
          if i < 97 {
           Table::row(409039200, -21600, 3600, "CDT")
          } else {
           Table::row(413874000, -21600, 0, "CST")
          }
         }
        }
       }
      }
     }
    }
}

/// The rows of the table of the zone `America/Belize`.
pub open spec fn belize_rows() -> spec_fn(int) -> (i64, FixedTimespan) {
    |i: int| belize_row(i)
}

/// The table of the zone `America/Belize`.
pub open spec fn belize() -> Table {
    Table::listed(Table::row(0, -21168, 0, "LMT").1, 98, belize_rows())
}

/// Row `i` of the table of the zone `America/Blanc-Sablon`.
pub open spec fn blanc_sablon_row(i: int) -> (i64, FixedTimespan) {
    if i < 3 {
     if i < 1 {
      Table::row(-2713896692, -14400, 0, "AST")
     } else {
      if i < 2 {
       Table::row(-1632074400, -14400, 3600, "ADT")
      } else {
       Table::row(-1615143600, -14400, 0, "AST")
      }
     }
    } else {
     if i < 4 {
      Table::row(-880221600, -14400, 3600, "AWT")
     } else {
      if i < 5 {
       Table::row(-769395600, -14400, 3600, "APT")
      } else {
       Table::row(-765399600, -14400, 0, "AST")
      }
     }
    }
}

/// The rows of the table of the zone `America/Blanc-Sablon`.
pub open spec fn blanc_sablon_rows() -> spec_fn(int) -> (i64, FixedTimespan) {
    |i: int| blanc_sablon_row(i)
}

/// The table of the zone `America/Blanc-Sablon`.
pub open spec fn blanc_sablon() -> Table {
    Table::listed(Table::row(0, -13708, 0, "LMT").1, 6, blanc_sablon_rows())
}

/// Row `i` of the table of the zone `America/Boa_Vista`.
pub open spec fn boa_vista_row(i: int) -> (i64, FixedTimespan) {
    if i < 17 {
     if i < 8 {
      if i < 4 {
       if i < 2 {
        if i < 1 {
         Table::row(-1767211040, -14400, 0, "-04")
        } else {
         Table::row(-1206954000, -14400, 3600, "-03")
        }
       } else {
        if i < 3 {
         Table::row(-1191358800, -14400, 0, "-04")
        } else {
         Table::row(-1175371200, -14400, 3600, "-03")
        }
       }
      } else {
       if i < 6 {
        if i < 5 {
         Table::row(-1159822800, -14400, 0, "-04")
        } else {
         Table::row(-633816000, -14400, 3600, "-03")
        }
       } else {
        if i < 7 {
         Table::row(-622065600, -14400, 0, "-04")
        } else {
         Table::row(-602280000, -14400, 3600, "-03")
        }
       }
      }
     } else {
      if i < 12 {
       if i < 10 {
        if i < 9 {
         Table::row(-591829200, -14400, 0, "-04")
        } else {
         Table::row(-570744000, -14400, 3600, "-03")
        }
       } else {
        if i < 11 {
         Table::row(-560206800, -14400, 0, "-04")
        } else {
         Table::row(-539121600, -14400, 3600, "-03")
        }
       }
      } else {
       if i < 14 {
        if i < 13 {
         Table::row(-531349200, -14400, 0, "-04")
        } else {
         Table::row(-191361600, -14400, 3600, "-03")
        }
       } else {
        if i < 15 {
         Table::row(-184194000, -14400, 0, "-04")
        } else {
         if i < 16 {
          Table::row(-155160000, -14400, 3600, "-03")
         } else {
          Table::row(-150066000, -14400, 0, "-04")
         }
        }
       }
      }
     }
    } else {
     if i < 25 {
      if i < 21 {
       if i < 19 {
        if i < 18 {
         Table::row(-128894400, -14400, 3600, "-03")
        } else {
         Table::row(-121122000, -14400, 0, "-04")
        }
       } else {
        if i < 20 {
         Table::row(-99950400, -14400, 3600, "-03")
        } else {
         Table::row(-89586000, -14400, 0, "-04")
        }
       }
      } else {
       if i < 23 {
        if i < 22 {
         Table::row(-68414400, -14400, 3600, "-03")
        } else {
         Table::row(-57963600, -14400, 0, "-04")
        }
       } else {
        if i < 24 {
         Table::row(499752000, -14400, 3600, "-03")
        } else {
         Table::row(511239600, -14400, 0, "-04")
        }
       }
      }
     } else {
      if i < 29 {
       if i < 27 {
        if i < 26 {
         Table::row(530596800, -14400, 3600, "-03")
        } else {
         Table::row(540270000, -14400, 0, "-04")
        }
       } else {
        if i < 28 {
         Table::row(562132800, -14400, 3600, "-03")
        } else {
         Table::row(571201200, -14400, 0, "-04")
        }
       }
      } else {
       if i < 31 {
        if i < 30 {
         Table::row(938923200, -14400, 3600, "-03")
        } else {
         Table::row(951620400, -14400, 0, "-04")
        }
       } else {
        if i < 32 {
         Table::row(970977600, -14400, 3600, "-03")
        } else {
         if i < 33 {
          Table::row(971578800, -14400, 0, "-04")
         } else {
          Table::row(2147483647, -14400, 0, "-04")
         }
        }
       }
      }
     }
    }
}

/// The rows of the table of the zone `America/Boa_Vista`.
pub open spec fn boa_vista_rows() -> spec_fn(int) -> (i64, FixedTimespan) {
    |i: int| boa_vista_row(i)
}

/// The table of the zone `America/Boa_Vista`.
pub open spec fn boa_vista() -> Table {
    Table::listed(Table::row(0, -14560, 0, "LMT").1, 34, boa_vista_rows())
}

/// Row `i` of the table of the zone `America/Bogota`.
pub open spec fn bogota_row(i: int) -> (i64, FixedTimespan) {
    if i < 2 {
     if i < 1 {
      Table::row(-2707671824, -17776, 0, "BMT")
     } else {
      Table::row(-1739041424, -18000, 0, "-05")
     }
    } else {
     if i < 3 {
      Table::row(704869200, -18000, 3600, "-04")
     } else {
      if i < 4 {
       Table::row(729057600, -18000, 0, "-05")
      } else {
       Table::row(2147483647, -18000, 0, "-05")
      }
     }
    }
}

/// The rows of the table of the zone `America/Bogota`.
pub open spec fn bogota_rows() -> spec_fn(int) -> (i64, FixedTimespan) {
    |i: int| bogota_row(i)
}

/// The table of the zone `America/Bogota`.
pub open spec fn bogota() -> Table {
    Table::listed(Table::row(0, -17776, 0, "LMT").1, 5, bogota_rows())
}

/// Row `i` of the table of the zone `America/Boise`.
pub open spec fn boise_row(i: int) -> (i64, FixedTimespan) {
    if i < 75 {
     if i < 37 {
      if i < 18 {
       if i < 9 {
        if i < 4 {
         if i < 2 {
          if i < 1 {
           Table::row(-2717640000, -28800, 0, "PST")
          } else {
           Table::row(-1633269600, -28800, 3600, "PDT")
          }
         } else {
          if i < 3 {
           Table::row(-1615129200, -28800, 0, "PST")
          } else {
           Table::row(-1601820000, -28800, 3600, "PDT")
          }
         }
        } else {
         if i < 6 {
          if i < 5 {
           Table::row(-1583679600, -28800, 0, "PST")
          } else {
           Table::row(-1471788000, -25200, 0, "MST")
          }
         } else {
          if i < 7 {
           Table::row(-880210800, -25200, 3600, "MWT")
          } else {
           if i < 8 {
            Table::row(-769395600, -25200, 3600, "MPT")
           } else {
            Table::row(-765388800, -25200, 0, "MST")
           }
          }
         }
        }
       } else {
        if i < 13 {
         if i < 11 {
          if i < 10 {
           Table::row(-84380400, -25200, 3600, "MDT")
          } else {
           Table::row(-68659200, -25200, 0, "MST")
          }
         } else {
          if i < 12 {
           Table::row(-52930800, -25200, 3600, "MDT")
          } else {
           Table::row(-37209600, -25200, 0, "MST")
          }
         }
        } else {
         if i < 15 {
          if i < 14 {
           Table::row(-21481200, -25200, 3600, "MDT")
          } else {
           Table::row(-5760000, -25200, 0, "MST")
          }
         } else {
          if i < 16 {
           Table::row(9968400, -25200, 3600, "MDT")
          } else {
           if i < 17 {
            Table::row(25689600, -25200, 0, "MST")
           } else {
            Table::row(41418000, -25200, 3600, "MDT")
           }
          }
         }
        }
       }
      } else {
       if i < 27 {
        if i < 22 {
         if i < 20 {
          if i < 19 {
           Table::row(57744000, -25200, 0, "MST")
          } else {
           Table::row(73472400, -25200, 3600, "MDT")
          }
         } else {
          if i < 21 {
           Table::row(89193600, -25200, 0, "MST")
          } else {
           Table::row(104922000, -25200, 3600, "MDT")
          }
         }
        } else {
         if i < 24 {
          if i < 23 {
           Table::row(120643200, -25200, 0, "MST")
          } else {
           Table::row(129114000, -25200, 3600, "MDT")
          }
         } else {
          if i < 25 {
           Table::row(152092800, -25200, 0, "MST")
          } else {
           if i < 26 {
            Table::row(162378000, -25200, 3600, "MDT")
           } else {
            Table::row(183542400, -25200, 0, "MST")
           }
          }
         }
        }
       } else {
        if i < 32 {
         if i < 29 {
          if i < 28 {
           Table::row(199270800, -25200, 3600, "MDT")
          } else {
           Table::row(215596800, -25200, 0, "MST")
          }
         } else {
          if i < 30 {
           Table::row(230720400, -25200, 3600, "MDT")
          } else {
           if i < 31 {
            Table::row(247046400, -25200, 0, "MST")
           } else {
            Table::row(262774800, -25200, 3600, "MDT")
           }
          }
         }
        } else {
         if i < 34 {
          if i < 33 {
           Table::row(278496000, -25200, 0, "MST")
          } else {
           Table::row(294224400, -25200, 3600, "MDT")
          }
         } else {
          if i < 35 {
           Table::row(309945600, -25200, 0, "MST")
          } else {
           if i < 36 {
            Table::row(325674000, -25200, 3600, "MDT")
           } else {
            Table::row(341395200, -25200, 0, "MST")
           }
          }
         }
        }
       }
      }
     } else {
      if i < 56 {
       if i < 46 {
        if i < 41 {
         if i < 39 {
          if i < 38 {
           Table::row(357123600, -25200, 3600, "MDT")
          } else {
           Table::row(372844800, -25200, 0, "MST")
          }
         } else {
          if i < 40 {
           Table::row(388573200, -25200, 3600, "MDT")
          } else {
           Table::row(404899200, -25200, 0, "MST")
          }
         }
        } else {
         if i < 43 {
          if i < 42 {
           Table::row(420022800, -25200, 3600, "MDT")
          } else {
           Table::row(436348800, -25200, 0, "MST")
          }
         } else {
          if i < 44 {
           Table::row(452077200, -25200, 3600, "MDT")
          } else {
           if i < 45 {
            Table::row(467798400, -25200, 0, "MST")
           } else {
            Table::row(483526800, -25200, 3600, "MDT")
           }
          }
         }
        }
       } else {
        if i < 51 {
         if i < 48 {
          if i < 47 {
           Table::row(499248000, -25200, 0, "MST")
          } else {
           Table::row(514976400, -25200, 3600, "MDT")
          }
         } else {
          if i < 49 {
           Table::row(530697600, -25200, 0, "MST")
          } else {
           if i < 50 {
            Table::row(544611600, -25200, 3600, "MDT")
           } else {
            Table::row(562147200, -25200, 0, "MST")
           }
          }
         }
        } else {
         if i < 53 {
          if i < 52 {
           Table::row(576061200, -25200, 3600, "MDT")
          } else {
           Table::row(594201600, -25200, 0, "MST")
          }
         } else {
          if i < 54 {
           Table::row(607510800, -25200, 3600, "MDT")
          } else {
           if i < 55 {
            Table::row(625651200, -25200, 0, "MST")
           } else {
            Table::row(638960400, -25200, 3600, "MDT")
           }
          }
         }
        }
       }
      } else {
       if i < 65 {
        if i < 60 {
         if i < 58 {
          if i < 57 {
           Table::row(657100800, -25200, 0, "MST")
          } else {
           Table::row(671014800, -25200, 3600, "MDT")
          }
         } else {
          if i < 59 {
           Table::row(688550400, -25200, 0, "MST")
          } else {
           Table::row(702464400, -25200, 3600, "MDT")
          }
         }
        } else {
         if i < 62 {
          if i < 61 {
           Table::row(720000000, -25200, 0, "MST")
          } else {
           Table::row(733914000, -25200, 3600, "MDT")
          }
         } else {
          if i < 63 {
           Table::row(752054400, -25200, 0, "MST")
          } else {
           if i < 64 {
            Table::row(765363600, -25200, 3600, "MDT")
           } else {
            Table::row(783504000, -25200, 0, "MST")
           }
          }
         }
        }
       } else {
        if i < 70 {
         if i < 67 {
          if i < 66 {
           Table::row(796813200, -25200, 3600, "MDT")
          } else {
           Table::row(814953600, -25200, 0, "MST")
          }
         } else {
          if i < 68 {
           Table::row(828867600, -25200, 3600, "MDT")
          } else {
           if i < 69 {
            Table::row(846403200, -25200, 0, "MST")
           } else {
            Table::row(860317200, -25200, 3600, "MDT")
           }
          }
         }
        } else {
         if i < 72 {
          if i < 71 {
           Table::row(877852800, -25200, 0, "MST")
          } else {
           Table::row(891766800, -25200, 3600, "MDT")
          }
         } else {
          if i < 73 {
           Table::row(909302400, -25200, 0, "MST")
          } else {
           if i < 74 {
            Table::row(923216400, -25200, 3600, "MDT")
           } else {
            Table::row(941356800, -25200, 0, "MST")
           }
          }
         }
        }
       }
      }
     }
    } else {
     if i < 113 {
      if i < 94 {
       if i < 84 {
        if i < 79 {
         if i < 77 {
          if i < 76 {
           Table::row(954666000, -25200, 3600, "MDT")
          } else {
           Table::row(972806400, -25200, 0, "MST")
          }
         } else {
          if i < 78 {
           Table::row(986115600, -25200, 3600, "MDT")
          } else {
           Table::row(1004256000, -25200, 0, "MST")
          }
         }
        } else {
         if i < 81 {
          if i < 80 {
           Table::row(1018170000, -25200, 3600, "MDT")
          } else {
           Table::row(1035705600, -25200, 0, "MST")
          }
         } else {
          if i < 82 {
           Table::row(1049619600, -25200, 3600, "MDT")
          } else {
           if i < 83 {
            Table::row(1067155200, -25200, 0, "MST")
           } else {
            Table::row(1081069200, -25200, 3600, "MDT")
           }
          }
         }
        }
       } else {
        if i < 89 {
         if i < 86 {
          if i < 85 {
           Table::row(1099209600, -25200, 0, "MST")
          } else {
           Table::row(1112518800, -25200, 3600, "MDT")
          }
         } else {
          if i < 87 {
           Table::row(1130659200, -25200, 0, "MST")
          } else {
           if i < 88 {
            Table::row(1143968400, -25200, 3600, "MDT")
           } else {
            Table::row(1162108800, -25200, 0, "MST")
           }
          }
         }
        } else {
         if i < 91 {
          if i < 90 {
           Table::row(1173603600, -25200, 3600, "MDT")
          } else {
           Table::row(1194163200, -25200, 0, "MST")
          }
         } else {
          if i < 92 {
           Table::row(1205053200, -25200, 3600, "MDT")
          } else {
           if i < 93 {
            Table::row(1225612800, -25200, 0, "MST")
           } else {
            Table::row(1236502800, -25200, 3600, "MDT")
           }
          }
         }
        }
       }
      } else {
       if i < 103 {
        if i < 98 {
         if i < 96 {
          if i < 95 {
           Table::row(1257062400, -25200, 0, "MST")
          } else {
           Table::row(1268557200, -25200, 3600, "MDT")
          }
         } else {
          if i < 97 {
           Table::row(1289116800, -25200, 0, "MST")
          } else {
           Table::row(1300006800, -25200, 3600, "MDT")
          }
         }
        } else {
         if i < 100 {
          if i < 99 {
           Table::row(1320566400, -25200, 0, "MST")
          } else {
           Table::row(1331456400, -25200, 3600, "MDT")
          }
         } else {
          if i < 101 {
           Table::row(1352016000, -25200, 0, "MST")
          } else {
           if i < 102 {
            Table::row(1362906000, -25200, 3600, "MDT")
           } else {
            Table::row(1383465600, -25200, 0, "MST")
           }
          }
         }
        }
       } else {
        if i < 108 {
         if i < 105 {
          if i < 104 {
           Table::row(1394355600, -25200, 3600, "MDT")
          } else {
           Table::row(1414915200, -25200, 0, "MST")
          }
         } else {
          if i < 106 {
           Table::row(1425805200, -25200, 3600, "MDT")
          } else {
           if i < 107 {
            Table::row(1446364800, -25200, 0, "MST")
           } else {
            Table::row(1457859600, -25200, 3600, "MDT")
           }
          }
         }
        } else {
         if i < 110 {
          if i < 109 {
           Table::row(1478419200, -25200, 0, "MST")
          } else {
           Table::row(1489309200, -25200, 3600, "MDT")
          }
         } else {
          if i < 111 {
           Table::row(1509868800, -25200, 0, "MST")
          } else {
           if i < 112 {
            Table::row(1520758800, -25200, 3600, "MDT")
           } else {
            Table::row(1541318400, -25200, 0, "MST")
           }
          }
         }
        }
       }
      }
     } else {
      if i < 132 {
       if i < 122 {
        if i < 117 {
         if i < 115 {
          if i < 114 {
           Table::row(1552208400, -25200, 3600, "MDT")
          } else {
           Table::row(1572768000, -25200, 0, "MST")
          }
         } else {
          if i < 116 {
           Table::row(1583658000, -25200, 3600, "MDT")
          } else {
           Table::row(1604217600, -25200, 0, "MST")
          }
         }
        } else {
         if i < 119 {
          if i < 118 {
           Table::row(1615712400, -25200, 3600, "MDT")
          } else {
           Table::row(1636272000, -25200, 0, "MST")
          }
         } else {
          if i < 120 {
           Table::row(1647162000, -25200, 3600, "MDT")
          } else {
           if i < 121 {
            Table::row(1667721600, -25200, 0, "MST")
           } else {
            Table::row(1678611600, -25200, 3600, "MDT")
           }
          }
         }
        }
       } else {
        if i < 127 {
         if i < 124 {
          if i < 123 {
           Table::row(1699171200, -25200, 0, "MST")
          } else {
           Table::row(1710061200, -25200, 3600, "MDT")
          }
         } else {
          if i < 125 {
           Table::row(1730620800, -25200, 0, "MST")
          } else {
           if i < 126 {
            Table::row(1741510800, -25200, 3600, "MDT")
           } else {
            Table::row(1762070400, -25200, 0, "MST")
           }
          }
         }
        } else {
         if i < 129 {
          if i < 128 {
           Table::row(1772960400, -25200, 3600, "MDT")
          } else {
           Table::row(1793520000, -25200, 0, "MST")
          }
         } else {
          if i < 130 {
           Table::row(1805014800, -25200, 3600, "MDT")
          } else {
           if i < 131 {
            Table::row(1825574400, -25200, 0, "MST")
           } else {
            Table::row(1836464400, -25200, 3600, "MDT")
           }
          }
         }
        }
       }
      } else {
       if i < 141 {
        if i < 136 {
         if i < 134 {
          if i < 133 {
           Table::row(1857024000, -25200, 0, "MST")
          } else {
           Table::row(1867914000, -25200, 3600, "MDT")
          }
         } else {
          if i < 135 {
           Table::row(1888473600, -25200, 0, "MST")
          } else {
           Table::row(1899363600, -25200, 3600, "MDT")
          }
         }
        } else {
         if i < 138 {
          if i < 137 {
           Table::row(1919923200, -25200, 0, "MST")
          } else {
           Table::row(1930813200, -25200, 3600, "MDT")
          }
         } else {
          if i < 139 {
           Table::row(1951372800, -25200, 0, "MST")
          } else {
           if i < 140 {
            Table::row(1962867600, -25200, 3600, "MDT")
           } else {
            Table::row(1983427200, -25200, 0, "MST")
           }
          }
         }
        }
       } else {
        if i < 146 {
         if i < 143 {
          if i < 142 {
           Table::row(1994317200, -25200, 3600, "MDT")
          } else {
           Table::row(2014876800, -25200, 0, "MST")
          }
         } else {
          if i < 144 {
           Table::row(2025766800, -25200, 3600, "MDT")
          } else {
           if i < 145 {
            Table::row(2046326400, -25200, 0, "MST")
           } else {
            Table::row(2057216400, -25200, 3600, "MDT")
           }
          }
         }
        } else {
         if i < 148 {
          if i < 147 {
           Table::row(2077776000, -25200, 0, "MST")
          } else {
           Table::row(2088666000, -25200, 3600, "MDT")
          }
         } else {
          if i < 149 {
           Table::row(2109225600, -25200, 0, "MST")
          } else {
           if i < 150 {
            Table::row(2120115600, -25200, 3600, "MDT")
           } else {
            Table::row(2140675200, -25200, 0, "MST")
           }
          }
         }
        }
       }
      }
     }
    }
}

/// The rows of the table of the zone `America/Boise`.
pub open spec fn boise_rows() -> spec_fn(int) -> (i64, FixedTimespan) {
    |i: int| boise_row(i)
}

/// The table of the zone `America/Boise`.
pub open spec fn boise() -> Table {
    Table::listed(Table::row(0, -27889, 0, "LMT").1, 151, boise_rows())
}

/// Row `i` of the table of the zone `America/Buenos_Aires`.
pub open spec fn buenos_aires_row(i: int) -> (i64, FixedTimespan) {
    if i < 31 {
     if i < 15 {
      if i < 7 {
       if i < 3 {
        if i < 1 {
         Table::row(-2372097972, -15408, 0, "CMT")
        } else {
         if i < 2 {
          Table::row(-1567453392, -14400, 0, "-04")
         } else {
          Table::row(-1233432000, -14400, 3600, "-03")
         }
        }
       } else {
        if i < 5 {
         if i < 4 {
          Table::row(-1222981200, -14400, 0, "-04")
         } else {
          Table::row(-1205956800, -14400, 3600, "-03")
         }
        } else {
         if i < 6 {
          Table::row(-1194037200, -14400, 0, "-04")
         } else {
          Table::row(-1172865600, -14400, 3600, "-03")
         }
        }
       }
      } else {
       if i < 11 {
        if i < 9 {
         if i < 8 {
          Table::row(-1162501200, -14400, 0, "-04")
         } else {
          Table::row(-1141329600, -14400, 3600, "-03")
         }
        } else {
         if i < 10 {
          Table::row(-1130965200, -14400, 0, "-04")
         } else {
          Table::row(-1109793600, -14400, 3600, "-03")
         }
        }
       } else {
        if i < 13 {
         if i < 12 {
          Table::row(-1099429200, -14400, 0, "-04")
         } else {
          Table::row(-1078257600, -14400, 3600, "-03")
         }
        } else {
         if i < 14 {
          Table::row(-1067806800, -14400, 0, "-04")
         } else {
          Table::row(-1046635200, -14400, 3600, "-03")
         }
        }
       }
      }
     } else {
      if i < 23 {
       if i < 19 {
        if i < 17 {
         if i < 16 {
          Table::row(-1036270800, -14400, 0, "-04")
         } else {
          Table::row(-1015099200, -14400, 3600, "-03")
         }
        } else {
         if i < 18 {
          Table::row(-1004734800, -14400, 0, "-04")
         } else {
          Table::row(-983563200, -14400, 3600, "-03")
         }
        }
       } else {
        if i < 21 {
         if i < 20 {
          Table::row(-973198800, -14400, 0, "-04")
         } else {
          Table::row(-952027200, -14400, 3600, "-03")
         }
        } else {
         if i < 22 {
          Table::row(-941576400, -14400, 0, "-04")
         } else {
          Table::row(-931032000, -14400, 3600, "-03")
         }
        }
       }
      } else {
       if i < 27 {
        if i < 25 {
         if i < 24 {
          Table::row(-900882000, -14400, 0, "-04")
         } else {
          Table::row(-890337600, -14400, 3600, "-03")
         }
        } else {
         if i < 26 {
          Table::row(-833749200, -14400, 0, "-04")
         } else {
          Table::row(-827265600, -14400, 3600, "-03")
         }
        }
       } else {
        if i < 29 {
         if i < 28 {
          Table::row(-752274000, -14400, 0, "-04")
         } else {
          Table::row(-733780800, -14400, 3600, "-03")
         }
        } else {
         if i < 30 {
          Table::row(-197326800, -14400, 0, "-04")
         } else {
          Table::row(-190843200, -14400, 3600, "-03")
         }
        }
       }
      }
     }
    } else {
     if i < 46 {
      if i < 38 {
       if i < 34 {
        if i < 32 {
         Table::row(-184194000, -14400, 0, "-04")
        } else {
         if i < 33 {
          Table::row(-164491200, -14400, 3600, "-03")
         } else {
          Table::row(-152658000, -14400, 0, "-04")
         }
        }
       } else {
        if i < 36 {
         if i < 35 {
          Table::row(-132955200, -14400, 3600, "-03")
         } else {
          Table::row(-121122000, -14400, 0, "-04")
         }
        } else {
         if i < 37 {
          Table::row(-101419200, -14400, 3600, "-03")
         } else {
          Table::row(-86821200, -14400, 0, "-04")
         }
        }
       }
      } else {
       if i < 42 {
        if i < 40 {
         if i < 39 {
          Table::row(-71092800, -14400, 3600, "-03")
         } else {
          Table::row(-54766800, -14400, 0, "-04")
         }
        } else {
         if i < 41 {
          Table::row(-39038400, -14400, 3600, "-03")
         } else {
          Table::row(-23317200, -14400, 0, "-04")
         }
        }
       } else {
        if i < 44 {
         if i < 43 {
          Table::row(-7588800, -10800, 0, "-03")
         } else {
          Table::row(128142000, -10800, 3600, "-02")
         }
        } else {
         if i < 45 {
          Table::row(136605600, -10800, 0, "-03")
         } else {
          Table::row(596948400, -10800, 3600, "-02")
         }
        }
       }
      }
     } else {
      if i < 54 {
       if i < 50 {
        if i < 48 {
         if i < 47 {
          Table::row(605066400, -10800, 0, "-03")
         } else {
          Table::row(624423600, -10800, 3600, "-02")
         }
        } else {
         if i < 49 {
          Table::row(636516000, -10800, 0, "-03")
         } else {
          Table::row(656478000, -10800, 3600, "-02")
         }
        }
       } else {
        if i < 52 {
         if i < 51 {
          Table::row(667965600, -10800, 0, "-03")
         } else {
          Table::row(687927600, -10800, 3600, "-02")
         }
        } else {
         if i < 53 {
          Table::row(699415200, -10800, 0, "-03")
         } else {
          Table::row(719377200, -10800, 3600, "-02")
         }
        }
       }
      } else {
       if i < 58 {
        if i < 56 {
         if i < 55 {
          Table::row(731469600, -10800, 0, "-03")
         } else {
          Table::row(938919600, -14400, 3600, "-03")
         }
        } else {
         if i < 57 {
          Table::row(952052400, -10800, 0, "-03")
         } else {
          Table::row(1198983600, -10800, 3600, "-02")
         }
        }
       } else {
        if i < 60 {
         if i < 59 {
          Table::row(1205632800, -10800, 0, "-03")
         } else {
          Table::row(1224385200, -10800, 3600, "-02")
         }
        } else {
         if i < 61 {
          Table::row(1237082400, -10800, 0, "-03")
         } else {
          Table::row(2147483647, -10800, 0, "-03")
         }
        }
       }
      }
     }
    }
}

/// The rows of the table of the zone `America/Buenos_Aires`.
pub open spec fn buenos_aires_rows() -> spec_fn(int) -> (i64, FixedTimespan) {
    |i: int| buenos_aires_row(i)
}

/// The table of the zone `America/Buenos_Aires`.
pub open spec fn buenos_aires() -> Table {
    Table::listed(Table::row(0, -14028, 0, "LMT").1, 62, buenos_aires_rows())
}

/// Row `i` of the table of the zone `America/Cambridge_Bay`.
pub open spec fn cambridge_bay_row(i: int) -> (i64, FixedTimespan) {
    if i < 68 {
     if i < 34 {
      if i < 17 {
       if i < 8 {
        if i < 4 {
         if i < 2 {
          if i < 1 {
           Table::row(-1577923200, -25200, 0, "MST")
          } else {
           Table::row(-880210800, -25200, 3600, "MWT")
          }
         } else {
          if i < 3 {
           Table::row(-769395600, -25200, 3600, "MPT")
          } else {
           Table::row(-765388800, -25200, 0, "MST")
          }
         }
        } else {
         if i < 6 {
          if i < 5 {
           Table::row(73472400, -25200, 3600, "MDT")
          } else {
           Table::row(89193600, -25200, 0, "MST")
          }
         } else {
          if i < 7 {
           Table::row(104922000, -25200, 3600, "MDT")
          } else {
           Table::row(120643200, -25200, 0, "MST")
          }
         }
        }
       } else {
        if i < 12 {
         if i < 10 {
          if i < 9 {
           Table::row(136371600, -25200, 3600, "MDT")
          } else {
           Table::row(152092800, -25200, 0, "MST")
          }
         } else {
          if i < 11 {
           Table::row(167821200, -25200, 3600, "MDT")
          } else {
           Table::row(183542400, -25200, 0, "MST")
          }
         }
        } else {
         if i < 14 {
          if i < 13 {
           Table::row(199270800, -25200, 3600, "MDT")
          } else {
           Table::row(215596800, -25200, 0, "MST")
          }
         } else {
          if i < 15 {
           Table::row(230720400, -25200, 3600, "MDT")
          } else {
           if i < 16 {
            Table::row(247046400, -25200, 0, "MST")
           } else {
            Table::row(262774800, -25200, 3600, "MDT")
           }
          }
         }
        }
       }
      } else {
       if i < 25 {
        if i < 21 {
         if i < 19 {
          if i < 18 {
           Table::row(278496000, -25200, 0, "MST")
          } else {
           Table::row(294224400, -25200, 3600, "MDT")
          }
         } else {
          if i < 20 {
           Table::row(309945600, -25200, 0, "MST")
          } else {
           Table::row(325674000, -25200, 3600, "MDT")
          }
         }
        } else {
         if i < 23 {
          if i < 22 {
           Table::row(341395200, -25200, 0, "MST")
          } else {
           Table::row(357123600, -25200, 3600, "MDT")
          }
         } else {
          if i < 24 {
           Table::row(372844800, -25200, 0, "MST")
          } else {
           Table::row(388573200, -25200, 3600, "MDT")
          }
         }
        }
       } else {
        if i < 29 {
         if i < 27 {
          if i < 26 {
           Table::row(404899200, -25200, 0, "MST")
          } else {
           Table::row(420022800, -25200, 3600, "MDT")
          }
         } else {
          if i < 28 {
           Table::row(436348800, -25200, 0, "MST")
          } else {
           Table::row(452077200, -25200, 3600, "MDT")
          }
         }
        } else {
         if i < 31 {
          if i < 30 {
           Table::row(467798400, -25200, 0, "MST")
          } else {
           Table::row(483526800, -25200, 3600, "MDT")
          }
         } else {
          if i < 32 {
           Table::row(499248000, -25200, 0, "MST")
          } else {
           if i < 33 {
            Table::row(514976400, -25200, 3600, "MDT")
           } else {
            Table::row(530697600, -25200, 0, "MST")
           }
          }
         }
        }
       }
      }
     } else {
      if i < 51 {
       if i < 42 {
        if i < 38 {
         if i < 36 {
          if i < 35 {
           Table::row(544611600, -25200, 3600, "MDT")
          } else {
           Table::row(562147200, -25200, 0, "MST")
          }
         } else {
          if i < 37 {
           Table::row(576061200, -25200, 3600, "MDT")
          } else {
           Table::row(594201600, -25200, 0, "MST")
          }
         }
        } else {
         if i < 40 {
          if i < 39 {
           Table::row(607510800, -25200, 3600, "MDT")
          } else {
           Table::row(625651200, -25200, 0, "MST")
          }
         } else {
          if i < 41 {
           Table::row(638960400, -25200, 3600, "MDT")
          } else {
           Table::row(657100800, -25200, 0, "MST")
          }
         }
        }
       } else {
        if i < 46 {
         if i < 44 {
          if i < 43 {
           Table::row(671014800, -25200, 3600, "MDT")
          } else {
           Table::row(688550400, -25200, 0, "MST")
          }
         } else {
          if i < 45 {
           Table::row(702464400, -25200, 3600, "MDT")
          } else {
           Table::row(720000000, -25200, 0, "MST")
          }
         }
        } else {
         if i < 48 {
          if i < 47 {
           Table::row(733914000, -25200, 3600, "MDT")
          } else {
           Table::row(752054400, -25200, 0, "MST")
          }
         } else {
          if i < 49 {
           Table::row(765363600, -25200, 3600, "MDT")
          } else {
           if i < 50 {
            Table::row(783504000, -25200, 0, "MST")
           } else {
            Table::row(796813200, -25200, 3600, "MDT")
           }
          }
         }
        }
       }
      } else {
       if i < 59 {
        if i < 55 {
         if i < 53 {
          if i < 52 {
           Table::row(814953600, -25200, 0, "MST")
          } else {
           Table::row(828867600, -25200, 3600, "MDT")
          }
         } else {
          if i < 54 {
           Table::row(846403200, -25200, 0, "MST")
          } else {
           Table::row(860317200, -25200, 3600, "MDT")
          }
         }
        } else {
         if i < 57 {
          if i < 56 {
           Table::row(877852800, -25200, 0, "MST")
          } else {
           Table::row(891766800, -25200, 3600, "MDT")
          }
         } else {
          if i < 58 {
           Table::row(909302400, -25200, 0, "MST")
          } else {
           Table::row(923216400, -25200, 3600, "MDT")
          }
         }
        }
       } else {
        if i < 63 {
         if i < 61 {
          if i < 60 {
           Table::row(941356800, -21600, 0, "CST")
          } else {
           Table::row(954662400, -21600, 3600, "CDT")
          }
         } else {
          if i < 62 {
           Table::row(972802800, -18000, 0, "EST")
          } else {
           Table::row(973400400, -21600, 0, "CST")
          }
         }
        } else {
         if i < 65 {
          if i < 64 {
           Table::row(986115600, -25200, 3600, "MDT")
          } else {
           Table::row(1004256000, -25200, 0, "MST")
          }
         } else {
          if i < 66 {
           Table::row(1018170000, -25200, 3600, "MDT")
          } else {
           if i < 67 {
            Table::row(1035705600, -25200, 0, "MST")
           } else {
            Table::row(1049619600, -25200, 3600, "MDT")
           }
          }
         }
        }
       }
      }
     }
    } else {
     if i < 102 {
      if i < 85 {
       if i < 76 {
        if i < 72 {
         if i < 70 {
          if i < 69 {
           Table::row(1067155200, -25200, 0, "MST")
          } else {
           Table::row(1081069200, -25200, 3600, "MDT")
          }
         } else {
          if i < 71 {
           Table::row(1099209600, -25200, 0, "MST")
          } else {
           Table::row(1112518800, -25200, 3600, "MDT")
          }
         }
        } else {
         if i < 74 {
          if i < 73 {
           Table::row(1130659200, -25200, 0, "MST")
          } else {
           Table::row(1143968400, -25200, 3600, "MDT")
          }
         } else {
          if i < 75 {
           Table::row(1162108800, -25200, 0, "MST")
          } else {
           Table::row(1173603600, -25200, 3600, "MDT")
          }
         }
        }
       } else {
        if i < 80 {
         if i < 78 {
          if i < 77 {
           Table::row(1194163200, -25200, 0, "MST")
          } else {
           Table::row(1205053200, -25200, 3600, "MDT")
          }
         } else {
          if i < 79 {
           Table::row(1225612800, -25200, 0, "MST")
          } else {
           Table::row(1236502800, -25200, 3600, "MDT")
          }
         }
        } else {
         if i < 82 {
          if i < 81 {
           Table::row(1257062400, -25200, 0, "MST")
          } else {
           Table::row(1268557200, -25200, 3600, "MDT")
          }
         } else {
          if i < 83 {
           Table::row(1289116800, -25200, 0, "MST")
          } else {
           if i < 84 {
            Table::row(1300006800, -25200, 3600, "MDT")
           } else {
            Table::row(1320566400, -25200, 0, "MST")
           }
          }
         }
        }
       }
      } else {
       if i < 93 {
        if i < 89 {
         if i < 87 {
          if i < 86 {
           Table::row(1331456400, -25200, 3600, "MDT")
          } else {
           Table::row(1352016000, -25200, 0, "MST")
          }
         } else {
          if i < 88 {
           Table::row(1362906000, -25200, 3600, "MDT")
          } else {
           Table::row(1383465600, -25200, 0, "MST")
          }
         }
        } else {
         if i < 91 {
          if i < 90 {
           Table::row(1394355600, -25200, 3600, "MDT")
          } else {
           Table::row(1414915200, -25200, 0, "MST")
          }
         } else {
          if i < 92 {
           Table::row(1425805200, -25200, 3600, "MDT")
          } else {
           Table::row(1446364800, -25200, 0, "MST")
          }
         }
        }
       } else {
        if i < 97 {
         if i < 95 {
          if i < 94 {
           Table::row(1457859600, -25200, 3600, "MDT")
          } else {
           Table::row(1478419200, -25200, 0, "MST")
          }
         } else {
          if i < 96 {
           Table::row(1489309200, -25200, 3600, "MDT")
          } else {
           Table::row(1509868800, -25200, 0, "MST")
          }
         }
        } else {
         if i < 99 {
          if i < 98 {
           Table::row(1520758800, -25200, 3600, "MDT")
          } else {
           Table::row(1541318400, -25200, 0, "MST")
          }
         } else {
          if i < 100 {
           Table::row(1552208400, -25200, 3600, "MDT")
          } else {
           if i < 101 {
            Table::row(1572768000, -25200, 0, "MST")
           } else {
            Table::row(1583658000, -25200, 3600, "MDT")
           }
          }
         }
        }
       }
      }
     } else {
      if i < 119 {
       if i < 110 {
        if i < 106 {
         if i < 104 {
          if i < 103 {
           Table::row(1604217600, -25200, 0, "MST")
          } else {
           Table::row(1615712400, -25200, 3600, "MDT")
          }
         } else {
          if i < 105 {
           Table::row(1636272000, -25200, 0, "MST")
          } else {
           Table::row(1647162000, -25200, 3600, "MDT")
          }
         }
        } else {
         if i < 108 {
          if i < 107 {
           Table::row(1667721600, -25200, 0, "MST")
          } else {
           Table::row(1678611600, -25200, 3600, "MDT")
          }
         } else {
          if i < 109 {
           Table::row(1699171200, -25200, 0, "MST")
          } else {
           Table::row(1710061200, -25200, 3600, "MDT")
          }
         }
        }
       } else {
        if i < 114 {
         if i < 112 {
          if i < 111 {
           Table::row(1730620800, -25200, 0, "MST")
          } else {
           Table::row(1741510800, -25200, 3600, "MDT")
          }
         } else {
          if i < 113 {
           Table::row(1762070400, -25200, 0, "MST")
          } else {
           Table::row(1772960400, -25200, 3600, "MDT")
          }
         }
        } else {
         if i < 116 {
          if i < 115 {
           Table::row(1793520000, -25200, 0, "MST")
          } else {
           Table::row(1805014800, -25200, 3600, "MDT")
          }
         } else {
          if i < 117 {
           Table::row(1825574400, -25200, 0, "MST")
          } else {
           if i < 118 {
            Table::row(1836464400, -25200, 3600, "MDT")
           } else {
            Table::row(1857024000, -25200, 0, "MST")
           }
          }
         }
        }
       }
      } else {
       if i < 128 {
        if i < 123 {
         if i < 121 {
          if i < 120 {
           Table::row(1867914000, -25200, 3600, "MDT")
          } else {
           Table::row(1888473600, -25200, 0, "MST")
          }
         } else {
          if i < 122 {
           Table::row(1899363600, -25200, 3600, "MDT")
          } else {
           Table::row(1919923200, -25200, 0, "MST")
          }
         }
        } else {
         if i < 125 {
          if i < 124 {
           Table::row(1930813200, -25200, 3600, "MDT")
          } else {
           Table::row(1951372800, -25200, 0, "MST")
          }
         } else {
          if i < 126 {
           Table::row(1962867600, -25200, 3600, "MDT")
          } else {
           if i < 127 {
            Table::row(1983427200, -25200, 0, "MST")
           } else {
            Table::row(1994317200, -25200, 3600, "MDT")
           }
          }
         }
        }
       } else {
        if i < 132 {
         if i < 130 {
          if i < 129 {
           Table::row(2014876800, -25200, 0, "MST")
          } else {
           Table::row(2025766800, -25200, 3600, "MDT")
          }
         } else {
          if i < 131 {
           Table::row(2046326400, -25200, 0, "MST")
          } else {
           Table::row(2057216400, -25200, 3600, "MDT")
          }
         }
        } else {
         if i < 134 {
          if i < 133 {
           Table::row(2077776000, -25200, 0, "MST")
          } else {
           Table::row(2088666000, -25200, 3600, "MDT")
          }
         } else {
          if i < 135 {
           Table::row(2109225600, -25200, 0, "MST")
          } else {
           if i < 136 {
            Table::row(2120115600, -25200, 3600, "MDT")
           } else {
            Table::row(2140675200, -25200, 0, "MST")
           }
          }
         }
        }
       }
      }
     }
    }
}

/// The rows of the table of the zone `America/Cambridge_Bay`.
pub open spec fn cambridge_bay_rows() -> spec_fn(int) -> (i64, FixedTimespan) {
    |i: int| cambridge_bay_row(i)
}

/// The table of the zone `America/Cambridge_Bay`.
pub open spec fn cambridge_bay() -> Table {
    Table::listed(Table::row(0, 0, 0, "-00").1, 137, cambridge_bay_rows())
}

/// Row `i` of the table of the zone `America/Campo_Grande`.
pub open spec fn campo_grande_row(i: int) -> (i64, FixedTimespan) {
    if i < 46 {
     if i < 23 {
      if i < 11 {
       if i < 5 {
        if i < 2 {
         if i < 1 {
          Table::row(-1767212492, -14400, 0, "-04")
         } else {
          Table::row(-1206954000, -14400, 3600, "-03")
         }
        } else {
         if i < 3 {
          Table::row(-1191358800, -14400, 0, "-04")
         } else {
          if i < 4 {
           Table::row(-1175371200, -14400, 3600, "-03")
          } else {
           Table::row(-1159822800, -14400, 0, "-04")
          }
         }
        }
       } else {
        if i < 8 {
         if i < 6 {
          Table::row(-633816000, -14400, 3600, "-03")
         } else {
          if i < 7 {
           Table::row(-622065600, -14400, 0, "-04")
          } else {
           Table::row(-602280000, -14400, 3600, "-03")
          }
         }
        } else {
         if i < 9 {
          Table::row(-591829200, -14400, 0, "-04")
         } else {
          if i < 10 {
           Table::row(-570744000, -14400, 3600, "-03")
          } else {
           Table::row(-560206800, -14400, 0, "-04")
          }
         }
        }
       }
      } else {
       if i < 17 {
        if i < 14 {
         if i < 12 {
          Table::row(-539121600, -14400, 3600, "-03")
         } else {
          if i < 13 {
           Table::row(-531349200, -14400, 0, "-04")
          } else {
           Table::row(-191361600, -14400, 3600, "-03")
          }
         }
        } else {
         if i < 15 {
          Table::row(-184194000, -14400, 0, "-04")
         } else {
          if i < 16 {
           Table::row(-155160000, -14400, 3600, "-03")
          } else {
           Table::row(-150066000, -14400, 0, "-04")
          }
         }
        }
       } else {
        if i < 20 {
         if i < 18 {
          Table::row(-128894400, -14400, 3600, "-03")
         } else {
          if i < 19 {
           Table::row(-121122000, -14400, 0, "-04")
          } else {
           Table::row(-99950400, -14400, 3600, "-03")
          }
         }
        } else {
         if i < 21 {
          Table::row(-89586000, -14400, 0, "-04")
         } else {
          if i < 22 {
           Table::row(-68414400, -14400, 3600, "-03")
          } else {
           Table::row(-57963600, -14400, 0, "-04")
          }
         }
        }
       }
      }
     } else {
      if i < 34 {
       if i < 28 {
        if i < 25 {
         if i < 24 {
          Table::row(499752000, -14400, 3600, "-03")
         } else {
          Table::row(511239600, -14400, 0, "-04")
         }
        } else {
         if i < 26 {
          Table::row(530596800, -14400, 3600, "-03")
         } else {
          if i < 27 {
           Table::row(540270000, -14400, 0, "-04")
          } else {
           Table::row(562132800, -14400, 3600, "-03")
          }
         }
        }
       } else {
        if i < 31 {
         if i < 29 {
          Table::row(571201200, -14400, 0, "-04")
         } else {
          if i < 30 {
           Table::row(592977600, -14400, 3600, "-03")
          } else {
           Table::row(602046000, -14400, 0, "-04")
          }
         }
        } else {
         if i < 32 {
          Table::row(624427200, -14400, 3600, "-03")
         } else {
          if i < 33 {
           Table::row(634705200, -14400, 0, "-04")
          } else {
           Table::row(656481600, -14400, 3600, "-03")
          }
         }
        }
       }
      } else {
       if i < 40 {
        if i < 37 {
         if i < 35 {
          Table::row(666759600, -14400, 0, "-04")
         } else {
          if i < 36 {
           Table::row(687931200, -14400, 3600, "-03")
          } else {
           Table::row(697604400, -14400, 0, "-04")
          }
         }
        } else {
         if i < 38 {
          Table::row(719985600, -14400, 3600, "-03")
         } else {
          if i < 39 {
           Table::row(728449200, -14400, 0, "-04")
          } else {
           Table::row(750830400, -14400, 3600, "-03")
          }
         }
        }
       } else {
        if i < 43 {
         if i < 41 {
          Table::row(761713200, -14400, 0, "-04")
         } else {
          if i < 42 {
           Table::row(782280000, -14400, 3600, "-03")
          } else {
           Table::row(793162800, -14400, 0, "-04")
          }
         }
        } else {
         if i < 44 {
          Table::row(813729600, -14400, 3600, "-03")
         } else {
          if i < 45 {
           Table::row(824007600, -14400, 0, "-04")
          } else {
           Table::row(844574400, -14400, 3600, "-03")
          }
         }
        }
       }
      }
     }
    } else {
     if i < 69 {
      if i < 57 {
       if i < 51 {
        if i < 48 {
         if i < 47 {
          Table::row(856062000, -14400, 0, "-04")
         } else {
          Table::row(876110400, -14400, 3600, "-03")
         }
        } else {
         if i < 49 {
          Table::row(888721200, -14400, 0, "-04")
         } else {
          if i < 50 {
           Table::row(908078400, -14400, 3600, "-03")
          } else {
           Table::row(919566000, -14400, 0, "-04")
          }
         }
        }
       } else {
        if i < 54 {
         if i < 52 {
          Table::row(938923200, -14400, 3600, "-03")
         } else {
          if i < 53 {
           Table::row(951620400, -14400, 0, "-04")
          } else {
           Table::row(970977600, -14400, 3600, "-03")
          }
         }
        } else {
         if i < 55 {
          Table::row(982465200, -14400, 0, "-04")
         } else {
          if i < 56 {
           Table::row(1003032000, -14400, 3600, "-03")
          } else {
           Table::row(1013914800, -14400, 0, "-04")
          }
         }
        }
       }
      } else {
       if i < 63 {
        if i < 60 {
         if i < 58 {
          Table::row(1036296000, -14400, 3600, "-03")
         } else {
          if i < 59 {
           Table::row(1045364400, -14400, 0, "-04")
          } else {
           Table::row(1066536000, -14400, 3600, "-03")
          }
         }
        } else {
         if i < 61 {
          Table::row(1076814000, -14400, 0, "-04")
         } else {
          if i < 62 {
           Table::row(1099368000, -14400, 3600, "-03")
          } else {
           Table::row(1108868400, -14400, 0, "-04")
          }
         }
        }
       } else {
        if i < 66 {
         if i < 64 {
          Table::row(1129435200, -14400, 3600, "-03")
         } else {
          if i < 65 {
           Table::row(1140318000, -14400, 0, "-04")
          } else {
           Table::row(1162699200, -14400, 3600, "-03")
          }
         }
        } else {
         if i < 67 {
          Table::row(1172372400, -14400, 0, "-04")
         } else {
          if i < 68 {
           Table::row(1192334400, -14400, 3600, "-03")
          } else {
           Table::row(1203217200, -14400, 0, "-04")
          }
         }
        }
       }
      }
     } else {
      if i < 80 {
       if i < 74 {
        if i < 71 {
         if i < 70 {
          Table::row(1224388800, -14400, 3600, "-03")
         } else {
          Table::row(1234666800, -14400, 0, "-04")
         }
        } else {
         if i < 72 {
          Table::row(1255838400, -14400, 3600, "-03")
         } else {
          if i < 73 {
           Table::row(1266721200, -14400, 0, "-04")
          } else {
           Table::row(1287288000, -14400, 3600, "-03")
          }
         }
        }
       } else {
        if i < 77 {
         if i < 75 {
          Table::row(1298170800, -14400, 0, "-04")
         } else {
          if i < 76 {
           Table::row(1318737600, -14400, 3600, "-03")
          } else {
           Table::row(1330225200, -14400, 0, "-04")
          }
         }
        } else {
         if i < 78 {
          Table::row(1350792000, -14400, 3600, "-03")
         } else {
          if i < 79 {
           Table::row(1361070000, -14400, 0, "-04")
          } else {
           Table::row(1382241600, -14400, 3600, "-03")
          }
         }
        }
       }
      } else {
       if i < 86 {
        if i < 83 {
         if i < 81 {
          Table::row(1392519600, -14400, 0, "-04")
         } else {
          if i < 82 {
           Table::row(1413691200, -14400, 3600, "-03")
          } else {
           Table::row(1424574000, -14400, 0, "-04")
          }
         }
        } else {
         if i < 84 {
          Table::row(1445140800, -14400, 3600, "-03")
         } else {
          if i < 85 {
           Table::row(1456023600, -14400, 0, "-04")
          } else {
           Table::row(1476590400, -14400, 3600, "-03")
          }
         }
        }
       } else {
        if i < 89 {
         if i < 87 {
          Table::row(1487473200, -14400, 0, "-04")
         } else {
          if i < 88 {
           Table::row(1508040000, -14400, 3600, "-03")
          } else {
           Table::row(1518922800, -14400, 0, "-04")
          }
         }
        } else {
         if i < 90 {
          Table::row(1541304000, -14400, 3600, "-03")
         } else {
          if i < 91 {
           Table::row(1550372400, -14400, 0, "-04")
          } else {
           Table::row(2147483647, -14400, 0, "-04")
          }
         }
        }
       }
      }
     }
    }
}

/// The rows of the table of the zone `America/Campo_Grande`.
pub open spec fn campo_grande_rows() -> spec_fn(int) -> (i64, FixedTimespan) {
    |i: int| campo_grande_row(i)
}

/// The table of the zone `America/Campo_Grande`.
pub open spec fn campo_grande() -> Table {
    Table::listed(Table::row(0, -13108, 0, "LMT").1, 92, campo_grande_rows())
}

/// Row `i` of the table of the zone `America/Cancun`.
pub open spec fn cancun_row(i: int) -> (i64, FixedTimespan) {
    if i < 21 {
     if i < 10 {
      if i < 5 {
       if i < 2 {
        if i < 1 {
         Table::row(-1514743200, -21600, 0, "CST")
        } else {
         Table::row(378201600, -18000, 0, "EST")
        }
       } else {
        if i < 3 {
         Table::row(410504400, -21600, 0, "CST")
        } else {
         if i < 4 {
          Table::row(828864000, -21600, 3600, "CDT")
         } else {
          Table::row(846399600, -21600, 0, "CST")
         }
        }
       }
      } else {
       if i < 7 {
        if i < 6 {
         Table::row(860313600, -21600, 3600, "CDT")
        } else {
         Table::row(877849200, -18000, 0, "EST")
        }
       } else {
        if i < 8 {
         Table::row(891759600, -18000, 3600, "EDT")
        } else {
         if i < 9 {
          Table::row(902037600, -21600, 3600, "CDT")
         } else {
          Table::row(909298800, -21600, 0, "CST")
         }
        }
       }
      }
     } else {
      if i < 15 {
       if i < 12 {
        if i < 11 {
         Table::row(923212800, -21600, 3600, "CDT")
        } else {
         Table::row(941353200, -21600, 0, "CST")
        }
       } else {
        if i < 13 {
         Table::row(954662400, -21600, 3600, "CDT")
        } else {
         if i < 14 {
          Table::row(972802800, -21600, 0, "CST")
         } else {
          Table::row(989136000, -21600, 3600, "CDT")
         }
        }
       }
      } else {
       if i < 18 {
        if i < 16 {
         Table::row(1001833200, -21600, 0, "CST")
        } else {
         if i < 17 {
          Table::row(1018166400, -21600, 3600, "CDT")
         } else {
          Table::row(1035702000, -21600, 0, "CST")
         }
        }
       } else {
        if i < 19 {
         Table::row(1049616000, -21600, 3600, "CDT")
        } else {
         if i < 20 {
          Table::row(1067151600, -21600, 0, "CST")
         } else {
          Table::row(1081065600, -21600, 3600, "CDT")
         }
        }
       }
      }
     }
    } else {
     if i < 32 {
      if i < 26 {
       if i < 23 {
        if i < 22 {
         Table::row(1099206000, -21600, 0, "CST")
        } else {
         Table::row(1112515200, -21600, 3600, "CDT")
        }
       } else {
        if i < 24 {
         Table::row(1130655600, -21600, 0, "CST")
        } else {
         if i < 25 {
          Table::row(1143964800, -21600, 3600, "CDT")
         } else {
          Table::row(1162105200, -21600, 0, "CST")
         }
        }
       }
      } else {
       if i < 29 {
        if i < 27 {
         Table::row(1175414400, -21600, 3600, "CDT")
        } else {
         if i < 28 {
          Table::row(1193554800, -21600, 0, "CST")
         } else {
          Table::row(1207468800, -21600, 3600, "CDT")
         }
        }
       } else {
        if i < 30 {
         Table::row(1225004400, -21600, 0, "CST")
        } else {
         if i < 31 {
          Table::row(1238918400, -21600, 3600, "CDT")
         } else {
          Table::row(1256454000, -21600, 0, "CST")
         }
        }
       }
      }
     } else {
      if i < 37 {
       if i < 34 {
        if i < 33 {
         Table::row(1270368000, -21600, 3600, "CDT")
        } else {
         Table::row(1288508400, -21600, 0, "CST")
        }
       } else {
        if i < 35 {
         Table::row(1301817600, -21600, 3600, "CDT")
        } else {
         if i < 36 {
          Table::row(1319958000, -21600, 0, "CST")
         } else {
          Table::row(1333267200, -21600, 3600, "CDT")
         }
        }
       }
      } else {
       if i < 40 {
        if i < 38 {
         Table::row(1351407600, -21600, 0, "CST")
        } else {
         if i < 39 {
          Table::row(1365321600, -21600, 3600, "CDT")
         } else {
          Table::row(1382857200, -21600, 0, "CST")
         }
        }
       } else {
        if i < 41 {
         Table::row(1396771200, -21600, 3600, "CDT")
        } else {
         if i < 42 {
          Table::row(1414306800, -21600, 0, "CST")
         } else {
          Table::row(1422777600, -18000, 0, "EST")
         }
        }
       }
      }
     }
    }
}

/// The rows of the table of the zone `America/Cancun`.
pub open spec fn cancun_rows() -> spec_fn(int) -> (i64, FixedTimespan) {
    |i: int| cancun_row(i)
}

/// The table of the zone `America/Cancun`.
pub open spec fn cancun() -> Table {
    Table::listed(Table::row(0, -20824, 0, "LMT").1, 43, cancun_rows())
}

/// Row `i` of the table of the zone `America/Caracas`.
pub open spec fn caracas_row(i: int) -> (i64, FixedTimespan) {
    if i < 3 {
     if i < 1 {
      Table::row(-2524505536, -16060, 0, "CMT")
     } else {
      if i < 2 {
       Table::row(-1826739140, -16200, 0, "-0430")
      } else {
       Table::row(-157750200, -14400, 0, "-04")
      }
     }
    } else {
     if i < 4 {
      Table::row(1197183600, -16200, 0, "-0430")
     } else {
      if i < 5 {
       Table::row(1462086000, -14400, 0, "-04")
      } else {
       Table::row(2147483647, -14400, 0, "-04")
      }
     }
    }
}

/// The rows of the table of the zone `America/Caracas`.
pub open spec fn caracas_rows() -> spec_fn(int) -> (i64, FixedTimespan) {
    |i: int| caracas_row(i)
}

/// The table of the zone `America/Caracas`.
pub open spec fn caracas() -> Table {
    Table::listed(Table::row(0, -16064, 0, "LMT").1, 6, caracas_rows())
}

/// Row `i` of the table of the zone `America/Catamarca`.
pub open spec fn catamarca_row(i: int) -> (i64, FixedTimespan) {
    if i < 31 {
     if i < 15 {
      if i < 7 {
       if i < 3 {
        if i < 1 {
         Table::row(-2372096212, -15408, 0, "CMT")
        } else {
         if i < 2 {
          Table::row(-1567453392, -14400, 0, "-04")
         } else {
          Table::row(-1233432000, -14400, 3600, "-03")
         }
        }
       } else {
        if i < 5 {
         if i < 4 {
          Table::row(-1222981200, -14400, 0, "-04")
         } else {
          Table::row(-1205956800, -14400, 3600, "-03")
         }
        } else {
         if i < 6 {
          Table::row(-1194037200, -14400, 0, "-04")
         } else {
          Table::row(-1172865600, -14400, 3600, "-03")
         }
        }
       }
      } else {
       if i < 11 {
        if i < 9 {
         if i < 8 {
          Table::row(-1162501200, -14400, 0, "-04")
         } else {
          Table::row(-1141329600, -14400, 3600, "-03")
         }
        } else {
         if i < 10 {
          Table::row(-1130965200, -14400, 0, "-04")
         } else {
          Table::row(-1109793600, -14400, 3600, "-03")
         }
        }
       } else {
        if i < 13 {
         if i < 12 {
          Table::row(-1099429200, -14400, 0, "-04")
         } else {
          Table::row(-1078257600, -14400, 3600, "-03")
         }
        } else {
         if i < 14 {
          Table::row(-1067806800, -14400, 0, "-04")
         } else {
          Table::row(-1046635200, -14400, 3600, "-03")
         }
        }
       }
      }
     } else {
      if i < 23 {
       if i < 19 {
        if i < 17 {
         if i < 16 {
          Table::row(-1036270800, -14400, 0, "-04")
         } else {
          Table::row(-1015099200, -14400, 3600, "-03")
         }
        } else {
         if i < 18 {
          Table::row(-1004734800, -14400, 0, "-04")
         } else {
          Table::row(-983563200, -14400, 3600, "-03")
         }
        }
       } else {
        if i < 21 {
         if i < 20 {
          Table::row(-973198800, -14400, 0, "-04")
         } else {
          Table::row(-952027200, -14400, 3600, "-03")
         }
        } else {
         if i < 22 {
          Table::row(-941576400, -14400, 0, "-04")
         } else {
          Table::row(-931032000, -14400, 3600, "-03")
         }
        }
       }
      } else {
       if i < 27 {
        if i < 25 {
         if i < 24 {
          Table::row(-900882000, -14400, 0, "-04")
         } else {
          Table::row(-890337600, -14400, 3600, "-03")
         }
        } else {
         if i < 26 {
          Table::row(-833749200, -14400, 0, "-04")
         } else {
          Table::row(-827265600, -14400, 3600, "-03")
         }
        }
       } else {
        if i < 29 {
         if i < 28 {
          Table::row(-752274000, -14400, 0, "-04")
         } else {
          Table::row(-733780800, -14400, 3600, "-03")
         }
        } else {
         if i < 30 {
          Table::row(-197326800, -14400, 0, "-04")
         } else {
          Table::row(-190843200, -14400, 3600, "-03")
         }
        }
       }
      }
     }
    } else {
     if i < 46 {
      if i < 38 {
       if i < 34 {
        if i < 32 {
         Table::row(-184194000, -14400, 0, "-04")
        } else {
         if i < 33 {
          Table::row(-164491200, -14400, 3600, "-03")
         } else {
          Table::row(-152658000, -14400, 0, "-04")
         }
        }
       } else {
        if i < 36 {
         if i < 35 {
          Table::row(-132955200, -14400, 3600, "-03")
         } else {
          Table::row(-121122000, -14400, 0, "-04")
         }
        } else {
         if i < 37 {
          Table::row(-101419200, -14400, 3600, "-03")
         } else {
          Table::row(-86821200, -14400, 0, "-04")
         }
        }
       }
      } else {
       if i < 42 {
        if i < 40 {
         if i < 39 {
          Table::row(-71092800, -14400, 3600, "-03")
         } else {
          Table::row(-54766800, -14400, 0, "-04")
         }
        } else {
         if i < 41 {
          Table::row(-39038400, -14400, 3600, "-03")
         } else {
          Table::row(-23317200, -14400, 0, "-04")
         }
        }
       } else {
        if i < 44 {
         if i < 43 {
          Table::row(-7588800, -10800, 0, "-03")
         } else {
          Table::row(128142000, -10800, 3600, "-02")
         }
        } else {
         if i < 45 {
          Table::row(136605600, -10800, 0, "-03")
         } else {
          Table::row(596948400, -10800, 3600, "-02")
         }
        }
       }
      }
     } else {
      if i < 54 {
       if i < 50 {
        if i < 48 {
         if i < 47 {
          Table::row(605066400, -10800, 0, "-03")
         } else {
          Table::row(624423600, -10800, 3600, "-02")
         }
        } else {
         if i < 49 {
          Table::row(636516000, -10800, 0, "-03")
         } else {
          Table::row(656478000, -10800, 3600, "-02")
         }
        }
       } else {
        if i < 52 {
         if i < 51 {
          Table::row(667965600, -14400, 0, "-04")
         } else {
          Table::row(687931200, -14400, 7200, "-02")
         }
        } else {
         if i < 53 {
          Table::row(699415200, -10800, 0, "-03")
         } else {
          Table::row(719377200, -10800, 3600, "-02")
         }
        }
       }
      } else {
       if i < 58 {
        if i < 56 {
         if i < 55 {
          Table::row(731469600, -10800, 0, "-03")
         } else {
          Table::row(938919600, -14400, 3600, "-03")
         }
        } else {
         if i < 57 {
          Table::row(952052400, -10800, 0, "-03")
         } else {
          Table::row(1086058800, -14400, 0, "-04")
         }
        }
       } else {
        if i < 60 {
         if i < 59 {
          Table::row(1087704000, -10800, 0, "-03")
         } else {
          Table::row(1198983600, -10800, 3600, "-02")
         }
        } else {
         if i < 61 {
          Table::row(1205632800, -10800, 0, "-03")
         } else {
          Table::row(2147483647, -10800, 0, "-03")
         }
        }
       }
      }
     }
    }
}

/// The rows of the table of the zone `America/Catamarca`.
pub open spec fn catamarca_rows() -> spec_fn(int) -> (i64, FixedTimespan) {
    |i: int| catamarca_row(i)
}

/// The table of the zone `America/Catamarca`.
pub open spec fn catamarca() -> Table {
    Table::listed(Table::row(0, -15788, 0, "LMT").1, 62, catamarca_rows())
}

/// Row `i` of the table of the zone `America/Cayenne`.
pub open spec fn cayenne_row(i: int) -> (i64, FixedTimespan) {
    if i < 1 {
     Table::row(-1846269040, -14400, 0, "-04")
    } else {
     if i < 2 {
      Table::row(-71092800, -10800, 0, "-03")
     } else {
      Table::row(2147483647, -10800, 0, "-03")
     }
    }
}

/// The rows of the table of the zone `America/Cayenne`.
pub open spec fn cayenne_rows() -> spec_fn(int) -> (i64, FixedTimespan) {
    |i: int| cayenne_row(i)
}

/// The table of the zone `America/Cayenne`.
pub open spec fn cayenne() -> Table {
    Table::listed(Table::row(0, -12560, 0, "LMT").1, 3, cayenne_rows())
}

/// Row `i` of the table of the zone `America/Cayman`.
pub open spec fn cayman_row(i: int) -> (i64, FixedTimespan) {
    if i < 1 {
     Table::row(-2524502068, -18430, 0, "KMT")
    } else {
     Table::row(-1827687170, -18000, 0, "EST")
    }
}

/// The rows of the table of the zone `America/Cayman`.
pub open spec fn cayman_rows() -> spec_fn(int) -> (i64, FixedTimespan) {
    |i: int| cayman_row(i)
}

/// The table of the zone `America/Cayman`.
pub open spec fn cayman() -> Table {
    Table::listed(Table::row(0, -19532, 0, "LMT").1, 2, cayman_rows())
}

/// Row `i` of the table of the zone `America/Chicago`.
pub open spec fn chicago_row(i: int) -> (i64, FixedTimespan) {
    if i < 118 {
     if i < 59 {
      if i < 29 {
       if i < 14 {
        if i < 7 {
         if i < 3 {
          if i < 1 {
           Table::row(-2717647200, -21600, 0, "CST")
          } else {
           if i < 2 {
            Table::row(-1633276800, -21600, 3600, "CDT")
           } else {
            Table::row(-1615136400, -21600, 0, "CST")
           }
          }
         } else {
          if i < 5 {
           if i < 4 {
            Table::row(-1601827200, -21600, 3600, "CDT")
           } else {
            Table::row(-1583686800, -21600, 0, "CST")
           }
          } else {
           if i < 6 {
            Table::row(-1563724800, -21600, 3600, "CDT")
           } else {
            Table::row(-1551632400, -21600, 0, "CST")
           }
          }
         }
        } else {
         if i < 10 {
          if i < 8 {
           Table::row(-1538928000, -21600, 3600, "CDT")
          } else {
           if i < 9 {
            Table::row(-1520182800, -21600, 0, "CST")
           } else {
            Table::row(-1504454400, -21600, 3600, "CDT")
           }
          }
         } else {
          if i < 12 {
           if i < 11 {
            Table::row(-1491757200, -21600, 0, "CST")
           } else {
            Table::row(-1473004800, -21600, 3600, "CDT")
           }
          } else {
           if i < 13 {
            Table::row(-1459702800, -21600, 0, "CST")
           } else {
            Table::row(-1441555200, -21600, 3600, "CDT")
           }
          }
         }
        }
       } else {
        if i < 21 {
         if i < 17 {
          if i < 15 {
           Table::row(-1428253200, -21600, 0, "CST")
          } else {
           if i < 16 {
            Table::row(-1410105600, -21600, 3600, "CDT")
           } else {
            Table::row(-1396803600, -21600, 0, "CST")
           }
          }
         } else {
          if i < 19 {
           if i < 18 {
            Table::row(-1378656000, -21600, 3600, "CDT")
           } else {
            Table::row(-1365354000, -21600, 0, "CST")
           }
          } else {
           if i < 20 {
            Table::row(-1347206400, -21600, 3600, "CDT")
           } else {
            Table::row(-1333904400, -21600, 0, "CST")
           }
          }
         }
        } else {
         if i < 25 {
          if i < 23 {
           if i < 22 {
            Table::row(-1315152000, -21600, 3600, "CDT")
           } else {
            Table::row(-1301850000, -21600, 0, "CST")
           }
          } else {
           if i < 24 {
            Table::row(-1283702400, -21600, 3600, "CDT")
           } else {
            Table::row(-1270400400, -21600, 0, "CST")
           }
          }
         } else {
          if i < 27 {
           if i < 26 {
            Table::row(-1252252800, -21600, 3600, "CDT")
           } else {
            Table::row(-1238950800, -21600, 0, "CST")
           }
          } else {
           if i < 28 {
            Table::row(-1220803200, -21600, 3600, "CDT")
           } else {
            Table::row(-1207501200, -21600, 0, "CST")
           }
          }
         }
        }
       }
      } else {
       if i < 44 {
        if i < 36 {
         if i < 32 {
          if i < 30 {
           Table::row(-1189353600, -21600, 3600, "CDT")
          } else {
           if i < 31 {
            Table::row(-1176051600, -21600, 0, "CST")
           } else {
            Table::row(-1157299200, -21600, 3600, "CDT")
           }
          }
         } else {
          if i < 34 {
           if i < 33 {
            Table::row(-1144602000, -21600, 0, "CST")
           } else {
            Table::row(-1125849600, -21600, 3600, "CDT")
           }
          } else {
           if i < 35 {
            Table::row(-1112547600, -21600, 0, "CST")
           } else {
            Table::row(-1094400000, -21600, 3600, "CDT")
           }
          }
         }
        } else {
         if i < 40 {
          if i < 38 {
           if i < 37 {
            Table::row(-1081098000, -21600, 0, "CST")
           } else {
            Table::row(-1067788800, -18000, 0, "EST")
           }
          } else {
           if i < 39 {
            Table::row(-1045414800, -21600, 0, "CST")
           } else {
            Table::row(-1031500800, -21600, 3600, "CDT")
           }
          }
         } else {
          if i < 42 {
           if i < 41 {
            Table::row(-1018198800, -21600, 0, "CST")
           } else {
            Table::row(-1000051200, -21600, 3600, "CDT")
           }
          } else {
           if i < 43 {
            Table::row(-986749200, -21600, 0, "CST")
           } else {
            Table::row(-967996800, -21600, 3600, "CDT")
           }
          }
         }
        }
       } else {
        if i < 51 {
         if i < 47 {
          if i < 45 {
           Table::row(-955299600, -21600, 0, "CST")
          } else {
           if i < 46 {
            Table::row(-936547200, -21600, 3600, "CDT")
           } else {
            Table::row(-923245200, -21600, 0, "CST")
           }
          }
         } else {
          if i < 49 {
           if i < 48 {
            Table::row(-905097600, -21600, 3600, "CDT")
           } else {
            Table::row(-891795600, -21600, 0, "CST")
           }
          } else {
           if i < 50 {
            Table::row(-880214400, -21600, 3600, "CWT")
           } else {
            Table::row(-769395600, -21600, 3600, "CPT")
           }
          }
         }
        } else {
         if i < 55 {
          if i < 53 {
           if i < 52 {
            Table::row(-765392400, -21600, 0, "CST")
           } else {
            Table::row(-747244800, -21600, 3600, "CDT")
           }
          } else {
           if i < 54 {
            Table::row(-733942800, -21600, 0, "CST")
           } else {
            Table::row(-715795200, -21600, 3600, "CDT")
           }
          }
         } else {
          if i < 57 {
           if i < 56 {
            Table::row(-702493200, -21600, 0, "CST")
           } else {
            Table::row(-684345600, -21600, 3600, "CDT")
           }
          } else {
           if i < 58 {
            Table::row(-671043600, -21600, 0, "CST")
           } else {
            Table::row(-652896000, -21600, 3600, "CDT")
           }
          }
         }
        }
       }
      }
     } else {
      if i < 88 {
       if i < 73 {
        if i < 66 {
         if i < 62 {
          if i < 60 {
           Table::row(-639594000, -21600, 0, "CST")
          } else {
           if i < 61 {
            Table::row(-620841600, -21600, 3600, "CDT")
           } else {
            Table::row(-608144400, -21600, 0, "CST")
           }
          }
         } else {
          if i < 64 {
           if i < 63 {
            Table::row(-589392000, -21600, 3600, "CDT")
           } else {
            Table::row(-576090000, -21600, 0, "CST")
           }
          } else {
           if i < 65 {
            Table::row(-557942400, -21600, 3600, "CDT")
           } else {
            Table::row(-544640400, -21600, 0, "CST")
           }
          }
         }
        } else {
         if i < 69 {
          if i < 67 {
           Table::row(-526492800, -21600, 3600, "CDT")
          } else {
           if i < 68 {
            Table::row(-513190800, -21600, 0, "CST")
           } else {
            Table::row(-495043200, -21600, 3600, "CDT")
           }
          }
         } else {
          if i < 71 {
           if i < 70 {
            Table::row(-481741200, -21600, 0, "CST")
           } else {
            Table::row(-463593600, -21600, 3600, "CDT")
           }
          } else {
           if i < 72 {
            Table::row(-447267600, -21600, 0, "CST")
           } else {
            Table::row(-431539200, -21600, 3600, "CDT")
           }
          }
         }
        }
       } else {
        if i < 80 {
         if i < 76 {
          if i < 74 {
           Table::row(-415818000, -21600, 0, "CST")
          } else {
           if i < 75 {
            Table::row(-400089600, -21600, 3600, "CDT")
           } else {
            Table::row(-384368400, -21600, 0, "CST")
           }
          }
         } else {
          if i < 78 {
           if i < 77 {
            Table::row(-368640000, -21600, 3600, "CDT")
           } else {
            Table::row(-352918800, -21600, 0, "CST")
           }
          } else {
           if i < 79 {
            Table::row(-337190400, -21600, 3600, "CDT")
           } else {
            Table::row(-321469200, -21600, 0, "CST")
           }
          }
         }
        } else {
         if i < 84 {
          if i < 82 {
           if i < 81 {
            Table::row(-305740800, -21600, 3600, "CDT")
           } else {
            Table::row(-289414800, -21600, 0, "CST")
           }
          } else {
           if i < 83 {
            Table::row(-273686400, -21600, 3600, "CDT")
           } else {
            Table::row(-257965200, -21600, 0, "CST")
           }
          }
         } else {
          if i < 86 {
           if i < 85 {
            Table::row(-242236800, -21600, 3600, "CDT")
           } else {
            Table::row(-226515600, -21600, 0, "CST")
           }
          } else {
           if i < 87 {
            Table::row(-210787200, -21600, 3600, "CDT")
           } else {
            Table::row(-195066000, -21600, 0, "CST")
           }
          }
         }
        }
       }
      } else {
       if i < 103 {
        if i < 95 {
         if i < 91 {
          if i < 89 {
           Table::row(-179337600, -21600, 3600, "CDT")
          } else {
           if i < 90 {
            Table::row(-163616400, -21600, 0, "CST")
           } else {
            Table::row(-147888000, -21600, 3600, "CDT")
           }
          }
         } else {
          if i < 93 {
           if i < 92 {
            Table::row(-131562000, -21600, 0, "CST")
           } else {
            Table::row(-116438400, -21600, 3600, "CDT")
           }
          } else {
           if i < 94 {
            Table::row(-100112400, -21600, 0, "CST")
           } else {
            Table::row(-84384000, -21600, 3600, "CDT")
           }
          }
         }
        } else {
         if i < 99 {
          if i < 97 {
           if i < 96 {
            Table::row(-68662800, -21600, 0, "CST")
           } else {
            Table::row(-52934400, -21600, 3600, "CDT")
           }
          } else {
           if i < 98 {
            Table::row(-37213200, -21600, 0, "CST")
           } else {
            Table::row(-21484800, -21600, 3600, "CDT")
           }
          }
         } else {
          if i < 101 {
           if i < 100 {
            Table::row(-5763600, -21600, 0, "CST")
           } else {
            Table::row(9964800, -21600, 3600, "CDT")
           }
          } else {
           if i < 102 {
            Table::row(25686000, -21600, 0, "CST")
           } else {
            Table::row(41414400, -21600, 3600, "CDT")
           }
          }
         }
        }
       } else {
        if i < 110 {
         if i < 106 {
          if i < 104 {
           Table::row(57740400, -21600, 0, "CST")
          } else {
           if i < 105 {
            Table::row(73468800, -21600, 3600, "CDT")
           } else {
            Table::row(89190000, -21600, 0, "CST")
           }
          }
         } else {
          if i < 108 {
           if i < 107 {
            Table::row(104918400, -21600, 3600, "CDT")
           } else {
            Table::row(120639600, -21600, 0, "CST")
           }
          } else {
           if i < 109 {
            Table::row(126691200, -21600, 3600, "CDT")
           } else {
            Table::row(152089200, -21600, 0, "CST")
           }
          }
         }
        } else {
         if i < 114 {
          if i < 112 {
           if i < 111 {
            Table::row(162374400, -21600, 3600, "CDT")
           } else {
            Table::row(183538800, -21600, 0, "CST")
           }
          } else {
           if i < 113 {
            Table::row(199267200, -21600, 3600, "CDT")
           } else {
            Table::row(215593200, -21600, 0, "CST")
           }
          }
         } else {
          if i < 116 {
           if i < 115 {
            Table::row(230716800, -21600, 3600, "CDT")
           } else {
            Table::row(247042800, -21600, 0, "CST")
           }
          } else {
           if i < 117 {
            Table::row(262771200, -21600, 3600, "CDT")
           } else {
            Table::row(278492400, -21600, 0, "CST")
           }
          }
         }
        }
       }
      }
     }
    } else {
     if i < 177 {
      if i < 147 {
       if i < 132 {
        if i < 125 {
         if i < 121 {
          if i < 119 {
           Table::row(294220800, -21600, 3600, "CDT")
          } else {
           if i < 120 {
            Table::row(309942000, -21600, 0, "CST")
           } else {
            Table::row(325670400, -21600, 3600, "CDT")
           }
          }
         } else {
          if i < 123 {
           if i < 122 {
            Table::row(341391600, -21600, 0, "CST")
           } else {
            Table::row(357120000, -21600, 3600, "CDT")
           }
          } else {
           if i < 124 {
            Table::row(372841200, -21600, 0, "CST")
           } else {
            Table::row(388569600, -21600, 3600, "CDT")
           }
          }
         }
        } else {
         if i < 128 {
          if i < 126 {
           Table::row(404895600, -21600, 0, "CST")
          } else {
           if i < 127 {
            Table::row(420019200, -21600, 3600, "CDT")
           } else {
            Table::row(436345200, -21600, 0, "CST")
           }
          }
         } else {
          if i < 130 {
           if i < 129 {
            Table::row(452073600, -21600, 3600, "CDT")
           } else {
            Table::row(467794800, -21600, 0, "CST")
           }
          } else {
           if i < 131 {
            Table::row(483523200, -21600, 3600, "CDT")
           } else {
            Table::row(499244400, -21600, 0, "CST")
           }
          }
         }
        }
       } else {
        if i < 139 {
         if i < 135 {
          if i < 133 {
           Table::row(514972800, -21600, 3600, "CDT")
          } else {
           if i < 134 {
            Table::row(530694000, -21600, 0, "CST")
           } else {
            Table::row(544608000, -21600, 3600, "CDT")
           }
          }
         } else {
          if i < 137 {
           if i < 136 {
            Table::row(562143600, -21600, 0, "CST")
           } else {
            Table::row(576057600, -21600, 3600, "CDT")
           }
          } else {
           if i < 138 {
            Table::row(594198000, -21600, 0, "CST")
           } else {
            Table::row(607507200, -21600, 3600, "CDT")
           }
          }
         }
        } else {
         if i < 143 {
          if i < 141 {
           if i < 140 {
            Table::row(625647600, -21600, 0, "CST")
           } else {
            Table::row(638956800, -21600, 3600, "CDT")
           }
          } else {
           if i < 142 {
            Table::row(657097200, -21600, 0, "CST")
           } else {
            Table::row(671011200, -21600, 3600, "CDT")
           }
          }
         } else {
          if i < 145 {
           if i < 144 {
            Table::row(688546800, -21600, 0, "CST")
           } else {
            Table::row(702460800, -21600, 3600, "CDT")
           }
          } else {
           if i < 146 {
            Table::row(719996400, -21600, 0, "CST")
           } else {
            Table::row(733910400, -21600, 3600, "CDT")
           }
          }
         }
        }
       }
      } else {
       if i < 162 {
        if i < 154 {
         if i < 150 {
          if i < 148 {
           Table::row(752050800, -21600, 0, "CST")
          } else {
           if i < 149 {
            Table::row(765360000, -21600, 3600, "CDT")
           } else {
            Table::row(783500400, -21600, 0, "CST")
           }
          }
         } else {
          if i < 152 {
           if i < 151 {
            Table::row(796809600, -21600, 3600, "CDT")
           } else {
            Table::row(814950000, -21600, 0, "CST")
           }
          } else {
           if i < 153 {
            Table::row(828864000, -21600, 3600, "CDT")
           } else {
            Table::row(846399600, -21600, 0, "CST")
           }
          }
         }
        } else {
         if i < 158 {
          if i < 156 {
           if i < 155 {
            Table::row(860313600, -21600, 3600, "CDT")
           } else {
            Table::row(877849200, -21600, 0, "CST")
           }
          } else {
           if i < 157 {
            Table::row(891763200, -21600, 3600, "CDT")
           } else {
            Table::row(909298800, -21600, 0, "CST")
           }
          }
         } else {
          if i < 160 {
           if i < 159 {
            Table::row(923212800, -21600, 3600, "CDT")
           } else {
            Table::row(941353200, -21600, 0, "CST")
           }
          } else {
           if i < 161 {
            Table::row(954662400, -21600, 3600, "CDT")
           } else {
            Table::row(972802800, -21600, 0, "CST")
           }
          }
         }
        }
       } else {
        if i < 169 {
         if i < 165 {
          if i < 163 {
           Table::row(986112000, -21600, 3600, "CDT")
          } else {
           if i < 164 {
            Table::row(1004252400, -21600, 0, "CST")
           } else {
            Table::row(1018166400, -21600, 3600, "CDT")
           }
          }
         } else {
          if i < 167 {
           if i < 166 {
            Table::row(1035702000, -21600, 0, "CST")
           } else {
            Table::row(1049616000, -21600, 3600, "CDT")
           }
          } else {
           if i < 168 {
            Table::row(1067151600, -21600, 0, "CST")
           } else {
            Table::row(1081065600, -21600, 3600, "CDT")
           }
          }
         }
        } else {
         if i < 173 {
          if i < 171 {
           if i < 170 {
            Table::row(1099206000, -21600, 0, "CST")
           } else {
            Table::row(1112515200, -21600, 3600, "CDT")
           }
          } else {
           if i < 172 {
            Table::row(1130655600, -21600, 0, "CST")
           } else {
            Table::row(1143964800, -21600, 3600, "CDT")
           }
          }
         } else {
          if i < 175 {
           if i < 174 {
            Table::row(1162105200, -21600, 0, "CST")
           } else {
            Table::row(1173600000, -21600, 3600, "CDT")
           }
          } else {
           if i < 176 {
            Table::row(1194159600, -21600, 0, "CST")
           } else {
            Table::row(1205049600, -21600, 3600, "CDT")
           }
          }
         }
        }
       }
      }
     } else {
      if i < 206 {
       if i < 191 {
        if i < 184 {
         if i < 180 {
          if i < 178 {
           Table::row(1225609200, -21600, 0, "CST")
          } else {
           if i < 179 {
            Table::row(1236499200, -21600, 3600, "CDT")
           } else {
            Table::row(1257058800, -21600, 0, "CST")
           }
          }
         } else {
          if i < 182 {
           if i < 181 {
            Table::row(1268553600, -21600, 3600, "CDT")
           } else {
            Table::row(1289113200, -21600, 0, "CST")
           }
          } else {
           if i < 183 {
            Table::row(1300003200, -21600, 3600, "CDT")
           } else {
            Table::row(1320562800, -21600, 0, "CST")
           }
          }
         }
        } else {
         if i < 187 {
          if i < 185 {
           Table::row(1331452800, -21600, 3600, "CDT")
          } else {
           if i < 186 {
            Table::row(1352012400, -21600, 0, "CST")
           } else {
            Table::row(1362902400, -21600, 3600, "CDT")
           }
          }
         } else {
          if i < 189 {
           if i < 188 {
            Table::row(1383462000, -21600, 0, "CST")
           } else {
            Table::row(1394352000, -21600, 3600, "CDT")
           }
          } else {
           if i < 190 {
            Table::row(1414911600, -21600, 0, "CST")
           } else {
            Table::row(1425801600, -21600, 3600, "CDT")
           }
          }
         }
        }
       } else {
        if i < 198 {
         if i < 194 {
          if i < 192 {
           Table::row(1446361200, -21600, 0, "CST")
          } else {
           if i < 193 {
            Table::row(1457856000, -21600, 3600, "CDT")
           } else {
            Table::row(1478415600, -21600, 0, "CST")
           }
          }
         } else {
          if i < 196 {
           if i < 195 {
            Table::row(1489305600, -21600, 3600, "CDT")
           } else {
            Table::row(1509865200, -21600, 0, "CST")
           }
          } else {
           if i < 197 {
            Table::row(1520755200, -21600, 3600, "CDT")
           } else {
            Table::row(1541314800, -21600, 0, "CST")
           }
          }
         }
        } else {
         if i < 202 {
          if i < 200 {
           if i < 199 {
            Table::row(1552204800, -21600, 3600, "CDT")
           } else {
            Table::row(1572764400, -21600, 0, "CST")
           }
          } else {
           if i < 201 {
            Table::row(1583654400, -21600, 3600, "CDT")
           } else {
            Table::row(1604214000, -21600, 0, "CST")
           }
          }
         } else {
          if i < 204 {
           if i < 203 {
            Table::row(1615708800, -21600, 3600, "CDT")
           } else {
            Table::row(1636268400, -21600, 0, "CST")
           }
          } else {
           if i < 205 {
            Table::row(1647158400, -21600, 3600, "CDT")
           } else {
            Table::row(1667718000, -21600, 0, "CST")
           }
          }
         }
        }
       }
      } else {
       if i < 221 {
        if i < 213 {
         if i < 209 {
          if i < 207 {
           Table::row(1678608000, -21600, 3600, "CDT")
          } else {
           if i < 208 {
            Table::row(1699167600, -21600, 0, "CST")
           } else {
            Table::row(1710057600, -21600, 3600, "CDT")
           }
          }
         } else {
          if i < 211 {
           if i < 210 {
            Table::row(1730617200, -21600, 0, "CST")
           } else {
            Table::row(1741507200, -21600, 3600, "CDT")
           }
          } else {
           if i < 212 {
            Table::row(1762066800, -21600, 0, "CST")
           } else {
            Table::row(1772956800, -21600, 3600, "CDT")
           }
          }
         }
        } else {
         if i < 217 {
          if i < 215 {
           if i < 214 {
            Table::row(1793516400, -21600, 0, "CST")
           } else {
            Table::row(1805011200, -21600, 3600, "CDT")
           }
          } else {
           if i < 216 {
            Table::row(1825570800, -21600, 0, "CST")
           } else {
            Table::row(1836460800, -21600, 3600, "CDT")
           }
          }
         } else {
          if i < 219 {
           if i < 218 {
            Table::row(1857020400, -21600, 0, "CST")
           } else {
            Table::row(1867910400, -21600, 3600, "CDT")
           }
          } else {
           if i < 220 {
            Table::row(1888470000, -21600, 0, "CST")
           } else {
            Table::row(1899360000, -21600, 3600, "CDT")
           }
          }
         }
        }
       } else {
        if i < 228 {
         if i < 224 {
          if i < 222 {
           Table::row(1919919600, -21600, 0, "CST")
          } else {
           if i < 223 {
            Table::row(1930809600, -21600, 3600, "CDT")
           } else {
            Table::row(1951369200, -21600, 0, "CST")
           }
          }
         } else {
          if i < 226 {
           if i < 225 {
            Table::row(1962864000, -21600, 3600, "CDT")
           } else {
            Table::row(1983423600, -21600, 0, "CST")
           }
          } else {
           if i < 227 {
            Table::row(1994313600, -21600, 3600, "CDT")
           } else {
            Table::row(2014873200, -21600, 0, "CST")
           }
          }
         }
        } else {
         if i < 232 {
          if i < 230 {
           if i < 229 {
            Table::row(2025763200, -21600, 3600, "CDT")
           } else {
            Table::row(2046322800, -21600, 0, "CST")
           }
          } else {
           if i < 231 {
            Table::row(2057212800, -21600, 3600, "CDT")
           } else {
            Table::row(2077772400, -21600, 0, "CST")
           }
          }
         } else {
          if i < 234 {
           if i < 233 {
            Table::row(2088662400, -21600, 3600, "CDT")
           } else {
            Table::row(2109222000, -21600, 0, "CST")
           }
          } else {
           if i < 235 {
            Table::row(2120112000, -21600, 3600, "CDT")
           } else {
            Table::row(2140671600, -21600, 0, "CST")
           }
          }
         }
        }
       }
      }
     }
    }
}

/// The rows of the table of the zone `America/Chicago`.
pub open spec fn chicago_rows() -> spec_fn(int) -> (i64, FixedTimespan) {
    |i: int| chicago_row(i)
}

/// The table of the zone `America/Chicago`.
pub open spec fn chicago() -> Table {
    Table::listed(Table::row(0, -21036, 0, "LMT").1, 236, chicago_rows())
}

/// Row `i` of the table of the zone `America/Chihuahua`.
pub open spec fn chihuahua_row(i: int) -> (i64, FixedTimespan) {
    if i < 30 {
     if i < 15 {
      if i < 7 {
       if i < 3 {
        if i < 1 {
         Table::row(-1514739600, -25200, 0, "MST")
        } else {
         if i < 2 {
          Table::row(-1343149200, -21600, 0, "CST")
         } else {
          Table::row(-1234807200, -25200, 0, "MST")
         }
        }
       } else {
        if i < 5 {
         if i < 4 {
          Table::row(-1220461200, -25200, 3600, "MDT")
         } else {
          Table::row(-1207159200, -25200, 0, "MST")
         }
        } else {
         if i < 6 {
          Table::row(-1191344400, -21600, 0, "CST")
         } else {
          Table::row(828864000, -21600, 3600, "CDT")
         }
        }
       }
      } else {
       if i < 11 {
        if i < 9 {
         if i < 8 {
          Table::row(846399600, -21600, 0, "CST")
         } else {
          Table::row(860313600, -21600, 3600, "CDT")
         }
        } else {
         if i < 10 {
          Table::row(877849200, -21600, 0, "CST")
         } else {
          Table::row(891766800, -25200, 3600, "MDT")
         }
        }
       } else {
        if i < 13 {
         if i < 12 {
          Table::row(909302400, -25200, 0, "MST")
         } else {
          Table::row(923216400, -25200, 3600, "MDT")
         }
        } else {
         if i < 14 {
          Table::row(941356800, -25200, 0, "MST")
         } else {
          Table::row(954666000, -25200, 3600, "MDT")
         }
        }
       }
      }
     } else {
      if i < 22 {
       if i < 18 {
        if i < 16 {
         Table::row(972806400, -25200, 0, "MST")
        } else {
         if i < 17 {
          Table::row(989139600, -25200, 3600, "MDT")
         } else {
          Table::row(1001836800, -25200, 0, "MST")
         }
        }
       } else {
        if i < 20 {
         if i < 19 {
          Table::row(1018170000, -25200, 3600, "MDT")
         } else {
          Table::row(1035705600, -25200, 0, "MST")
         }
        } else {
         if i < 21 {
          Table::row(1049619600, -25200, 3600, "MDT")
         } else {
          Table::row(1067155200, -25200, 0, "MST")
         }
        }
       }
      } else {
       if i < 26 {
        if i < 24 {
         if i < 23 {
          Table::row(1081069200, -25200, 3600, "MDT")
         } else {
          Table::row(1099209600, -25200, 0, "MST")
         }
        } else {
         if i < 25 {
          Table::row(1112518800, -25200, 3600, "MDT")
         } else {
          Table::row(1130659200, -25200, 0, "MST")
         }
        }
       } else {
        if i < 28 {
         if i < 27 {
          Table::row(1143968400, -25200, 3600, "MDT")
         } else {
          Table::row(1162108800, -25200, 0, "MST")
         }
        } else {
         if i < 29 {
          Table::row(1175418000, -25200, 3600, "MDT")
         } else {
          Table::row(1193558400, -25200, 0, "MST")
         }
        }
       }
      }
     }
    } else {
     if i < 45 {
      if i < 37 {
       if i < 33 {
        if i < 31 {
         Table::row(1207472400, -25200, 3600, "MDT")
        } else {
         if i < 32 {
          Table::row(1225008000, -25200, 0, "MST")
         } else {
          Table::row(1238922000, -25200, 3600, "MDT")
         }
        }
       } else {
        if i < 35 {
         if i < 34 {
          Table::row(1256457600, -25200, 0, "MST")
         } else {
          Table::row(1270371600, -25200, 3600, "MDT")
         }
        } else {
         if i < 36 {
          Table::row(1288512000, -25200, 0, "MST")
         } else {
          Table::row(1301821200, -25200, 3600, "MDT")
         }
        }
       }
      } else {
       if i < 41 {
        if i < 39 {
         if i < 38 {
          Table::row(1319961600, -25200, 0, "MST")
         } else {
          Table::row(1333270800, -25200, 3600, "MDT")
         }
        } else {
         if i < 40 {
          Table::row(1351411200, -25200, 0, "MST")
         } else {
          Table::row(1365325200, -25200, 3600, "MDT")
         }
        }
       } else {
        if i < 43 {
         if i < 42 {
          Table::row(1382860800, -25200, 0, "MST")
         } else {
          Table::row(1396774800, -25200, 3600, "MDT")
         }
        } else {
         if i < 44 {
          Table::row(1414310400, -25200, 0, "MST")
         } else {
          Table::row(1428224400, -25200, 3600, "MDT")
         }
        }
       }
      }
     } else {
      if i < 52 {
       if i < 48 {
        if i < 46 {
         Table::row(1445760000, -25200, 0, "MST")
        } else {
         if i < 47 {
          Table::row(1459674000, -25200, 3600, "MDT")
         } else {
          Table::row(1477814400, -25200, 0, "MST")
         }
        }
       } else {
        if i < 50 {
         if i < 49 {
          Table::row(1491123600, -25200, 3600, "MDT")
         } else {
          Table::row(1509264000, -25200, 0, "MST")
         }
        } else {
         if i < 51 {
          Table::row(1522573200, -25200, 3600, "MDT")
         } else {
          Table::row(1540713600, -25200, 0, "MST")
         }
        }
       }
      } else {
       if i < 56 {
        if i < 54 {
         if i < 53 {
          Table::row(1554627600, -25200, 3600, "MDT")
         } else {
          Table::row(1572163200, -25200, 0, "MST")
         }
        } else {
         if i < 55 {
          Table::row(1586077200, -25200, 3600, "MDT")
         } else {
          Table::row(1603612800, -25200, 0, "MST")
         }
        }
       } else {
        if i < 58 {
         if i < 57 {
          Table::row(1617526800, -25200, 3600, "MDT")
         } else {
          Table::row(1635667200, -25200, 0, "MST")
         }
        } else {
         if i < 59 {
          Table::row(1648976400, -25200, 3600, "MDT")
         } else {
          Table::row(1667116800, -21600, 0, "CST")
         }
        }
       }
      }
     }
    }
}

/// The rows of the table of the zone `America/Chihuahua`.
pub open spec fn chihuahua_rows() -> spec_fn(int) -> (i64, FixedTimespan) {
    |i: int| chihuahua_row(i)
}

/// The table of the zone `America/Chihuahua`.
pub open spec fn chihuahua() -> Table {
    Table::listed(Table::row(0, -25460, 0, "LMT").1, 60, chihuahua_rows())
}

/// Row `i` of the table of the zone `America/Ciudad_Juarez`.
pub open spec fn ciudad_juarez_row(i: int) -> (i64, FixedTimespan) {
    if i < 45 {
     if i < 22 {
      if i < 11 {
       if i < 5 {
        if i < 2 {
         if i < 1 {
          Table::row(-1514739600, -25200, 0, "MST")
         } else {
          Table::row(-1343149200, -21600, 0, "CST")
         }
        } else {
         if i < 3 {
          Table::row(-1234807200, -25200, 0, "MST")
         } else {
          if i < 4 {
           Table::row(-1220461200, -25200, 3600, "MDT")
          } else {
           Table::row(-1207159200, -25200, 0, "MST")
          }
         }
        }
       } else {
        if i < 8 {
         if i < 6 {
          Table::row(-1191344400, -21600, 0, "CST")
         } else {
          if i < 7 {
           Table::row(828864000, -21600, 3600, "CDT")
          } else {
           Table::row(846399600, -21600, 0, "CST")
          }
         }
        } else {
         if i < 9 {
          Table::row(860313600, -21600, 3600, "CDT")
         } else {
          if i < 10 {
           Table::row(877849200, -21600, 0, "CST")
          } else {
           Table::row(891766800, -25200, 3600, "MDT")
          }
         }
        }
       }
      } else {
       if i < 16 {
        if i < 13 {
         if i < 12 {
          Table::row(909302400, -25200, 0, "MST")
         } else {
          Table::row(923216400, -25200, 3600, "MDT")
         }
        } else {
         if i < 14 {
          Table::row(941356800, -25200, 0, "MST")
         } else {
          if i < 15 {
           Table::row(954666000, -25200, 3600, "MDT")
          } else {
           Table::row(972806400, -25200, 0, "MST")
          }
         }
        }
       } else {
        if i < 19 {
         if i < 17 {
          Table::row(989139600, -25200, 3600, "MDT")
         } else {
          if i < 18 {
           Table::row(1001836800, -25200, 0, "MST")
          } else {
           Table::row(1018170000, -25200, 3600, "MDT")
          }
         }
        } else {
         if i < 20 {
          Table::row(1035705600, -25200, 0, "MST")
         } else {
          if i < 21 {
           Table::row(1049619600, -25200, 3600, "MDT")
          } else {
           Table::row(1067155200, -25200, 0, "MST")
          }
         }
        }
       }
      }
     } else {
      if i < 33 {
       if i < 27 {
        if i < 24 {
         if i < 23 {
          Table::row(1081069200, -25200, 3600, "MDT")
         } else {
          Table::row(1099209600, -25200, 0, "MST")
         }
        } else {
         if i < 25 {
          Table::row(1112518800, -25200, 3600, "MDT")
         } else {
          if i < 26 {
           Table::row(1130659200, -25200, 0, "MST")
          } else {
           Table::row(1143968400, -25200, 3600, "MDT")
          }
         }
        }
       } else {
        if i < 30 {
         if i < 28 {
          Table::row(1162108800, -25200, 0, "MST")
         } else {
          if i < 29 {
           Table::row(1175418000, -25200, 3600, "MDT")
          } else {
           Table::row(1193558400, -25200, 0, "MST")
          }
         }
        } else {
         if i < 31 {
          Table::row(1207472400, -25200, 3600, "MDT")
         } else {
          if i < 32 {
           Table::row(1225008000, -25200, 0, "MST")
          } else {
           Table::row(1238922000, -25200, 3600, "MDT")
          }
         }
        }
       }
      } else {
       if i < 39 {
        if i < 36 {
         if i < 34 {
          Table::row(1256457600, -25200, 0, "MST")
         } else {
          if i < 35 {
           Table::row(1268557200, -25200, 3600, "MDT")
          } else {
           Table::row(1289116800, -25200, 0, "MST")
          }
         }
        } else {
         if i < 37 {
          Table::row(1300006800, -25200, 3600, "MDT")
         } else {
          if i < 38 {
           Table::row(1320566400, -25200, 0, "MST")
          } else {
           Table::row(1331456400, -25200, 3600, "MDT")
          }
         }
        }
       } else {
        if i < 42 {
         if i < 40 {
          Table::row(1352016000, -25200, 0, "MST")
         } else {
          if i < 41 {
           Table::row(1362906000, -25200, 3600, "MDT")
          } else {
           Table::row(1383465600, -25200, 0, "MST")
          }
         }
        } else {
         if i < 43 {
          Table::row(1394355600, -25200, 3600, "MDT")
         } else {
          if i < 44 {
           Table::row(1414915200, -25200, 0, "MST")
          } else {
           Table::row(1425805200, -25200, 3600, "MDT")
          }
         }
        }
       }
      }
     }
    } else {
     if i < 68 {
      if i < 56 {
       if i < 50 {
        if i < 47 {
         if i < 46 {
          Table::row(1446364800, -25200, 0, "MST")
         } else {
          Table::row(1457859600, -25200, 3600, "MDT")
         }
        } else {
         if i < 48 {
          Table::row(1478419200, -25200, 0, "MST")
         } else {
          if i < 49 {
           Table::row(1489309200, -25200, 3600, "MDT")
          } else {
           Table::row(1509868800, -25200, 0, "MST")
          }
         }
        }
       } else {
        if i < 53 {
         if i < 51 {
          Table::row(1520758800, -25200, 3600, "MDT")
         } else {
          if i < 52 {
           Table::row(1541318400, -25200, 0, "MST")
          } else {
           Table::row(1552208400, -25200, 3600, "MDT")
          }
         }
        } else {
         if i < 54 {
          Table::row(1572768000, -25200, 0, "MST")
         } else {
          if i < 55 {
           Table::row(1583658000, -25200, 3600, "MDT")
          } else {
           Table::row(1604217600, -25200, 0, "MST")
          }
         }
        }
       }
      } else {
       if i < 62 {
        if i < 59 {
         if i < 57 {
          Table::row(1615712400, -25200, 3600, "MDT")
         } else {
          if i < 58 {
           Table::row(1636272000, -25200, 0, "MST")
          } else {
           Table::row(1647162000, -25200, 3600, "MDT")
          }
         }
        } else {
         if i < 60 {
          Table::row(1667116800, -21600, 0, "CST")
         } else {
          if i < 61 {
           Table::row(1669788000, -25200, 0, "MST")
          } else {
           Table::row(1678611600, -25200, 3600, "MDT")
          }
         }
        }
       } else {
        if i < 65 {
         if i < 63 {
          Table::row(1699171200, -25200, 0, "MST")
         } else {
          if i < 64 {
           Table::row(1710061200, -25200, 3600, "MDT")
          } else {
           Table::row(1730620800, -25200, 0, "MST")
          }
         }
        } else {
         if i < 66 {
          Table::row(1741510800, -25200, 3600, "MDT")
         } else {
          if i < 67 {
           Table::row(1762070400, -25200, 0, "MST")
          } else {
           Table::row(1772960400, -25200, 3600, "MDT")
          }
         }
        }
       }
      }
     } else {
      if i < 79 {
       if i < 73 {
        if i < 70 {
         if i < 69 {
          Table::row(1793520000, -25200, 0, "MST")
         } else {
          Table::row(1805014800, -25200, 3600, "MDT")
         }
        } else {
         if i < 71 {
          Table::row(1825574400, -25200, 0, "MST")
         } else {
          if i < 72 {
           Table::row(1836464400, -25200, 3600, "MDT")
          } else {
           Table::row(1857024000, -25200, 0, "MST")
          }
         }
        }
       } else {
        if i < 76 {
         if i < 74 {
          Table::row(1867914000, -25200, 3600, "MDT")
         } else {
          if i < 75 {
           Table::row(1888473600, -25200, 0, "MST")
          } else {
           Table::row(1899363600, -25200, 3600, "MDT")
          }
         }
        } else {
         if i < 77 {
          Table::row(1919923200, -25200, 0, "MST")
         } else {
          if i < 78 {
           Table::row(1930813200, -25200, 3600, "MDT")
          } else {
           Table::row(1951372800, -25200, 0, "MST")
          }
         }
        }
       }
      } else {
       if i < 85 {
        if i < 82 {
         if i < 80 {
          Table::row(1962867600, -25200, 3600, "MDT")
         } else {
          if i < 81 {
           Table::row(1983427200, -25200, 0, "MST")
          } else {
           Table::row(1994317200, -25200, 3600, "MDT")
          }
         }
        } else {
         if i < 83 {
          Table::row(2014876800, -25200, 0, "MST")
         } else {
          if i < 84 {
           Table::row(2025766800, -25200, 3600, "MDT")
          } else {
           Table::row(2046326400, -25200, 0, "MST")
          }
         }
        }
       } else {
        if i < 88 {
         if i < 86 {
          Table::row(2057216400, -25200, 3600, "MDT")
         } else {
          if i < 87 {
           Table::row(2077776000, -25200, 0, "MST")
          } else {
           Table::row(2088666000, -25200, 3600, "MDT")
          }
         }
        } else {
         if i < 89 {
          Table::row(2109225600, -25200, 0, "MST")
         } else {
          if i < 90 {
           Table::row(2120115600, -25200, 3600, "MDT")
          } else {
           Table::row(2140675200, -25200, 0, "MST")
          }
         }
        }
       }
      }
     }
    }
}

/// The rows of the table of the zone `America/Ciudad_Juarez`.
pub open spec fn ciudad_juarez_rows() -> spec_fn(int) -> (i64, FixedTimespan) {
    |i: int| ciudad_juarez_row(i)
}

/// The table of the zone `America/Ciudad_Juarez`.
pub open spec fn ciudad_juarez() -> Table {
    Table::listed(Table::row(0, -25556, 0, "LMT").1, 91, ciudad_juarez_rows())
}

/// Row `i` of the table of the zone `America/Coral_Harbour`.
pub open spec fn coral_harbour_row(i: int) -> (i64, FixedTimespan) {
    if i < 1 {
     Table::row(-2524502512, -19176, 0, "CMT")
    } else {
     Table::row(-1946918424, -18000, 0, "EST")
    }
}

/// The rows of the table of the zone `America/Coral_Harbour`.
pub open spec fn coral_harbour_rows() -> spec_fn(int) -> (i64, FixedTimespan) {
    |i: int| coral_harbour_row(i)
}

/// The table of the zone `America/Coral_Harbour`.
pub open spec fn coral_harbour() -> Table {
    Table::listed(Table::row(0, -19088, 0, "LMT").1, 2, coral_harbour_rows())
}

/// Row `i` of the table of the zone `America/Cordoba`.
pub open spec fn cordoba_row(i: int) -> (i64, FixedTimespan) {
    if i < 31 {
     if i < 15 {
      if i < 7 {
       if i < 3 {
        if i < 1 {
         Table::row(-2372096592, -15408, 0, "CMT")
        } else {
         if i < 2 {
          Table::row(-1567453392, -14400, 0, "-04")
         } else {
          Table::row(-1233432000, -14400, 3600, "-03")
         }
        }
       } else {
        if i < 5 {
         if i < 4 {
          Table::row(-1222981200, -14400, 0, "-04")
         } else {
          Table::row(-1205956800, -14400, 3600, "-03")
         }
        } else {
         if i < 6 {
          Table::row(-1194037200, -14400, 0, "-04")
         } else {
          Table::row(-1172865600, -14400, 3600, "-03")
         }
        }
       }
      } else {
       if i < 11 {
        if i < 9 {
         if i < 8 {
          Table::row(-1162501200, -14400, 0, "-04")
         } else {
          Table::row(-1141329600, -14400, 3600, "-03")
         }
        } else {
         if i < 10 {
          Table::row(-1130965200, -14400, 0, "-04")
         } else {
          Table::row(-1109793600, -14400, 3600, "-03")
         }
        }
       } else {
        if i < 13 {
         if i < 12 {
          Table::row(-1099429200, -14400, 0, "-04")
         } else {
          Table::row(-1078257600, -14400, 3600, "-03")
         }
        } else {
         if i < 14 {
          Table::row(-1067806800, -14400, 0, "-04")
         } else {
          Table::row(-1046635200, -14400, 3600, "-03")
         }
        }
       }
      }
     } else {
      if i < 23 {
       if i < 19 {
        if i < 17 {
         if i < 16 {
          Table::row(-1036270800, -14400, 0, "-04")
         } else {
          Table::row(-1015099200, -14400, 3600, "-03")
         }
        } else {
         if i < 18 {
          Table::row(-1004734800, -14400, 0, "-04")
         } else {
          Table::row(-983563200, -14400, 3600, "-03")
         }
        }
       } else {
        if i < 21 {
         if i < 20 {
          Table::row(-973198800, -14400, 0, "-04")
         } else {
          Table::row(-952027200, -14400, 3600, "-03")
         }
        } else {
         if i < 22 {
          Table::row(-941576400, -14400, 0, "-04")
         } else {
          Table::row(-931032000, -14400, 3600, "-03")
         }
        }
       }
      } else {
       if i < 27 {
        if i < 25 {
         if i < 24 {
          Table::row(-900882000, -14400, 0, "-04")
         } else {
          Table::row(-890337600, -14400, 3600, "-03")
         }
        } else {
         if i < 26 {
          Table::row(-833749200, -14400, 0, "-04")
         } else {
          Table::row(-827265600, -14400, 3600, "-03")
         }
        }
       } else {
        if i < 29 {
         if i < 28 {
          Table::row(-752274000, -14400, 0, "-04")
         } else {
          Table::row(-733780800, -14400, 3600, "-03")
         }
        } else {
         if i < 30 {
          Table::row(-197326800, -14400, 0, "-04")
         } else {
          Table::row(-190843200, -14400, 3600, "-03")
         }
        }
       }
      }
     }
    } else {
     if i < 46 {
      if i < 38 {
       if i < 34 {
        if i < 32 {
         Table::row(-184194000, -14400, 0, "-04")
        } else {
         if i < 33 {
          Table::row(-164491200, -14400, 3600, "-03")
         } else {
          Table::row(-152658000, -14400, 0, "-04")
         }
        }
       } else {
        if i < 36 {
         if i < 35 {
          Table::row(-132955200, -14400, 3600, "-03")
         } else {
          Table::row(-121122000, -14400, 0, "-04")
         }
        } else {
         if i < 37 {
          Table::row(-101419200, -14400, 3600, "-03")
         } else {
          Table::row(-86821200, -14400, 0, "-04")
         }
        }
       }
      } else {
       if i < 42 {
        if i < 40 {
         if i < 39 {
          Table::row(-71092800, -14400, 3600, "-03")
         } else {
          Table::row(-54766800, -14400, 0, "-04")
         }
        } else {
         if i < 41 {
          Table::row(-39038400, -14400, 3600, "-03")
         } else {
          Table::row(-23317200, -14400, 0, "-04")
         }
        }
       } else {
        if i < 44 {
         if i < 43 {
          Table::row(-7588800, -10800, 0, "-03")
         } else {
          Table::row(128142000, -10800, 3600, "-02")
         }
        } else {
         if i < 45 {
          Table::row(136605600, -10800, 0, "-03")
         } else {
          Table::row(596948400, -10800, 3600, "-02")
         }
        }
       }
      }
     } else {
      if i < 54 {
       if i < 50 {
        if i < 48 {
         if i < 47 {
          Table::row(605066400, -10800, 0, "-03")
         } else {
          Table::row(624423600, -10800, 3600, "-02")
         }
        } else {
         if i < 49 {
          Table::row(636516000, -10800, 0, "-03")
         } else {
          Table::row(656478000, -10800, 3600, "-02")
         }
        }
       } else {
        if i < 52 {
         if i < 51 {
          Table::row(667965600, -14400, 0, "-04")
         } else {
          Table::row(687931200, -14400, 7200, "-02")
         }
        } else {
         if i < 53 {
          Table::row(699415200, -10800, 0, "-03")
         } else {
          Table::row(719377200, -10800, 3600, "-02")
         }
        }
       }
      } else {
       if i < 58 {
        if i < 56 {
         if i < 55 {
          Table::row(731469600, -10800, 0, "-03")
         } else {
          Table::row(938919600, -14400, 3600, "-03")
         }
        } else {
         if i < 57 {
          Table::row(952052400, -10800, 0, "-03")
         } else {
          Table::row(1198983600, -10800, 3600, "-02")
         }
        }
       } else {
        if i < 60 {
         if i < 59 {
          Table::row(1205632800, -10800, 0, "-03")
         } else {
          Table::row(1224385200, -10800, 3600, "-02")
         }
        } else {
         if i < 61 {
          Table::row(1237082400, -10800, 0, "-03")
         } else {
          Table::row(2147483647, -10800, 0, "-03")
         }
        }
       }
      }
     }
    }
}

/// The rows of the table of the zone `America/Cordoba`.
pub open spec fn cordoba_rows() -> spec_fn(int) -> (i64, FixedTimespan) {
    |i: int| cordoba_row(i)
}

/// The table of the zone `America/Cordoba`.
pub open spec fn cordoba() -> Table {
    Table::listed(Table::row(0, -15408, 0, "LMT").1, 62, cordoba_rows())
}

/// Row `i` of the table of the zone `America/Costa_Rica`.
pub open spec fn costa_rica_row(i: int) -> (i64, FixedTimespan) {
    if i < 5 {
     if i < 2 {
      if i < 1 {
       Table::row(-2524501427, -20173, 0, "SJMT")
      } else {
       Table::row(-1545071027, -21600, 0, "CST")
      }
     } else {
      if i < 3 {
       Table::row(288770400, -21600, 3600, "CDT")
      } else {
       if i < 4 {
        Table::row(297234000, -21600, 0, "CST")
       } else {
        Table::row(320220000, -21600, 3600, "CDT")
       }
      }
     }
    } else {
     if i < 7 {
      if i < 6 {
       Table::row(328683600, -21600, 0, "CST")
      } else {
       Table::row(664264800, -21600, 3600, "CDT")
      }
     } else {
      if i < 8 {
       Table::row(678344400, -21600, 0, "CST")
      } else {
       if i < 9 {
        Table::row(695714400, -21600, 3600, "CDT")
       } else {
        Table::row(700635600, -21600, 0, "CST")
       }
      }
     }
    }
}

/// The rows of the table of the zone `America/Costa_Rica`.
pub open spec fn costa_rica_rows() -> spec_fn(int) -> (i64, FixedTimespan) {
    |i: int| costa_rica_row(i)
}

/// The table of the zone `America/Costa_Rica`.
pub open spec fn costa_rica() -> Table {
    Table::listed(Table::row(0, -20173, 0, "LMT").1, 10, costa_rica_rows())
}

/// Row `i` of the table of the zone `America/Coyhaique`.
pub open spec fn coyhaique_row(i: int) -> (i64, FixedTimespan) {
    if i < 67 {
     if i < 33 {
      if i < 16 {
       if i < 8 {
        if i < 4 {
         if i < 2 {
          if i < 1 {
           Table::row(-2524504304, -16965, 0, "SMT")
          } else {
           Table::row(-1892661435, -18000, 0, "-05")
          }
         } else {
          if i < 3 {
           Table::row(-1688410800, -16965, 0, "SMT")
          } else {
           Table::row(-1619205435, -14400, 0, "-04")
          }
         }
        } else {
         if i < 6 {
          if i < 5 {
           Table::row(-1593806400, -16965, 0, "SMT")
          } else {
           Table::row(-1335986235, -16965, 2565, "-04")
          }
         } else {
          if i < 7 {
           Table::row(-1317585600, -18000, 0, "-05")
          } else {
           Table::row(-1304362800, -18000, 3600, "-04")
          }
         }
        }
       } else {
        if i < 12 {
         if i < 10 {
          if i < 9 {
           Table::row(-1286049600, -18000, 0, "-05")
          } else {
           Table::row(-1272826800, -18000, 3600, "-04")
          }
         } else {
          if i < 11 {
           Table::row(-1254513600, -18000, 0, "-05")
          } else {
           Table::row(-1241290800, -18000, 3600, "-04")
          }
         }
        } else {
         if i < 14 {
          if i < 13 {
           Table::row(-1222977600, -18000, 0, "-05")
          } else {
           Table::row(-1209754800, -18000, 3600, "-04")
          }
         } else {
          if i < 15 {
           Table::row(-1191355200, -18000, 0, "-05")
          } else {
           Table::row(-1178132400, -14400, 0, "-04")
          }
         }
        }
       }
      } else {
       if i < 24 {
        if i < 20 {
         if i < 18 {
          if i < 17 {
           Table::row(-870552000, -18000, 0, "-05")
          } else {
           Table::row(-865278000, -14400, 0, "-04")
          }
         } else {
          if i < 19 {
           Table::row(-736632000, -18000, 3600, "-04")
          } else {
           Table::row(-718056000, -18000, 0, "-05")
          }
         }
        } else {
         if i < 22 {
          if i < 21 {
           Table::row(-713649600, -14400, 0, "-04")
          } else {
           Table::row(-36619200, -14400, 3600, "-03")
          }
         } else {
          if i < 23 {
           Table::row(-23922000, -14400, 0, "-04")
          } else {
           Table::row(-3355200, -14400, 3600, "-03")
          }
         }
        }
       } else {
        if i < 28 {
         if i < 26 {
          if i < 25 {
           Table::row(7527600, -14400, 0, "-04")
          } else {
           Table::row(24465600, -14400, 3600, "-03")
          }
         } else {
          if i < 27 {
           Table::row(37767600, -14400, 0, "-04")
          } else {
           Table::row(55915200, -14400, 3600, "-03")
          }
         }
        } else {
         if i < 30 {
          if i < 29 {
           Table::row(69217200, -14400, 0, "-04")
          } else {
           Table::row(87969600, -14400, 3600, "-03")
          }
         } else {
          if i < 31 {
           Table::row(100666800, -14400, 0, "-04")
          } else {
           if i < 32 {
            Table::row(118209600, -14400, 3600, "-03")
           } else {
            Table::row(132116400, -14400, 0, "-04")
           }
          }
         }
        }
       }
      }
     } else {
      if i < 50 {
       if i < 41 {
        if i < 37 {
         if i < 35 {
          if i < 34 {
           Table::row(150868800, -14400, 3600, "-03")
          } else {
           Table::row(163566000, -14400, 0, "-04")
          }
         } else {
          if i < 36 {
           Table::row(182318400, -14400, 3600, "-03")
          } else {
           Table::row(195620400, -14400, 0, "-04")
          }
         }
        } else {
         if i < 39 {
          if i < 38 {
           Table::row(213768000, -14400, 3600, "-03")
          } else {
           Table::row(227070000, -14400, 0, "-04")
          }
         } else {
          if i < 40 {
           Table::row(245217600, -14400, 3600, "-03")
          } else {
           Table::row(258519600, -14400, 0, "-04")
          }
         }
        }
       } else {
        if i < 45 {
         if i < 43 {
          if i < 42 {
           Table::row(277272000, -14400, 3600, "-03")
          } else {
           Table::row(289969200, -14400, 0, "-04")
          }
         } else {
          if i < 44 {
           Table::row(308721600, -14400, 3600, "-03")
          } else {
           Table::row(321418800, -14400, 0, "-04")
          }
         }
        } else {
         if i < 47 {
          if i < 46 {
           Table::row(340171200, -14400, 3600, "-03")
          } else {
           Table::row(353473200, -14400, 0, "-04")
          }
         } else {
          if i < 48 {
           Table::row(371620800, -14400, 3600, "-03")
          } else {
           if i < 49 {
            Table::row(384922800, -14400, 0, "-04")
           } else {
            Table::row(403070400, -14400, 3600, "-03")
           }
          }
         }
        }
       }
      } else {
       if i < 58 {
        if i < 54 {
         if i < 52 {
          if i < 51 {
           Table::row(416372400, -14400, 0, "-04")
          } else {
           Table::row(434520000, -14400, 3600, "-03")
          }
         } else {
          if i < 53 {
           Table::row(447822000, -14400, 0, "-04")
          } else {
           Table::row(466574400, -14400, 3600, "-03")
          }
         }
        } else {
         if i < 56 {
          if i < 55 {
           Table::row(479271600, -14400, 0, "-04")
          } else {
           Table::row(498024000, -14400, 3600, "-03")
          }
         } else {
          if i < 57 {
           Table::row(510721200, -14400, 0, "-04")
          } else {
           Table::row(529473600, -14400, 3600, "-03")
          }
         }
        }
       } else {
        if i < 62 {
         if i < 60 {
          if i < 59 {
           Table::row(545194800, -14400, 0, "-04")
          } else {
           Table::row(560923200, -14400, 3600, "-03")
          }
         } else {
          if i < 61 {
           Table::row(574225200, -14400, 0, "-04")
          } else {
           Table::row(592372800, -14400, 3600, "-03")
          }
         }
        } else {
         if i < 64 {
          if i < 63 {
           Table::row(605674800, -14400, 0, "-04")
          } else {
           Table::row(624427200, -14400, 3600, "-03")
          }
         } else {
          if i < 65 {
           Table::row(637124400, -14400, 0, "-04")
          } else {
           if i < 66 {
            Table::row(653457600, -14400, 3600, "-03")
           } else {
            Table::row(668574000, -14400, 0, "-04")
           }
          }
         }
        }
       }
      }
     }
    } else {
     if i < 100 {
      if i < 83 {
       if i < 75 {
        if i < 71 {
         if i < 69 {
          if i < 68 {
           Table::row(687326400, -14400, 3600, "-03")
          } else {
           Table::row(700628400, -14400, 0, "-04")
          }
         } else {
          if i < 70 {
           Table::row(718776000, -14400, 3600, "-03")
          } else {
           Table::row(732078000, -14400, 0, "-04")
          }
         }
        } else {
         if i < 73 {
          if i < 72 {
           Table::row(750225600, -14400, 3600, "-03")
          } else {
           Table::row(763527600, -14400, 0, "-04")
          }
         } else {
          if i < 74 {
           Table::row(781675200, -14400, 3600, "-03")
          } else {
           Table::row(794977200, -14400, 0, "-04")
          }
         }
        }
       } else {
        if i < 79 {
         if i < 77 {
          if i < 76 {
           Table::row(813729600, -14400, 3600, "-03")
          } else {
           Table::row(826426800, -14400, 0, "-04")
          }
         } else {
          if i < 78 {
           Table::row(845179200, -14400, 3600, "-03")
          } else {
           Table::row(859690800, -14400, 0, "-04")
          }
         }
        } else {
         if i < 81 {
          if i < 80 {
           Table::row(876628800, -14400, 3600, "-03")
          } else {
           Table::row(889930800, -14400, 0, "-04")
          }
         } else {
          if i < 82 {
           Table::row(906868800, -14400, 3600, "-03")
          } else {
           Table::row(923194800, -14400, 0, "-04")
          }
         }
        }
       }
      } else {
       if i < 91 {
        if i < 87 {
         if i < 85 {
          if i < 84 {
           Table::row(939528000, -14400, 3600, "-03")
          } else {
           Table::row(952830000, -14400, 0, "-04")
          }
         } else {
          if i < 86 {
           Table::row(971582400, -14400, 3600, "-03")
          } else {
           Table::row(984279600, -14400, 0, "-04")
          }
         }
        } else {
         if i < 89 {
          if i < 88 {
           Table::row(1003032000, -14400, 3600, "-03")
          } else {
           Table::row(1015729200, -14400, 0, "-04")
          }
         } else {
          if i < 90 {
           Table::row(1034481600, -14400, 3600, "-03")
          } else {
           Table::row(1047178800, -14400, 0, "-04")
          }
         }
        }
       } else {
        if i < 95 {
         if i < 93 {
          if i < 92 {
           Table::row(1065931200, -14400, 3600, "-03")
          } else {
           Table::row(1079233200, -14400, 0, "-04")
          }
         } else {
          if i < 94 {
           Table::row(1097380800, -14400, 3600, "-03")
          } else {
           Table::row(1110682800, -14400, 0, "-04")
          }
         }
        } else {
         if i < 97 {
          if i < 96 {
           Table::row(1128830400, -14400, 3600, "-03")
          } else {
           Table::row(1142132400, -14400, 0, "-04")
          }
         } else {
          if i < 98 {
           Table::row(1160884800, -14400, 3600, "-03")
          } else {
           if i < 99 {
            Table::row(1173582000, -14400, 0, "-04")
           } else {
            Table::row(1192334400, -14400, 3600, "-03")
           }
          }
         }
        }
       }
      }
     } else {
      if i < 117 {
       if i < 108 {
        if i < 104 {
         if i < 102 {
          if i < 101 {
           Table::row(1206846000, -14400, 0, "-04")
          } else {
           Table::row(1223784000, -14400, 3600, "-03")
          }
         } else {
          if i < 103 {
           Table::row(1237086000, -14400, 0, "-04")
          } else {
           Table::row(1255233600, -14400, 3600, "-03")
          }
         }
        } else {
         if i < 106 {
          if i < 105 {
           Table::row(1270350000, -14400, 0, "-04")
          } else {
           Table::row(1286683200, -14400, 3600, "-03")
          }
         } else {
          if i < 107 {
           Table::row(1304823600, -14400, 0, "-04")
          } else {
           Table::row(1313899200, -14400, 3600, "-03")
          }
         }
        }
       } else {
        if i < 112 {
         if i < 110 {
          if i < 109 {
           Table::row(1335668400, -14400, 0, "-04")
          } else {
           Table::row(1346558400, -14400, 3600, "-03")
          }
         } else {
          if i < 111 {
           Table::row(1367118000, -14400, 0, "-04")
          } else {
           Table::row(1378612800, -14400, 3600, "-03")
          }
         }
        } else {
         if i < 114 {
          if i < 113 {
           Table::row(1398567600, -14400, 0, "-04")
          } else {
           Table::row(1410062400, -14400, 3600, "-03")
          }
         } else {
          if i < 115 {
           Table::row(1463281200, -14400, 0, "-04")
          } else {
           if i < 116 {
            Table::row(1471147200, -14400, 3600, "-03")
           } else {
            Table::row(1494730800, -14400, 0, "-04")
           }
          }
         }
        }
       }
      } else {
       if i < 125 {
        if i < 121 {
         if i < 119 {
          if i < 118 {
           Table::row(1502596800, -14400, 3600, "-03")
          } else {
           Table::row(1526180400, -14400, 0, "-04")
          }
         } else {
          if i < 120 {
           Table::row(1534046400, -14400, 3600, "-03")
          } else {
           Table::row(1554606000, -14400, 0, "-04")
          }
         }
        } else {
         if i < 123 {
          if i < 122 {
           Table::row(1567915200, -14400, 3600, "-03")
          } else {
           Table::row(1586055600, -14400, 0, "-04")
          }
         } else {
          if i < 124 {
           Table::row(1599364800, -14400, 3600, "-03")
          } else {
           Table::row(1617505200, -14400, 0, "-04")
          }
         }
        }
       } else {
        if i < 129 {
         if i < 127 {
          if i < 126 {
           Table::row(1630814400, -14400, 3600, "-03")
          } else {
           Table::row(1648954800, -14400, 0, "-04")
          }
         } else {
          if i < 128 {
           Table::row(1662868800, -14400, 3600, "-03")
          } else {
           Table::row(1680404400, -14400, 0, "-04")
          }
         }
        } else {
         if i < 131 {
          if i < 130 {
           Table::row(1693713600, -14400, 3600, "-03")
          } else {
           Table::row(1712458800, -14400, 0, "-04")
          }
         } else {
          if i < 132 {
           Table::row(1725768000, -14400, 3600, "-03")
          } else {
           if i < 133 {
            Table::row(1742439600, -10800, 0, "-03")
           } else {
            Table::row(2147483647, -10800, 0, "-03")
           }
          }
         }
        }
       }
      }
     }
    }
}

/// The rows of the table of the zone `America/Coyhaique`.
pub open spec fn coyhaique_rows() -> spec_fn(int) -> (i64, FixedTimespan) {
    |i: int| coyhaique_row(i)
}

/// The table of the zone `America/Coyhaique`.
pub open spec fn coyhaique() -> Table {
    Table::listed(Table::row(0, -17296, 0, "LMT").1, 134, coyhaique_rows())
}

/// Row `i` of the table of the zone `America/Creston`.
pub open spec fn creston_row(i: int) -> (i64, FixedTimespan) {
    if i < 1 {
     Table::row(-2713882436, -25200, 0, "MST")
    } else {
     if i < 2 {
      Table::row(-1680454800, -28800, 0, "PST")
     } else {
      Table::row(-1627833600, -25200, 0, "MST")
     }
    }
}

/// The rows of the table of the zone `America/Creston`.
pub open spec fn creston_rows() -> spec_fn(int) -> (i64, FixedTimespan) {
    |i: int| creston_row(i)
}

/// The table of the zone `America/Creston`.
pub open spec fn creston() -> Table {
    Table::listed(Table::row(0, -27964, 0, "LMT").1, 3, creston_rows())
}

/// Row `i` of the table of the zone `America/Cuiaba`.
pub open spec fn cuiaba_row(i: int) -> (i64, FixedTimespan) {
    if i < 45 {
     if i < 22 {
      if i < 11 {
       if i < 5 {
        if i < 2 {
         if i < 1 {
          Table::row(-1767212140, -14400, 0, "-04")
         } else {
          Table::row(-1206954000, -14400, 3600, "-03")
         }
        } else {
         if i < 3 {
          Table::row(-1191358800, -14400, 0, "-04")
         } else {
          if i < 4 {
           Table::row(-1175371200, -14400, 3600, "-03")
          } else {
           Table::row(-1159822800, -14400, 0, "-04")
          }
         }
        }
       } else {
        if i < 8 {
         if i < 6 {
          Table::row(-633816000, -14400, 3600, "-03")
         } else {
          if i < 7 {
           Table::row(-622065600, -14400, 0, "-04")
          } else {
           Table::row(-602280000, -14400, 3600, "-03")
          }
         }
        } else {
         if i < 9 {
          Table::row(-591829200, -14400, 0, "-04")
         } else {
          if i < 10 {
           Table::row(-570744000, -14400, 3600, "-03")
          } else {
           Table::row(-560206800, -14400, 0, "-04")
          }
         }
        }
       }
      } else {
       if i < 16 {
        if i < 13 {
         if i < 12 {
          Table::row(-539121600, -14400, 3600, "-03")
         } else {
          Table::row(-531349200, -14400, 0, "-04")
         }
        } else {
         if i < 14 {
          Table::row(-191361600, -14400, 3600, "-03")
         } else {
          if i < 15 {
           Table::row(-184194000, -14400, 0, "-04")
          } else {
           Table::row(-155160000, -14400, 3600, "-03")
          }
         }
        }
       } else {
        if i < 19 {
         if i < 17 {
          Table::row(-150066000, -14400, 0, "-04")
         } else {
          if i < 18 {
           Table::row(-128894400, -14400, 3600, "-03")
          } else {
           Table::row(-121122000, -14400, 0, "-04")
          }
         }
        } else {
         if i < 20 {
          Table::row(-99950400, -14400, 3600, "-03")
         } else {
          if i < 21 {
           Table::row(-89586000, -14400, 0, "-04")
          } else {
           Table::row(-68414400, -14400, 3600, "-03")
          }
         }
        }
       }
      }
     } else {
      if i < 33 {
       if i < 27 {
        if i < 24 {
         if i < 23 {
          Table::row(-57963600, -14400, 0, "-04")
         } else {
          Table::row(499752000, -14400, 3600, "-03")
         }
        } else {
         if i < 25 {
          Table::row(511239600, -14400, 0, "-04")
         } else {
          if i < 26 {
           Table::row(530596800, -14400, 3600, "-03")
          } else {
           Table::row(540270000, -14400, 0, "-04")
          }
         }
        }
       } else {
        if i < 30 {
         if i < 28 {
          Table::row(562132800, -14400, 3600, "-03")
         } else {
          if i < 29 {
           Table::row(571201200, -14400, 0, "-04")
          } else {
           Table::row(592977600, -14400, 3600, "-03")
          }
         }
        } else {
         if i < 31 {
          Table::row(602046000, -14400, 0, "-04")
         } else {
          if i < 32 {
           Table::row(624427200, -14400, 3600, "-03")
          } else {
           Table::row(634705200, -14400, 0, "-04")
          }
         }
        }
       }
      } else {
       if i < 39 {
        if i < 36 {
         if i < 34 {
          Table::row(656481600, -14400, 3600, "-03")
         } else {
          if i < 35 {
           Table::row(666759600, -14400, 0, "-04")
          } else {
           Table::row(687931200, -14400, 3600, "-03")
          }
         }
        } else {
         if i < 37 {
          Table::row(697604400, -14400, 0, "-04")
         } else {
          if i < 38 {
           Table::row(719985600, -14400, 3600, "-03")
          } else {
           Table::row(728449200, -14400, 0, "-04")
          }
         }
        }
       } else {
        if i < 42 {
         if i < 40 {
          Table::row(750830400, -14400, 3600, "-03")
         } else {
          if i < 41 {
           Table::row(761713200, -14400, 0, "-04")
          } else {
           Table::row(782280000, -14400, 3600, "-03")
          }
         }
        } else {
         if i < 43 {
          Table::row(793162800, -14400, 0, "-04")
         } else {
          if i < 44 {
           Table::row(813729600, -14400, 3600, "-03")
          } else {
           Table::row(824007600, -14400, 0, "-04")
          }
         }
        }
       }
      }
     }
    } else {
     if i < 67 {
      if i < 56 {
       if i < 50 {
        if i < 47 {
         if i < 46 {
          Table::row(844574400, -14400, 3600, "-03")
         } else {
          Table::row(856062000, -14400, 0, "-04")
         }
        } else {
         if i < 48 {
          Table::row(876110400, -14400, 3600, "-03")
         } else {
          if i < 49 {
           Table::row(888721200, -14400, 0, "-04")
          } else {
           Table::row(908078400, -14400, 3600, "-03")
          }
         }
        }
       } else {
        if i < 53 {
         if i < 51 {
          Table::row(919566000, -14400, 0, "-04")
         } else {
          if i < 52 {
           Table::row(938923200, -14400, 3600, "-03")
          } else {
           Table::row(951620400, -14400, 0, "-04")
          }
         }
        } else {
         if i < 54 {
          Table::row(970977600, -14400, 3600, "-03")
         } else {
          if i < 55 {
           Table::row(982465200, -14400, 0, "-04")
          } else {
           Table::row(1003032000, -14400, 3600, "-03")
          }
         }
        }
       }
      } else {
       if i < 61 {
        if i < 58 {
         if i < 57 {
          Table::row(1013914800, -14400, 0, "-04")
         } else {
          Table::row(1036296000, -14400, 3600, "-03")
         }
        } else {
         if i < 59 {
          Table::row(1045364400, -14400, 0, "-04")
         } else {
          if i < 60 {
           Table::row(1099368000, -14400, 3600, "-03")
          } else {
           Table::row(1108868400, -14400, 0, "-04")
          }
         }
        }
       } else {
        if i < 64 {
         if i < 62 {
          Table::row(1129435200, -14400, 3600, "-03")
         } else {
          if i < 63 {
           Table::row(1140318000, -14400, 0, "-04")
          } else {
           Table::row(1162699200, -14400, 3600, "-03")
          }
         }
        } else {
         if i < 65 {
          Table::row(1172372400, -14400, 0, "-04")
         } else {
          if i < 66 {
           Table::row(1192334400, -14400, 3600, "-03")
          } else {
           Table::row(1203217200, -14400, 0, "-04")
          }
         }
        }
       }
      }
     } else {
      if i < 78 {
       if i < 72 {
        if i < 69 {
         if i < 68 {
          Table::row(1224388800, -14400, 3600, "-03")
         } else {
          Table::row(1234666800, -14400, 0, "-04")
         }
        } else {
         if i < 70 {
          Table::row(1255838400, -14400, 3600, "-03")
         } else {
          if i < 71 {
           Table::row(1266721200, -14400, 0, "-04")
          } else {
           Table::row(1287288000, -14400, 3600, "-03")
          }
         }
        }
       } else {
        if i < 75 {
         if i < 73 {
          Table::row(1298170800, -14400, 0, "-04")
         } else {
          if i < 74 {
           Table::row(1318737600, -14400, 3600, "-03")
          } else {
           Table::row(1330225200, -14400, 0, "-04")
          }
         }
        } else {
         if i < 76 {
          Table::row(1350792000, -14400, 3600, "-03")
         } else {
          if i < 77 {
           Table::row(1361070000, -14400, 0, "-04")
          } else {
           Table::row(1382241600, -14400, 3600, "-03")
          }
         }
        }
       }
      } else {
       if i < 84 {
        if i < 81 {
         if i < 79 {
          Table::row(1392519600, -14400, 0, "-04")
         } else {
          if i < 80 {
           Table::row(1413691200, -14400, 3600, "-03")
          } else {
           Table::row(1424574000, -14400, 0, "-04")
          }
         }
        } else {
         if i < 82 {
          Table::row(1445140800, -14400, 3600, "-03")
         } else {
          if i < 83 {
           Table::row(1456023600, -14400, 0, "-04")
          } else {
           Table::row(1476590400, -14400, 3600, "-03")
          }
         }
        }
       } else {
        if i < 87 {
         if i < 85 {
          Table::row(1487473200, -14400, 0, "-04")
         } else {
          if i < 86 {
           Table::row(1508040000, -14400, 3600, "-03")
          } else {
           Table::row(1518922800, -14400, 0, "-04")
          }
         }
        } else {
         if i < 88 {
          Table::row(1541304000, -14400, 3600, "-03")
         } else {
          if i < 89 {
           Table::row(1550372400, -14400, 0, "-04")
          } else {
           Table::row(2147483647, -14400, 0, "-04")
          }
         }
        }
       }
      }
     }
    }
}

/// The rows of the table of the zone `America/Cuiaba`.
pub open spec fn cuiaba_rows() -> spec_fn(int) -> (i64, FixedTimespan) {
    |i: int| cuiaba_row(i)
}

/// The table of the zone `America/Cuiaba`.
pub open spec fn cuiaba() -> Table {
    Table::listed(Table::row(0, -13460, 0, "LMT").1, 90, cuiaba_rows())
}

/// Row `i` of the table of the zone `America/Curacao`.
pub open spec fn curacao_row(i: int) -> (i64, FixedTimespan) {
    if i < 1 {
     Table::row(-1826738653, -16200, 0, "-0430")
    } else {
     Table::row(-157750200, -14400, 0, "AST")
    }
}

/// The rows of the table of the zone `America/Curacao`.
pub open spec fn curacao_rows() -> spec_fn(int) -> (i64, FixedTimespan) {
    |i: int| curacao_row(i)
}

/// The table of the zone `America/Curacao`.
pub open spec fn curacao() -> Table {
    Table::listed(Table::row(0, -16547, 0, "LMT").1, 2, curacao_rows())
}

/// Row `i` of the table of the zone `America/Danmarkshavn`.
pub open spec fn danmarkshavn_row(i: int) -> (i64, FixedTimespan) {
    if i < 17 {
     if i < 8 {
      if i < 4 {
       if i < 2 {
        if i < 1 {
         Table::row(-1686091520, -10800, 0, "-03")
        } else {
         Table::row(323845200, -10800, 3600, "-02")
        }
       } else {
        if i < 3 {
         Table::row(338950800, -10800, 0, "-03")
        } else {
         Table::row(354675600, -10800, 3600, "-02")
        }
       }
      } else {
       if i < 6 {
        if i < 5 {
         Table::row(370400400, -10800, 0, "-03")
        } else {
         Table::row(386125200, -10800, 3600, "-02")
        }
       } else {
        if i < 7 {
         Table::row(401850000, -10800, 0, "-03")
        } else {
         Table::row(417574800, -10800, 3600, "-02")
        }
       }
      }
     } else {
      if i < 12 {
       if i < 10 {
        if i < 9 {
         Table::row(433299600, -10800, 0, "-03")
        } else {
         Table::row(449024400, -10800, 3600, "-02")
        }
       } else {
        if i < 11 {
         Table::row(465354000, -10800, 0, "-03")
        } else {
         Table::row(481078800, -10800, 3600, "-02")
        }
       }
      } else {
       if i < 14 {
        if i < 13 {
         Table::row(496803600, -10800, 0, "-03")
        } else {
         Table::row(512528400, -10800, 3600, "-02")
        }
       } else {
        if i < 15 {
         Table::row(528253200, -10800, 0, "-03")
        } else {
         if i < 16 {
          Table::row(543978000, -10800, 3600, "-02")
         } else {
          Table::row(559702800, -10800, 0, "-03")
         }
        }
       }
      }
     }
    } else {
     if i < 25 {
      if i < 21 {
       if i < 19 {
        if i < 18 {
         Table::row(575427600, -10800, 3600, "-02")
        } else {
         Table::row(591152400, -10800, 0, "-03")
        }
       } else {
        if i < 20 {
         Table::row(606877200, -10800, 3600, "-02")
        } else {
         Table::row(622602000, -10800, 0, "-03")
        }
       }
      } else {
       if i < 23 {
        if i < 22 {
         Table::row(638326800, -10800, 3600, "-02")
        } else {
         Table::row(654656400, -10800, 0, "-03")
        }
       } else {
        if i < 24 {
         Table::row(670381200, -10800, 3600, "-02")
        } else {
         Table::row(686106000, -10800, 0, "-03")
        }
       }
      }
     } else {
      if i < 29 {
       if i < 27 {
        if i < 26 {
         Table::row(701830800, -10800, 3600, "-02")
        } else {
         Table::row(717555600, -10800, 0, "-03")
        }
       } else {
        if i < 28 {
         Table::row(733280400, -10800, 3600, "-02")
        } else {
         Table::row(749005200, -10800, 0, "-03")
        }
       }
      } else {
       if i < 31 {
        if i < 30 {
         Table::row(764730000, -10800, 3600, "-02")
        } else {
         Table::row(780454800, -10800, 0, "-03")
        }
       } else {
        if i < 32 {
         Table::row(796179600, -10800, 3600, "-02")
        } else {
         if i < 33 {
          Table::row(811904400, -10800, 0, "-03")
         } else {
          Table::row(820465200, 0, 0, "GMT")
         }
        }
       }
      }
     }
    }
}

/// The rows of the table of the zone `America/Danmarkshavn`.
pub open spec fn danmarkshavn_rows() -> spec_fn(int) -> (i64, FixedTimespan) {
    |i: int| danmarkshavn_row(i)
}

/// The table of the zone `America/Danmarkshavn`.
pub open spec fn danmarkshavn() -> Table {
    Table::listed(Table::row(0, -4480, 0, "LMT").1, 34, danmarkshavn_rows())
}

/// Row `i` of the table of the zone `America/Dawson`.
pub open spec fn dawson_row(i: int) -> (i64, FixedTimespan) {
    if i < 46 {
     if i < 23 {
      if i < 11 {
       if i < 5 {
        if i < 2 {
         if i < 1 {
          Table::row(-2188996940, -32400, 0, "YST")
         } else {
          Table::row(-1632056400, -32400, 3600, "YDT")
         }
        } else {
         if i < 3 {
          Table::row(-1615125600, -32400, 0, "YST")
         } else {
          if i < 4 {
           Table::row(-1596978000, -32400, 3600, "YDT")
          } else {
           Table::row(-1583164800, -32400, 0, "YST")
          }
         }
        }
       } else {
        if i < 8 {
         if i < 6 {
          Table::row(-880203600, -32400, 3600, "YWT")
         } else {
          if i < 7 {
           Table::row(-769395600, -32400, 3600, "YPT")
          } else {
           Table::row(-765381600, -32400, 0, "YST")
          }
         }
        } else {
         if i < 9 {
          Table::row(-147884400, -32400, 7200, "YDDT")
         } else {
          if i < 10 {
           Table::row(-131554800, -32400, 0, "YST")
          } else {
           Table::row(120646800, -28800, 0, "PST")
          }
         }
        }
       }
      } else {
       if i < 17 {
        if i < 14 {
         if i < 12 {
          Table::row(325677600, -28800, 3600, "PDT")
         } else {
          if i < 13 {
           Table::row(341398800, -28800, 0, "PST")
          } else {
           Table::row(357127200, -28800, 3600, "PDT")
          }
         }
        } else {
         if i < 15 {
          Table::row(372848400, -28800, 0, "PST")
         } else {
          if i < 16 {
           Table::row(388576800, -28800, 3600, "PDT")
          } else {
           Table::row(404902800, -28800, 0, "PST")
          }
         }
        }
       } else {
        if i < 20 {
         if i < 18 {
          Table::row(420026400, -28800, 3600, "PDT")
         } else {
          if i < 19 {
           Table::row(436352400, -28800, 0, "PST")
          } else {
           Table::row(452080800, -28800, 3600, "PDT")
          }
         }
        } else {
         if i < 21 {
          Table::row(467802000, -28800, 0, "PST")
         } else {
          if i < 22 {
           Table::row(483530400, -28800, 3600, "PDT")
          } else {
           Table::row(499251600, -28800, 0, "PST")
          }
         }
        }
       }
      }
     } else {
      if i < 34 {
       if i < 28 {
        if i < 25 {
         if i < 24 {
          Table::row(514980000, -28800, 3600, "PDT")
         } else {
          Table::row(530701200, -28800, 0, "PST")
         }
        } else {
         if i < 26 {
          Table::row(544615200, -28800, 3600, "PDT")
         } else {
          if i < 27 {
           Table::row(562150800, -28800, 0, "PST")
          } else {
           Table::row(576064800, -28800, 3600, "PDT")
          }
         }
        }
       } else {
        if i < 31 {
         if i < 29 {
          Table::row(594205200, -28800, 0, "PST")
         } else {
          if i < 30 {
           Table::row(607514400, -28800, 3600, "PDT")
          } else {
           Table::row(625654800, -28800, 0, "PST")
          }
         }
        } else {
         if i < 32 {
          Table::row(638964000, -28800, 3600, "PDT")
         } else {
          if i < 33 {
           Table::row(657104400, -28800, 0, "PST")
          } else {
           Table::row(671018400, -28800, 3600, "PDT")
          }
         }
        }
       }
      } else {
       if i < 40 {
        if i < 37 {
         if i < 35 {
          Table::row(688554000, -28800, 0, "PST")
         } else {
          if i < 36 {
           Table::row(702468000, -28800, 3600, "PDT")
          } else {
           Table::row(720003600, -28800, 0, "PST")
          }
         }
        } else {
         if i < 38 {
          Table::row(733917600, -28800, 3600, "PDT")
         } else {
          if i < 39 {
           Table::row(752058000, -28800, 0, "PST")
          } else {
           Table::row(765367200, -28800, 3600, "PDT")
          }
         }
        }
       } else {
        if i < 43 {
         if i < 41 {
          Table::row(783507600, -28800, 0, "PST")
         } else {
          if i < 42 {
           Table::row(796816800, -28800, 3600, "PDT")
          } else {
           Table::row(814957200, -28800, 0, "PST")
          }
         }
        } else {
         if i < 44 {
          Table::row(828871200, -28800, 3600, "PDT")
         } else {
          if i < 45 {
           Table::row(846406800, -28800, 0, "PST")
          } else {
           Table::row(860320800, -28800, 3600, "PDT")
          }
         }
        }
       }
      }
     }
    } else {
     if i < 69 {
      if i < 57 {
       if i < 51 {
        if i < 48 {
         if i < 47 {
          Table::row(877856400, -28800, 0, "PST")
         } else {
          Table::row(891770400, -28800, 3600, "PDT")
         }
        } else {
         if i < 49 {
          Table::row(909306000, -28800, 0, "PST")
         } else {
          if i < 50 {
           Table::row(923220000, -28800, 3600, "PDT")
          } else {
           Table::row(941360400, -28800, 0, "PST")
          }
         }
        }
       } else {
        if i < 54 {
         if i < 52 {
          Table::row(954669600, -28800, 3600, "PDT")
         } else {
          if i < 53 {
           Table::row(972810000, -28800, 0, "PST")
          } else {
           Table::row(986119200, -28800, 3600, "PDT")
          }
         }
        } else {
         if i < 55 {
          Table::row(1004259600, -28800, 0, "PST")
         } else {
          if i < 56 {
           Table::row(1018173600, -28800, 3600, "PDT")
          } else {
           Table::row(1035709200, -28800, 0, "PST")
          }
         }
        }
       }
      } else {
       if i < 63 {
        if i < 60 {
         if i < 58 {
          Table::row(1049623200, -28800, 3600, "PDT")
         } else {
          if i < 59 {
           Table::row(1067158800, -28800, 0, "PST")
          } else {
           Table::row(1081072800, -28800, 3600, "PDT")
          }
         }
        } else {
         if i < 61 {
          Table::row(1099213200, -28800, 0, "PST")
         } else {
          if i < 62 {
           Table::row(1112522400, -28800, 3600, "PDT")
          } else {
           Table::row(1130662800, -28800, 0, "PST")
          }
         }
        }
       } else {
        if i < 66 {
         if i < 64 {
          Table::row(1143972000, -28800, 3600, "PDT")
         } else {
          if i < 65 {
           Table::row(1162112400, -28800, 0, "PST")
          } else {
           Table::row(1173607200, -28800, 3600, "PDT")
          }
         }
        } else {
         if i < 67 {
          Table::row(1194166800, -28800, 0, "PST")
         } else {
          if i < 68 {
           Table::row(1205056800, -28800, 3600, "PDT")
          } else {
           Table::row(1225616400, -28800, 0, "PST")
          }
         }
        }
       }
      }
     } else {
      if i < 81 {
       if i < 75 {
        if i < 72 {
         if i < 70 {
          Table::row(1236506400, -28800, 3600, "PDT")
         } else {
          if i < 71 {
           Table::row(1257066000, -28800, 0, "PST")
          } else {
           Table::row(1268560800, -28800, 3600, "PDT")
          }
         }
        } else {
         if i < 73 {
          Table::row(1289120400, -28800, 0, "PST")
         } else {
          if i < 74 {
           Table::row(1300010400, -28800, 3600, "PDT")
          } else {
           Table::row(1320570000, -28800, 0, "PST")
          }
         }
        }
       } else {
        if i < 78 {
         if i < 76 {
          Table::row(1331460000, -28800, 3600, "PDT")
         } else {
          if i < 77 {
           Table::row(1352019600, -28800, 0, "PST")
          } else {
           Table::row(1362909600, -28800, 3600, "PDT")
          }
         }
        } else {
         if i < 79 {
          Table::row(1383469200, -28800, 0, "PST")
         } else {
          if i < 80 {
           Table::row(1394359200, -28800, 3600, "PDT")
          } else {
           Table::row(1414918800, -28800, 0, "PST")
          }
         }
        }
       }
      } else {
       if i < 87 {
        if i < 84 {
         if i < 82 {
          Table::row(1425808800, -28800, 3600, "PDT")
         } else {
          if i < 83 {
           Table::row(1446368400, -28800, 0, "PST")
          } else {
           Table::row(1457863200, -28800, 3600, "PDT")
          }
         }
        } else {
         if i < 85 {
          Table::row(1478422800, -28800, 0, "PST")
         } else {
          if i < 86 {
           Table::row(1489312800, -28800, 3600, "PDT")
          } else {
           Table::row(1509872400, -28800, 0, "PST")
          }
         }
        }
       } else {
        if i < 90 {
         if i < 88 {
          Table::row(1520762400, -28800, 3600, "PDT")
         } else {
          if i < 89 {
           Table::row(1541322000, -28800, 0, "PST")
          } else {
           Table::row(1552212000, -28800, 3600, "PDT")
          }
         }
        } else {
         if i < 91 {
          Table::row(1572771600, -28800, 0, "PST")
         } else {
          if i < 92 {
           Table::row(1583661600, -28800, 3600, "PDT")
          } else {
           Table::row(1604214000, -25200, 0, "MST")
          }
         }
        }
       }
      }
     }
    }
}

/// The rows of the table of the zone `America/Dawson`.
pub open spec fn dawson_rows() -> spec_fn(int) -> (i64, FixedTimespan) {
    |i: int| dawson_row(i)
}

/// The table of the zone `America/Dawson`.
pub open spec fn dawson() -> Table {
    Table::listed(Table::row(0, -33460, 0, "LMT").1, 93, dawson_rows())
}

/// Row `i` of the table of the zone `America/Dawson_Creek`.
pub open spec fn dawson_creek_row(i: int) -> (i64, FixedTimespan) {
    if i < 29 {
     if i < 14 {
      if i < 7 {
       if i < 3 {
        if i < 1 {
         Table::row(-2713881544, -28800, 0, "PST")
        } else {
         if i < 2 {
          Table::row(-1632060000, -28800, 3600, "PDT")
         } else {
          Table::row(-1615129200, -28800, 0, "PST")
         }
        }
       } else {
        if i < 5 {
         if i < 4 {
          Table::row(-880207200, -28800, 3600, "PWT")
         } else {
          Table::row(-769395600, -28800, 3600, "PPT")
         }
        } else {
         if i < 6 {
          Table::row(-765385200, -28800, 0, "PST")
         } else {
          Table::row(-715788000, -28800, 3600, "PDT")
         }
        }
       }
      } else {
       if i < 10 {
        if i < 8 {
         Table::row(-702486000, -28800, 0, "PST")
        } else {
         if i < 9 {
          Table::row(-684338400, -28800, 3600, "PDT")
         } else {
          Table::row(-671036400, -28800, 0, "PST")
         }
        }
       } else {
        if i < 12 {
         if i < 11 {
          Table::row(-652888800, -28800, 3600, "PDT")
         } else {
          Table::row(-639586800, -28800, 0, "PST")
         }
        } else {
         if i < 13 {
          Table::row(-620834400, -28800, 3600, "PDT")
         } else {
          Table::row(-608137200, -28800, 0, "PST")
         }
        }
       }
      }
     } else {
      if i < 21 {
       if i < 17 {
        if i < 15 {
         Table::row(-589384800, -28800, 3600, "PDT")
        } else {
         if i < 16 {
          Table::row(-576082800, -28800, 0, "PST")
         } else {
          Table::row(-557935200, -28800, 3600, "PDT")
         }
        }
       } else {
        if i < 19 {
         if i < 18 {
          Table::row(-544633200, -28800, 0, "PST")
         } else {
          Table::row(-526485600, -28800, 3600, "PDT")
         }
        } else {
         if i < 20 {
          Table::row(-513183600, -28800, 0, "PST")
         } else {
          Table::row(-495036000, -28800, 3600, "PDT")
         }
        }
       }
      } else {
       if i < 25 {
        if i < 23 {
         if i < 22 {
          Table::row(-481734000, -28800, 0, "PST")
         } else {
          Table::row(-463586400, -28800, 3600, "PDT")
         }
        } else {
         if i < 24 {
          Table::row(-450284400, -28800, 0, "PST")
         } else {
          Table::row(-431532000, -28800, 3600, "PDT")
         }
        }
       } else {
        if i < 27 {
         if i < 26 {
          Table::row(-418230000, -28800, 0, "PST")
         } else {
          Table::row(-400082400, -28800, 3600, "PDT")
         }
        } else {
         if i < 28 {
          Table::row(-386780400, -28800, 0, "PST")
         } else {
          Table::row(-368632800, -28800, 3600, "PDT")
         }
        }
       }
      }
     }
    } else {
     if i < 43 {
      if i < 36 {
       if i < 32 {
        if i < 30 {
         Table::row(-355330800, -28800, 0, "PST")
        } else {
         if i < 31 {
          Table::row(-337183200, -28800, 3600, "PDT")
         } else {
          Table::row(-323881200, -28800, 0, "PST")
         }
        }
       } else {
        if i < 34 {
         if i < 33 {
          Table::row(-305733600, -28800, 3600, "PDT")
         } else {
          Table::row(-292431600, -28800, 0, "PST")
         }
        } else {
         if i < 35 {
          Table::row(-273679200, -28800, 3600, "PDT")
         } else {
          Table::row(-260982000, -28800, 0, "PST")
         }
        }
       }
      } else {
       if i < 39 {
        if i < 37 {
         Table::row(-242229600, -28800, 3600, "PDT")
        } else {
         if i < 38 {
          Table::row(-226508400, -28800, 0, "PST")
         } else {
          Table::row(-210780000, -28800, 3600, "PDT")
         }
        }
       } else {
        if i < 41 {
         if i < 40 {
          Table::row(-195058800, -28800, 0, "PST")
         } else {
          Table::row(-179330400, -28800, 3600, "PDT")
         }
        } else {
         if i < 42 {
          Table::row(-163609200, -28800, 0, "PST")
         } else {
          Table::row(-147880800, -28800, 3600, "PDT")
         }
        }
       }
      }
     } else {
      if i < 50 {
       if i < 46 {
        if i < 44 {
         Table::row(-131554800, -28800, 0, "PST")
        } else {
         if i < 45 {
          Table::row(-116431200, -28800, 3600, "PDT")
         } else {
          Table::row(-100105200, -28800, 0, "PST")
         }
        }
       } else {
        if i < 48 {
         if i < 47 {
          Table::row(-84376800, -28800, 3600, "PDT")
         } else {
          Table::row(-68655600, -28800, 0, "PST")
         }
        } else {
         if i < 49 {
          Table::row(-52927200, -28800, 3600, "PDT")
         } else {
          Table::row(-37206000, -28800, 0, "PST")
         }
        }
       }
      } else {
       if i < 54 {
        if i < 52 {
         if i < 51 {
          Table::row(-21477600, -28800, 3600, "PDT")
         } else {
          Table::row(-5756400, -28800, 0, "PST")
         }
        } else {
         if i < 53 {
          Table::row(9972000, -28800, 3600, "PDT")
         } else {
          Table::row(25693200, -28800, 0, "PST")
         }
        }
       } else {
        if i < 56 {
         if i < 55 {
          Table::row(41421600, -28800, 3600, "PDT")
         } else {
          Table::row(57747600, -28800, 0, "PST")
         }
        } else {
         if i < 57 {
          Table::row(73476000, -28800, 3600, "PDT")
         } else {
          Table::row(84013200, -25200, 0, "MST")
         }
        }
       }
      }
     }
    }
}

/// The rows of the table of the zone `America/Dawson_Creek`.
pub open spec fn dawson_creek_rows() -> spec_fn(int) -> (i64, FixedTimespan) {
    |i: int| dawson_creek_row(i)
}

/// The table of the zone `America/Dawson_Creek`.
pub open spec fn dawson_creek() -> Table {
    Table::listed(Table::row(0, -28856, 0, "LMT").1, 58, dawson_creek_rows())
}

/// Row `i` of the table of the zone `America/Denver`.
pub open spec fn denver_row(i: int) -> (i64, FixedTimespan) {
    if i < 79 {
     if i < 39 {
      if i < 19 {
       if i < 9 {
        if i < 4 {
         if i < 2 {
          if i < 1 {
           Table::row(-2717643600, -25200, 0, "MST")
          } else {
           Table::row(-1633273200, -25200, 3600, "MDT")
          }
         } else {
          if i < 3 {
           Table::row(-1615132800, -25200, 0, "MST")
          } else {
           Table::row(-1601823600, -25200, 3600, "MDT")
          }
         }
        } else {
         if i < 6 {
          if i < 5 {
           Table::row(-1583683200, -25200, 0, "MST")
          } else {
           Table::row(-1570374000, -25200, 3600, "MDT")
          }
         } else {
          if i < 7 {
           Table::row(-1551628800, -25200, 0, "MST")
          } else {
           if i < 8 {
            Table::row(-1538924400, -25200, 3600, "MDT")
           } else {
            Table::row(-1534089600, -25200, 0, "MST")
           }
          }
         }
        }
       } else {
        if i < 14 {
         if i < 11 {
          if i < 10 {
           Table::row(-880210800, -25200, 3600, "MWT")
          } else {
           Table::row(-769395600, -25200, 3600, "MPT")
          }
         } else {
          if i < 12 {
           Table::row(-765388800, -25200, 0, "MST")
          } else {
           if i < 13 {
            Table::row(-147884400, -25200, 3600, "MDT")
           } else {
            Table::row(-131558400, -25200, 0, "MST")
           }
          }
         }
        } else {
         if i < 16 {
          if i < 15 {
           Table::row(-116434800, -25200, 3600, "MDT")
          } else {
           Table::row(-100108800, -25200, 0, "MST")
          }
         } else {
          if i < 17 {
           Table::row(-84380400, -25200, 3600, "MDT")
          } else {
           if i < 18 {
            Table::row(-68659200, -25200, 0, "MST")
           } else {
            Table::row(-52930800, -25200, 3600, "MDT")
           }
          }
         }
        }
       }
      } else {
       if i < 29 {
        if i < 24 {
         if i < 21 {
          if i < 20 {
           Table::row(-37209600, -25200, 0, "MST")
          } else {
           Table::row(-21481200, -25200, 3600, "MDT")
          }
         } else {
          if i < 22 {
           Table::row(-5760000, -25200, 0, "MST")
          } else {
           if i < 23 {
            Table::row(9968400, -25200, 3600, "MDT")
           } else {
            Table::row(25689600, -25200, 0, "MST")
           }
          }
         }
        } else {
         if i < 26 {
          if i < 25 {
           Table::row(41418000, -25200, 3600, "MDT")
          } else {
           Table::row(57744000, -25200, 0, "MST")
          }
         } else {
          if i < 27 {
           Table::row(73472400, -25200, 3600, "MDT")
          } else {
           if i < 28 {
            Table::row(89193600, -25200, 0, "MST")
           } else {
            Table::row(104922000, -25200, 3600, "MDT")
           }
          }
         }
        }
       } else {
        if i < 34 {
         if i < 31 {
          if i < 30 {
           Table::row(120643200, -25200, 0, "MST")
          } else {
           Table::row(126694800, -25200, 3600, "MDT")
          }
         } else {
          if i < 32 {
           Table::row(152092800, -25200, 0, "MST")
          } else {
           if i < 33 {
            Table::row(162378000, -25200, 3600, "MDT")
           } else {
            Table::row(183542400, -25200, 0, "MST")
           }
          }
         }
        } else {
         if i < 36 {
          if i < 35 {
           Table::row(199270800, -25200, 3600, "MDT")
          } else {
           Table::row(215596800, -25200, 0, "MST")
          }
         } else {
          if i < 37 {
           Table::row(230720400, -25200, 3600, "MDT")
          } else {
           if i < 38 {
            Table::row(247046400, -25200, 0, "MST")
           } else {
            Table::row(262774800, -25200, 3600, "MDT")
           }
          }
         }
        }
       }
      }
     } else {
      if i < 59 {
       if i < 49 {
        if i < 44 {
         if i < 41 {
          if i < 40 {
           Table::row(278496000, -25200, 0, "MST")
          } else {
           Table::row(294224400, -25200, 3600, "MDT")
          }
         } else {
          if i < 42 {
           Table::row(309945600, -25200, 0, "MST")
          } else {
           if i < 43 {
            Table::row(325674000, -25200, 3600, "MDT")
           } else {
            Table::row(341395200, -25200, 0, "MST")
           }
          }
         }
        } else {
         if i < 46 {
          if i < 45 {
           Table::row(357123600, -25200, 3600, "MDT")
          } else {
           Table::row(372844800, -25200, 0, "MST")
          }
         } else {
          if i < 47 {
           Table::row(388573200, -25200, 3600, "MDT")
          } else {
           if i < 48 {
            Table::row(404899200, -25200, 0, "MST")
           } else {
            Table::row(420022800, -25200, 3600, "MDT")
           }
          }
         }
        }
       } else {
        if i < 54 {
         if i < 51 {
          if i < 50 {
           Table::row(436348800, -25200, 0, "MST")
          } else {
           Table::row(452077200, -25200, 3600, "MDT")
          }
         } else {
          if i < 52 {
           Table::row(467798400, -25200, 0, "MST")
          } else {
           if i < 53 {
            Table::row(483526800, -25200, 3600, "MDT")
           } else {
            Table::row(499248000, -25200, 0, "MST")
           }
          }
         }
        } else {
         if i < 56 {
          if i < 55 {
           Table::row(514976400, -25200, 3600, "MDT")
          } else {
           Table::row(530697600, -25200, 0, "MST")
          }
         } else {
          if i < 57 {
           Table::row(544611600, -25200, 3600, "MDT")
          } else {
           if i < 58 {
            Table::row(562147200, -25200, 0, "MST")
           } else {
            Table::row(576061200, -25200, 3600, "MDT")
           }
          }
         }
        }
       }
      } else {
       if i < 69 {
        if i < 64 {
         if i < 61 {
          if i < 60 {
           Table::row(594201600, -25200, 0, "MST")
          } else {
           Table::row(607510800, -25200, 3600, "MDT")
          }
         } else {
          if i < 62 {
           Table::row(625651200, -25200, 0, "MST")
          } else {
           if i < 63 {
            Table::row(638960400, -25200, 3600, "MDT")
           } else {
            Table::row(657100800, -25200, 0, "MST")
           }
          }
         }
        } else {
         if i < 66 {
          if i < 65 {
           Table::row(671014800, -25200, 3600, "MDT")
          } else {
           Table::row(688550400, -25200, 0, "MST")
          }
         } else {
          if i < 67 {
           Table::row(702464400, -25200, 3600, "MDT")
          } else {
           if i < 68 {
            Table::row(720000000, -25200, 0, "MST")
           } else {
            Table::row(733914000, -25200, 3600, "MDT")
           }
          }
         }
        }
       } else {
        if i < 74 {
         if i < 71 {
          if i < 70 {
           Table::row(752054400, -25200, 0, "MST")
          } else {
           Table::row(765363600, -25200, 3600, "MDT")
          }
         } else {
          if i < 72 {
           Table::row(783504000, -25200, 0, "MST")
          } else {
           if i < 73 {
            Table::row(796813200, -25200, 3600, "MDT")
           } else {
            Table::row(814953600, -25200, 0, "MST")
           }
          }
         }
        } else {
         if i < 76 {
          if i < 75 {
           Table::row(828867600, -25200, 3600, "MDT")
          } else {
           Table::row(846403200, -25200, 0, "MST")
          }
         } else {
          if i < 77 {
           Table::row(860317200, -25200, 3600, "MDT")
          } else {
           if i < 78 {
            Table::row(877852800, -25200, 0, "MST")
           } else {
            Table::row(891766800, -25200, 3600, "MDT")
           }
          }
         }
        }
       }
      }
     }
    } else {
     if i < 118 {
      if i < 98 {
       if i < 88 {
        if i < 83 {
         if i < 81 {
          if i < 80 {
           Table::row(909302400, -25200, 0, "MST")
          } else {
           Table::row(923216400, -25200, 3600, "MDT")
          }
         } else {
          if i < 82 {
           Table::row(941356800, -25200, 0, "MST")
          } else {
           Table::row(954666000, -25200, 3600, "MDT")
          }
         }
        } else {
         if i < 85 {
          if i < 84 {
           Table::row(972806400, -25200, 0, "MST")
          } else {
           Table::row(986115600, -25200, 3600, "MDT")
          }
         } else {
          if i < 86 {
           Table::row(1004256000, -25200, 0, "MST")
          } else {
           if i < 87 {
            Table::row(1018170000, -25200, 3600, "MDT")
           } else {
            Table::row(1035705600, -25200, 0, "MST")
           }
          }
         }
        }
       } else {
        if i < 93 {
         if i < 90 {
          if i < 89 {
           Table::row(1049619600, -25200, 3600, "MDT")
          } else {
           Table::row(1067155200, -25200, 0, "MST")
          }
         } else {
          if i < 91 {
           Table::row(1081069200, -25200, 3600, "MDT")
          } else {
           if i < 92 {
            Table::row(1099209600, -25200, 0, "MST")
           } else {
            Table::row(1112518800, -25200, 3600, "MDT")
           }
          }
         }
        } else {
         if i < 95 {
          if i < 94 {
           Table::row(1130659200, -25200, 0, "MST")
          } else {
           Table::row(1143968400, -25200, 3600, "MDT")
          }
         } else {
          if i < 96 {
           Table::row(1162108800, -25200, 0, "MST")
          } else {
           if i < 97 {
            Table::row(1173603600, -25200, 3600, "MDT")
           } else {
            Table::row(1194163200, -25200, 0, "MST")
           }
          }
         }
        }
       }
      } else {
       if i < 108 {
        if i < 103 {
         if i < 100 {
          if i < 99 {
           Table::row(1205053200, -25200, 3600, "MDT")
          } else {
           Table::row(1225612800, -25200, 0, "MST")
          }
         } else {
          if i < 101 {
           Table::row(1236502800, -25200, 3600, "MDT")
          } else {
           if i < 102 {
            Table::row(1257062400, -25200, 0, "MST")
           } else {
            Table::row(1268557200, -25200, 3600, "MDT")
           }
          }
         }
        } else {
         if i < 105 {
          if i < 104 {
           Table::row(1289116800, -25200, 0, "MST")
          } else {
           Table::row(1300006800, -25200, 3600, "MDT")
          }
         } else {
          if i < 106 {
           Table::row(1320566400, -25200, 0, "MST")
          } else {
           if i < 107 {
            Table::row(1331456400, -25200, 3600, "MDT")
           } else {
            Table::row(1352016000, -25200, 0, "MST")
           }
          }
         }
        }
       } else {
        if i < 113 {
         if i < 110 {
          if i < 109 {
           Table::row(1362906000, -25200, 3600, "MDT")
          } else {
           Table::row(1383465600, -25200, 0, "MST")
          }
         } else {
          if i < 111 {
           Table::row(1394355600, -25200, 3600, "MDT")
          } else {
           if i < 112 {
            Table::row(1414915200, -25200, 0, "MST")
           } else {
            Table::row(1425805200, -25200, 3600, "MDT")
           }
          }
         }
        } else {
         if i < 115 {
          if i < 114 {
           Table::row(1446364800, -25200, 0, "MST")
          } else {
           Table::row(1457859600, -25200, 3600, "MDT")
          }
         } else {
          if i < 116 {
           Table::row(1478419200, -25200, 0, "MST")
          } else {
           if i < 117 {
            Table::row(1489309200, -25200, 3600, "MDT")
           } else {
            Table::row(1509868800, -25200, 0, "MST")
           }
          }
         }
        }
       }
      }
     } else {
      if i < 138 {
       if i < 128 {
        if i < 123 {
         if i < 120 {
          if i < 119 {
           Table::row(1520758800, -25200, 3600, "MDT")
          } else {
           Table::row(1541318400, -25200, 0, "MST")
          }
         } else {
          if i < 121 {
           Table::row(1552208400, -25200, 3600, "MDT")
          } else {
           if i < 122 {
            Table::row(1572768000, -25200, 0, "MST")
           } else {
            Table::row(1583658000, -25200, 3600, "MDT")
           }
          }
         }
        } else {
         if i < 125 {
          if i < 124 {
           Table::row(1604217600, -25200, 0, "MST")
          } else {
           Table::row(1615712400, -25200, 3600, "MDT")
          }
         } else {
          if i < 126 {
           Table::row(1636272000, -25200, 0, "MST")
          } else {
           if i < 127 {
            Table::row(1647162000, -25200, 3600, "MDT")
           } else {
            Table::row(1667721600, -25200, 0, "MST")
           }
          }
         }
        }
       } else {
        if i < 133 {
         if i < 130 {
          if i < 129 {
           Table::row(1678611600, -25200, 3600, "MDT")
          } else {
           Table::row(1699171200, -25200, 0, "MST")
          }
         } else {
          if i < 131 {
           Table::row(1710061200, -25200, 3600, "MDT")
          } else {
           if i < 132 {
            Table::row(1730620800, -25200, 0, "MST")
           } else {
            Table::row(1741510800, -25200, 3600, "MDT")
           }
          }
         }
        } else {
         if i < 135 {
          if i < 134 {
           Table::row(1762070400, -25200, 0, "MST")
          } else {
           Table::row(1772960400, -25200, 3600, "MDT")
          }
         } else {
          if i < 136 {
           Table::row(1793520000, -25200, 0, "MST")
          } else {
           if i < 137 {
            Table::row(1805014800, -25200, 3600, "MDT")
           } else {
            Table::row(1825574400, -25200, 0, "MST")
           }
          }
         }
        }
       }
      } else {
       if i < 148 {
        if i < 143 {
         if i < 140 {
          if i < 139 {
           Table::row(1836464400, -25200, 3600, "MDT")
          } else {
           Table::row(1857024000, -25200, 0, "MST")
          }
         } else {
          if i < 141 {
           Table::row(1867914000, -25200, 3600, "MDT")
          } else {
           if i < 142 {
            Table::row(1888473600, -25200, 0, "MST")
           } else {
            Table::row(1899363600, -25200, 3600, "MDT")
           }
          }
         }
        } else {
         if i < 145 {
          if i < 144 {
           Table::row(1919923200, -25200, 0, "MST")
          } else {
           Table::row(1930813200, -25200, 3600, "MDT")
          }
         } else {
          if i < 146 {
           Table::row(1951372800, -25200, 0, "MST")
          } else {
           if i < 147 {
            Table::row(1962867600, -25200, 3600, "MDT")
           } else {
            Table::row(1983427200, -25200, 0, "MST")
           }
          }
         }
        }
       } else {
        if i < 153 {
         if i < 150 {
          if i < 149 {
           Table::row(1994317200, -25200, 3600, "MDT")
          } else {
           Table::row(2014876800, -25200, 0, "MST")
          }
         } else {
          if i < 151 {
           Table::row(2025766800, -25200, 3600, "MDT")
          } else {
           if i < 152 {
            Table::row(2046326400, -25200, 0, "MST")
           } else {
            Table::row(2057216400, -25200, 3600, "MDT")
           }
          }
         }
        } else {
         if i < 155 {
          if i < 154 {
           Table::row(2077776000, -25200, 0, "MST")
          } else {
           Table::row(2088666000, -25200, 3600, "MDT")
          }
         } else {
          if i < 156 {
           Table::row(2109225600, -25200, 0, "MST")
          } else {
           if i < 157 {
            Table::row(2120115600, -25200, 3600, "MDT")
           } else {
            Table::row(2140675200, -25200, 0, "MST")
           }
          }
         }
        }
       }
      }
     }
    }
}

/// The rows of the table of the zone `America/Denver`.
pub open spec fn denver_rows() -> spec_fn(int) -> (i64, FixedTimespan) {
    |i: int| denver_row(i)
}

/// The table of the zone `America/Denver`.
pub open spec fn denver() -> Table {
    Table::listed(Table::row(0, -25196, 0, "LMT").1, 158, denver_rows())
}

/// Row `i` of the table of the zone `America/Detroit`.
pub open spec fn detroit_row(i: int) -> (i64, FixedTimespan) {
    if i < 70 {
     if i < 35 {
      if i < 17 {
       if i < 8 {
        if i < 4 {
         if i < 2 {
          if i < 1 {
           Table::row(-2051202469, -21600, 0, "CST")
          } else {
           Table::row(-1724083200, -18000, 0, "EST")
          }
         } else {
          if i < 3 {
           Table::row(-880218000, -18000, 3600, "EWT")
          } else {
           Table::row(-769395600, -18000, 3600, "EPT")
          }
         }
        } else {
         if i < 6 {
          if i < 5 {
           Table::row(-765396000, -18000, 0, "EST")
          } else {
           Table::row(-684349200, -18000, 3600, "EDT")
          }
         } else {
          if i < 7 {
           Table::row(-671047200, -18000, 0, "EST")
          } else {
           Table::row(-80506740, -18000, 3600, "EDT")
          }
         }
        }
       } else {
        if i < 12 {
         if i < 10 {
          if i < 9 {
           Table::row(-68666400, -18000, 0, "EST")
          } else {
           Table::row(-52938000, -18000, 3600, "EDT")
          }
         } else {
          if i < 11 {
           Table::row(-37216800, -18000, 0, "EST")
          } else {
           Table::row(104914800, -18000, 3600, "EDT")
          }
         }
        } else {
         if i < 14 {
          if i < 13 {
           Table::row(120636000, -18000, 0, "EST")
          } else {
           Table::row(126687600, -18000, 3600, "EDT")
          }
         } else {
          if i < 15 {
           Table::row(152085600, -18000, 0, "EST")
          } else {
           if i < 16 {
            Table::row(167814000, -18000, 3600, "EDT")
           } else {
            Table::row(183535200, -18000, 0, "EST")
           }
          }
         }
        }
       }
      } else {
       if i < 26 {
        if i < 21 {
         if i < 19 {
          if i < 18 {
           Table::row(199263600, -18000, 3600, "EDT")
          } else {
           Table::row(215589600, -18000, 0, "EST")
          }
         } else {
          if i < 20 {
           Table::row(230713200, -18000, 3600, "EDT")
          } else {
           Table::row(247039200, -18000, 0, "EST")
          }
         }
        } else {
         if i < 23 {
          if i < 22 {
           Table::row(262767600, -18000, 3600, "EDT")
          } else {
           Table::row(278488800, -18000, 0, "EST")
          }
         } else {
          if i < 24 {
           Table::row(294217200, -18000, 3600, "EDT")
          } else {
           if i < 25 {
            Table::row(309938400, -18000, 0, "EST")
           } else {
            Table::row(325666800, -18000, 3600, "EDT")
           }
          }
         }
        }
       } else {
        if i < 30 {
         if i < 28 {
          if i < 27 {
           Table::row(341388000, -18000, 0, "EST")
          } else {
           Table::row(357116400, -18000, 3600, "EDT")
          }
         } else {
          if i < 29 {
           Table::row(372837600, -18000, 0, "EST")
          } else {
           Table::row(388566000, -18000, 3600, "EDT")
          }
         }
        } else {
         if i < 32 {
          if i < 31 {
           Table::row(404892000, -18000, 0, "EST")
          } else {
           Table::row(420015600, -18000, 3600, "EDT")
          }
         } else {
          if i < 33 {
           Table::row(436341600, -18000, 0, "EST")
          } else {
           if i < 34 {
            Table::row(452070000, -18000, 3600, "EDT")
           } else {
            Table::row(467791200, -18000, 0, "EST")
           }
          }
         }
        }
       }
      }
     } else {
      if i < 52 {
       if i < 43 {
        if i < 39 {
         if i < 37 {
          if i < 36 {
           Table::row(483519600, -18000, 3600, "EDT")
          } else {
           Table::row(499240800, -18000, 0, "EST")
          }
         } else {
          if i < 38 {
           Table::row(514969200, -18000, 3600, "EDT")
          } else {
           Table::row(530690400, -18000, 0, "EST")
          }
         }
        } else {
         if i < 41 {
          if i < 40 {
           Table::row(544604400, -18000, 3600, "EDT")
          } else {
           Table::row(562140000, -18000, 0, "EST")
          }
         } else {
          if i < 42 {
           Table::row(576054000, -18000, 3600, "EDT")
          } else {
           Table::row(594194400, -18000, 0, "EST")
          }
         }
        }
       } else {
        if i < 47 {
         if i < 45 {
          if i < 44 {
           Table::row(607503600, -18000, 3600, "EDT")
          } else {
           Table::row(625644000, -18000, 0, "EST")
          }
         } else {
          if i < 46 {
           Table::row(638953200, -18000, 3600, "EDT")
          } else {
           Table::row(657093600, -18000, 0, "EST")
          }
         }
        } else {
         if i < 49 {
          if i < 48 {
           Table::row(671007600, -18000, 3600, "EDT")
          } else {
           Table::row(688543200, -18000, 0, "EST")
          }
         } else {
          if i < 50 {
           Table::row(702457200, -18000, 3600, "EDT")
          } else {
           if i < 51 {
            Table::row(719992800, -18000, 0, "EST")
           } else {
            Table::row(733906800, -18000, 3600, "EDT")
           }
          }
         }
        }
       }
      } else {
       if i < 61 {
        if i < 56 {
         if i < 54 {
          if i < 53 {
           Table::row(752047200, -18000, 0, "EST")
          } else {
           Table::row(765356400, -18000, 3600, "EDT")
          }
         } else {
          if i < 55 {
           Table::row(783496800, -18000, 0, "EST")
          } else {
           Table::row(796806000, -18000, 3600, "EDT")
          }
         }
        } else {
         if i < 58 {
          if i < 57 {
           Table::row(814946400, -18000, 0, "EST")
          } else {
           Table::row(828860400, -18000, 3600, "EDT")
          }
         } else {
          if i < 59 {
           Table::row(846396000, -18000, 0, "EST")
          } else {
           if i < 60 {
            Table::row(860310000, -18000, 3600, "EDT")
           } else {
            Table::row(877845600, -18000, 0, "EST")
           }
          }
         }
        }
       } else {
        if i < 65 {
         if i < 63 {
          if i < 62 {
           Table::row(891759600, -18000, 3600, "EDT")
          } else {
           Table::row(909295200, -18000, 0, "EST")
          }
         } else {
          if i < 64 {
           Table::row(923209200, -18000, 3600, "EDT")
          } else {
           Table::row(941349600, -18000, 0, "EST")
          }
         }
        } else {
         if i < 67 {
          if i < 66 {
           Table::row(954658800, -18000, 3600, "EDT")
          } else {
           Table::row(972799200, -18000, 0, "EST")
          }
         } else {
          if i < 68 {
           Table::row(986108400, -18000, 3600, "EDT")
          } else {
           if i < 69 {
            Table::row(1004248800, -18000, 0, "EST")
           } else {
            Table::row(1018162800, -18000, 3600, "EDT")
           }
          }
         }
        }
       }
      }
     }
    } else {
     if i < 105 {
      if i < 87 {
       if i < 78 {
        if i < 74 {
         if i < 72 {
          if i < 71 {
           Table::row(1035698400, -18000, 0, "EST")
          } else {
           Table::row(1049612400, -18000, 3600, "EDT")
          }
         } else {
          if i < 73 {
           Table::row(1067148000, -18000, 0, "EST")
          } else {
           Table::row(1081062000, -18000, 3600, "EDT")
          }
         }
        } else {
         if i < 76 {
          if i < 75 {
           Table::row(1099202400, -18000, 0, "EST")
          } else {
           Table::row(1112511600, -18000, 3600, "EDT")
          }
         } else {
          if i < 77 {
           Table::row(1130652000, -18000, 0, "EST")
          } else {
           Table::row(1143961200, -18000, 3600, "EDT")
          }
         }
        }
       } else {
        if i < 82 {
         if i < 80 {
          if i < 79 {
           Table::row(1162101600, -18000, 0, "EST")
          } else {
           Table::row(1173596400, -18000, 3600, "EDT")
          }
         } else {
          if i < 81 {
           Table::row(1194156000, -18000, 0, "EST")
          } else {
           Table::row(1205046000, -18000, 3600, "EDT")
          }
         }
        } else {
         if i < 84 {
          if i < 83 {
           Table::row(1225605600, -18000, 0, "EST")
          } else {
           Table::row(1236495600, -18000, 3600, "EDT")
          }
         } else {
          if i < 85 {
           Table::row(1257055200, -18000, 0, "EST")
          } else {
           if i < 86 {
            Table::row(1268550000, -18000, 3600, "EDT")
           } else {
            Table::row(1289109600, -18000, 0, "EST")
           }
          }
         }
        }
       }
      } else {
       if i < 96 {
        if i < 91 {
         if i < 89 {
          if i < 88 {
           Table::row(1299999600, -18000, 3600, "EDT")
          } else {
           Table::row(1320559200, -18000, 0, "EST")
          }
         } else {
          if i < 90 {
           Table::row(1331449200, -18000, 3600, "EDT")
          } else {
           Table::row(1352008800, -18000, 0, "EST")
          }
         }
        } else {
         if i < 93 {
          if i < 92 {
           Table::row(1362898800, -18000, 3600, "EDT")
          } else {
           Table::row(1383458400, -18000, 0, "EST")
          }
         } else {
          if i < 94 {
           Table::row(1394348400, -18000, 3600, "EDT")
          } else {
           if i < 95 {
            Table::row(1414908000, -18000, 0, "EST")
           } else {
            Table::row(1425798000, -18000, 3600, "EDT")
           }
          }
         }
        }
       } else {
        if i < 100 {
         if i < 98 {
          if i < 97 {
           Table::row(1446357600, -18000, 0, "EST")
          } else {
           Table::row(1457852400, -18000, 3600, "EDT")
          }
         } else {
          if i < 99 {
           Table::row(1478412000, -18000, 0, "EST")
          } else {
           Table::row(1489302000, -18000, 3600, "EDT")
          }
         }
        } else {
         if i < 102 {
          if i < 101 {
           Table::row(1509861600, -18000, 0, "EST")
          } else {
           Table::row(1520751600, -18000, 3600, "EDT")
          }
         } else {
          if i < 103 {
           Table::row(1541311200, -18000, 0, "EST")
          } else {
           if i < 104 {
            Table::row(1552201200, -18000, 3600, "EDT")
           } else {
            Table::row(1572760800, -18000, 0, "EST")
           }
          }
         }
        }
       }
      }
     } else {
      if i < 123 {
       if i < 114 {
        if i < 109 {
         if i < 107 {
          if i < 106 {
           Table::row(1583650800, -18000, 3600, "EDT")
          } else {
           Table::row(1604210400, -18000, 0, "EST")
          }
         } else {
          if i < 108 {
           Table::row(1615705200, -18000, 3600, "EDT")
          } else {
           Table::row(1636264800, -18000, 0, "EST")
          }
         }
        } else {
         if i < 111 {
          if i < 110 {
           Table::row(1647154800, -18000, 3600, "EDT")
          } else {
           Table::row(1667714400, -18000, 0, "EST")
          }
         } else {
          if i < 112 {
           Table::row(1678604400, -18000, 3600, "EDT")
          } else {
           if i < 113 {
            Table::row(1699164000, -18000, 0, "EST")
           } else {
            Table::row(1710054000, -18000, 3600, "EDT")
           }
          }
         }
        }
       } else {
        if i < 118 {
         if i < 116 {
          if i < 115 {
           Table::row(1730613600, -18000, 0, "EST")
          } else {
           Table::row(1741503600, -18000, 3600, "EDT")
          }
         } else {
          if i < 117 {
           Table::row(1762063200, -18000, 0, "EST")
          } else {
           Table::row(1772953200, -18000, 3600, "EDT")
          }
         }
        } else {
         if i < 120 {
          if i < 119 {
           Table::row(1793512800, -18000, 0, "EST")
          } else {
           Table::row(1805007600, -18000, 3600, "EDT")
          }
         } else {
          if i < 121 {
           Table::row(1825567200, -18000, 0, "EST")
          } else {
           if i < 122 {
            Table::row(1836457200, -18000, 3600, "EDT")
           } else {
            Table::row(1857016800, -18000, 0, "EST")
           }
          }
         }
        }
       }
      } else {
       if i < 132 {
        if i < 127 {
         if i < 125 {
          if i < 124 {
           Table::row(1867906800, -18000, 3600, "EDT")
          } else {
           Table::row(1888466400, -18000, 0, "EST")
          }
         } else {
          if i < 126 {
           Table::row(1899356400, -18000, 3600, "EDT")
          } else {
           Table::row(1919916000, -18000, 0, "EST")
          }
         }
        } else {
         if i < 129 {
          if i < 128 {
           Table::row(1930806000, -18000, 3600, "EDT")
          } else {
           Table::row(1951365600, -18000, 0, "EST")
          }
         } else {
          if i < 130 {
           Table::row(1962860400, -18000, 3600, "EDT")
          } else {
           if i < 131 {
            Table::row(1983420000, -18000, 0, "EST")
           } else {
            Table::row(1994310000, -18000, 3600, "EDT")
           }
          }
         }
        }
       } else {
        if i < 136 {
         if i < 134 {
          if i < 133 {
           Table::row(2014869600, -18000, 0, "EST")
          } else {
           Table::row(2025759600, -18000, 3600, "EDT")
          }
         } else {
          if i < 135 {
           Table::row(2046319200, -18000, 0, "EST")
          } else {
           Table::row(2057209200, -18000, 3600, "EDT")
          }
         }
        } else {
         if i < 138 {
          if i < 137 {
           Table::row(2077768800, -18000, 0, "EST")
          } else {
           Table::row(2088658800, -18000, 3600, "EDT")
          }
         } else {
          if i < 139 {
           Table::row(2109218400, -18000, 0, "EST")
          } else {
           if i < 140 {
            Table::row(2120108400, -18000, 3600, "EDT")
           } else {
            Table::row(2140668000, -18000, 0, "EST")
           }
          }
         }
        }
       }
      }
     }
    }
}

/// The rows of the table of the zone `America/Detroit`.
pub open spec fn detroit_rows() -> spec_fn(int) -> (i64, FixedTimespan) {
    |i: int| detroit_row(i)
}

/// The table of the zone `America/Detroit`.
pub open spec fn detroit() -> Table {
    Table::listed(Table::row(0, -19931, 0, "LMT").1, 141, detroit_rows())
}

/// Row `i` of the table of the zone `America/Dominica`.
pub open spec fn dominica_row(i: int) -> (i64, FixedTimespan) {
    Table::row(-1846266804, -14400, 0, "AST")
}

/// The rows of the table of the zone `America/Dominica`.
pub open spec fn dominica_rows() -> spec_fn(int) -> (i64, FixedTimespan) {
    |i: int| dominica_row(i)
}

/// The table of the zone `America/Dominica`.
pub open spec fn dominica() -> Table {
    Table::listed(Table::row(0, -14736, 0, "LMT").1, 1, dominica_rows())
}

/// Row `i` of the table of the zone `America/Edmonton`.
pub open spec fn edmonton_row(i: int) -> (i64, FixedTimespan) {
    if i < 75 {
     if i < 37 {
      if i < 18 {
       if i < 9 {
        if i < 4 {
         if i < 2 {
          if i < 1 {
           Table::row(-1998663968, -25200, 0, "MST")
          } else {
           Table::row(-1632063600, -25200, 3600, "MDT")
          }
         } else {
          if i < 3 {
           Table::row(-1615132800, -25200, 0, "MST")
          } else {
           Table::row(-1600614000, -25200, 3600, "MDT")
          }
         }
        } else {
         if i < 6 {
          if i < 5 {
           Table::row(-1596816000, -25200, 0, "MST")
          } else {
           Table::row(-1567954800, -25200, 3600, "MDT")
          }
         } else {
          if i < 7 {
           Table::row(-1551628800, -25200, 0, "MST")
          } else {
           if i < 8 {
            Table::row(-1536505200, -25200, 3600, "MDT")
           } else {
            Table::row(-1523203200, -25200, 0, "MST")
           }
          }
         }
        }
       } else {
        if i < 13 {
         if i < 11 {
          if i < 10 {
           Table::row(-1504450800, -25200, 3600, "MDT")
          } else {
           Table::row(-1491753600, -25200, 0, "MST")
          }
         } else {
          if i < 12 {
           Table::row(-1473001200, -25200, 3600, "MDT")
          } else {
           Table::row(-1459699200, -25200, 0, "MST")
          }
         }
        } else {
         if i < 15 {
          if i < 14 {
           Table::row(-880210800, -25200, 3600, "MWT")
          } else {
           Table::row(-769395600, -25200, 3600, "MPT")
          }
         } else {
          if i < 16 {
           Table::row(-765388800, -25200, 0, "MST")
          } else {
           if i < 17 {
            Table::row(-715791600, -25200, 3600, "MDT")
           } else {
            Table::row(-702489600, -25200, 0, "MST")
           }
          }
         }
        }
       }
      } else {
       if i < 27 {
        if i < 22 {
         if i < 20 {
          if i < 19 {
           Table::row(73472400, -25200, 3600, "MDT")
          } else {
           Table::row(89193600, -25200, 0, "MST")
          }
         } else {
          if i < 21 {
           Table::row(104922000, -25200, 3600, "MDT")
          } else {
           Table::row(120643200, -25200, 0, "MST")
          }
         }
        } else {
         if i < 24 {
          if i < 23 {
           Table::row(136371600, -25200, 3600, "MDT")
          } else {
           Table::row(152092800, -25200, 0, "MST")
          }
         } else {
          if i < 25 {
           Table::row(167821200, -25200, 3600, "MDT")
          } else {
           if i < 26 {
            Table::row(183542400, -25200, 0, "MST")
           } else {
            Table::row(199270800, -25200, 3600, "MDT")
           }
          }
         }
        }
       } else {
        if i < 32 {
         if i < 29 {
          if i < 28 {
           Table::row(215596800, -25200, 0, "MST")
          } else {
           Table::row(230720400, -25200, 3600, "MDT")
          }
         } else {
          if i < 30 {
           Table::row(247046400, -25200, 0, "MST")
          } else {
           if i < 31 {
            Table::row(262774800, -25200, 3600, "MDT")
           } else {
            Table::row(278496000, -25200, 0, "MST")
           }
          }
         }
        } else {
         if i < 34 {
          if i < 33 {
           Table::row(294224400, -25200, 3600, "MDT")
          } else {
           Table::row(309945600, -25200, 0, "MST")
          }
         } else {
          if i < 35 {
           Table::row(325674000, -25200, 3600, "MDT")
          } else {
           if i < 36 {
            Table::row(341395200, -25200, 0, "MST")
           } else {
            Table::row(357123600, -25200, 3600, "MDT")
           }
          }
         }
        }
       }
      }
     } else {
      if i < 56 {
       if i < 46 {
        if i < 41 {
         if i < 39 {
          if i < 38 {
           Table::row(372844800, -25200, 0, "MST")
          } else {
           Table::row(388573200, -25200, 3600, "MDT")
          }
         } else {
          if i < 40 {
           Table::row(404899200, -25200, 0, "MST")
          } else {
           Table::row(420022800, -25200, 3600, "MDT")
          }
         }
        } else {
         if i < 43 {
          if i < 42 {
           Table::row(436348800, -25200, 0, "MST")
          } else {
           Table::row(452077200, -25200, 3600, "MDT")
          }
         } else {
          if i < 44 {
           Table::row(467798400, -25200, 0, "MST")
          } else {
           if i < 45 {
            Table::row(483526800, -25200, 3600, "MDT")
           } else {
            Table::row(499248000, -25200, 0, "MST")
           }
          }
         }
        }
       } else {
        if i < 51 {
         if i < 48 {
          if i < 47 {
           Table::row(514976400, -25200, 3600, "MDT")
          } else {
           Table::row(530697600, -25200, 0, "MST")
          }
         } else {
          if i < 49 {
           Table::row(544611600, -25200, 3600, "MDT")
          } else {
           if i < 50 {
            Table::row(562147200, -25200, 0, "MST")
           } else {
            Table::row(576061200, -25200, 3600, "MDT")
           }
          }
         }
        } else {
         if i < 53 {
          if i < 52 {
           Table::row(594201600, -25200, 0, "MST")
          } else {
           Table::row(607510800, -25200, 3600, "MDT")
          }
         } else {
          if i < 54 {
           Table::row(625651200, -25200, 0, "MST")
          } else {
           if i < 55 {
            Table::row(638960400, -25200, 3600, "MDT")
           } else {
            Table::row(657100800, -25200, 0, "MST")
           }
          }
         }
        }
       }
      } else {
       if i < 65 {
        if i < 60 {
         if i < 58 {
          if i < 57 {
           Table::row(671014800, -25200, 3600, "MDT")
          } else {
           Table::row(688550400, -25200, 0, "MST")
          }
         } else {
          if i < 59 {
           Table::row(702464400, -25200, 3600, "MDT")
          } else {
           Table::row(720000000, -25200, 0, "MST")
          }
         }
        } else {
         if i < 62 {
          if i < 61 {
           Table::row(733914000, -25200, 3600, "MDT")
          } else {
           Table::row(752054400, -25200, 0, "MST")
          }
         } else {
          if i < 63 {
           Table::row(765363600, -25200, 3600, "MDT")
          } else {
           if i < 64 {
            Table::row(783504000, -25200, 0, "MST")
           } else {
            Table::row(796813200, -25200, 3600, "MDT")
           }
          }
         }
        }
       } else {
        if i < 70 {
         if i < 67 {
          if i < 66 {
           Table::row(814953600, -25200, 0, "MST")
          } else {
           Table::row(828867600, -25200, 3600, "MDT")
          }
         } else {
          if i < 68 {
           Table::row(846403200, -25200, 0, "MST")
          } else {
           if i < 69 {
            Table::row(860317200, -25200, 3600, "MDT")
           } else {
            Table::row(877852800, -25200, 0, "MST")
           }
          }
         }
        } else {
         if i < 72 {
          if i < 71 {
           Table::row(891766800, -25200, 3600, "MDT")
          } else {
           Table::row(909302400, -25200, 0, "MST")
          }
         } else {
          if i < 73 {
           Table::row(923216400, -25200, 3600, "MDT")
          } else {
           if i < 74 {
            Table::row(941356800, -25200, 0, "MST")
           } else {
            Table::row(954666000, -25200, 3600, "MDT")
           }
          }
         }
        }
       }
      }
     }
    } else {
     if i < 112 {
      if i < 93 {
       if i < 84 {
        if i < 79 {
         if i < 77 {
          if i < 76 {
           Table::row(972806400, -25200, 0, "MST")
          } else {
           Table::row(986115600, -25200, 3600, "MDT")
          }
         } else {
          if i < 78 {
           Table::row(1004256000, -25200, 0, "MST")
          } else {
           Table::row(1018170000, -25200, 3600, "MDT")
          }
         }
        } else {
         if i < 81 {
          if i < 80 {
           Table::row(1035705600, -25200, 0, "MST")
          } else {
           Table::row(1049619600, -25200, 3600, "MDT")
          }
         } else {
          if i < 82 {
           Table::row(1067155200, -25200, 0, "MST")
          } else {
           if i < 83 {
            Table::row(1081069200, -25200, 3600, "MDT")
           } else {
            Table::row(1099209600, -25200, 0, "MST")
           }
          }
         }
        }
       } else {
        if i < 88 {
         if i < 86 {
          if i < 85 {
           Table::row(1112518800, -25200, 3600, "MDT")
          } else {
           Table::row(1130659200, -25200, 0, "MST")
          }
         } else {
          if i < 87 {
           Table::row(1143968400, -25200, 3600, "MDT")
          } else {
           Table::row(1162108800, -25200, 0, "MST")
          }
         }
        } else {
         if i < 90 {
          if i < 89 {
           Table::row(1173603600, -25200, 3600, "MDT")
          } else {
           Table::row(1194163200, -25200, 0, "MST")
          }
         } else {
          if i < 91 {
           Table::row(1205053200, -25200, 3600, "MDT")
          } else {
           if i < 92 {
            Table::row(1225612800, -25200, 0, "MST")
           } else {
            Table::row(1236502800, -25200, 3600, "MDT")
           }
          }
         }
        }
       }
      } else {
       if i < 102 {
        if i < 97 {
         if i < 95 {
          if i < 94 {
           Table::row(1257062400, -25200, 0, "MST")
          } else {
           Table::row(1268557200, -25200, 3600, "MDT")
          }
         } else {
          if i < 96 {
           Table::row(1289116800, -25200, 0, "MST")
          } else {
           Table::row(1300006800, -25200, 3600, "MDT")
          }
         }
        } else {
         if i < 99 {
          if i < 98 {
           Table::row(1320566400, -25200, 0, "MST")
          } else {
           Table::row(1331456400, -25200, 3600, "MDT")
          }
         } else {
          if i < 100 {
           Table::row(1352016000, -25200, 0, "MST")
          } else {
           if i < 101 {
            Table::row(1362906000, -25200, 3600, "MDT")
           } else {
            Table::row(1383465600, -25200, 0, "MST")
           }
          }
         }
        }
       } else {
        if i < 107 {
         if i < 104 {
          if i < 103 {
           Table::row(1394355600, -25200, 3600, "MDT")
          } else {
           Table::row(1414915200, -25200, 0, "MST")
          }
         } else {
          if i < 105 {
           Table::row(1425805200, -25200, 3600, "MDT")
          } else {
           if i < 106 {
            Table::row(1446364800, -25200, 0, "MST")
           } else {
            Table::row(1457859600, -25200, 3600, "MDT")
           }
          }
         }
        } else {
         if i < 109 {
          if i < 108 {
           Table::row(1478419200, -25200, 0, "MST")
          } else {
           Table::row(1489309200, -25200, 3600, "MDT")
          }
         } else {
          if i < 110 {
           Table::row(1509868800, -25200, 0, "MST")
          } else {
           if i < 111 {
            Table::row(1520758800, -25200, 3600, "MDT")
           } else {
            Table::row(1541318400, -25200, 0, "MST")
           }
          }
         }
        }
       }
      }
     } else {
      if i < 131 {
       if i < 121 {
        if i < 116 {
         if i < 114 {
          if i < 113 {
           Table::row(1552208400, -25200, 3600, "MDT")
          } else {
           Table::row(1572768000, -25200, 0, "MST")
          }
         } else {
          if i < 115 {
           Table::row(1583658000, -25200, 3600, "MDT")
          } else {
           Table::row(1604217600, -25200, 0, "MST")
          }
         }
        } else {
         if i < 118 {
          if i < 117 {
           Table::row(1615712400, -25200, 3600, "MDT")
          } else {
           Table::row(1636272000, -25200, 0, "MST")
          }
         } else {
          if i < 119 {
           Table::row(1647162000, -25200, 3600, "MDT")
          } else {
           if i < 120 {
            Table::row(1667721600, -25200, 0, "MST")
           } else {
            Table::row(1678611600, -25200, 3600, "MDT")
           }
          }
         }
        }
       } else {
        if i < 126 {
         if i < 123 {
          if i < 122 {
           Table::row(1699171200, -25200, 0, "MST")
          } else {
           Table::row(1710061200, -25200, 3600, "MDT")
          }
         } else {
          if i < 124 {
           Table::row(1730620800, -25200, 0, "MST")
          } else {
           if i < 125 {
            Table::row(1741510800, -25200, 3600, "MDT")
           } else {
            Table::row(1762070400, -25200, 0, "MST")
           }
          }
         }
        } else {
         if i < 128 {
          if i < 127 {
           Table::row(1772960400, -25200, 3600, "MDT")
          } else {
           Table::row(1793520000, -25200, 0, "MST")
          }
         } else {
          if i < 129 {
           Table::row(1805014800, -25200, 3600, "MDT")
          } else {
           if i < 130 {
            Table::row(1825574400, -25200, 0, "MST")
           } else {
            Table::row(1836464400, -25200, 3600, "MDT")
           }
          }
         }
        }
       }
      } else {
       if i < 140 {
        if i < 135 {
         if i < 133 {
          if i < 132 {
           Table::row(1857024000, -25200, 0, "MST")
          } else {
           Table::row(1867914000, -25200, 3600, "MDT")
          }
         } else {
          if i < 134 {
           Table::row(1888473600, -25200, 0, "MST")
          } else {
           Table::row(1899363600, -25200, 3600, "MDT")
          }
         }
        } else {
         if i < 137 {
          if i < 136 {
           Table::row(1919923200, -25200, 0, "MST")
          } else {
           Table::row(1930813200, -25200, 3600, "MDT")
          }
         } else {
          if i < 138 {
           Table::row(1951372800, -25200, 0, "MST")
          } else {
           if i < 139 {
            Table::row(1962867600, -25200, 3600, "MDT")
           } else {
            Table::row(1983427200, -25200, 0, "MST")
           }
          }
         }
        }
       } else {
        if i < 145 {
         if i < 142 {
          if i < 141 {
           Table::row(1994317200, -25200, 3600, "MDT")
          } else {
           Table::row(2014876800, -25200, 0, "MST")
          }
         } else {
          if i < 143 {
           Table::row(2025766800, -25200, 3600, "MDT")
          } else {
           if i < 144 {
            Table::row(2046326400, -25200, 0, "MST")
           } else {
            Table::row(2057216400, -25200, 3600, "MDT")
           }
          }
         }
        } else {
         if i < 147 {
          if i < 146 {
           Table::row(2077776000, -25200, 0, "MST")
          } else {
           Table::row(2088666000, -25200, 3600, "MDT")
          }
         } else {
          if i < 148 {
           Table::row(2109225600, -25200, 0, "MST")
          } else {
           if i < 149 {
            Table::row(2120115600, -25200, 3600, "MDT")
           } else {
            Table::row(2140675200, -25200, 0, "MST")
           }
          }
         }
        }
       }
      }
     }
    }
}

/// The rows of the table of the zone `America/Edmonton`.
pub open spec fn edmonton_rows() -> spec_fn(int) -> (i64, FixedTimespan) {
    |i: int| edmonton_row(i)
}

/// The table of the zone `America/Edmonton`.
pub open spec fn edmonton() -> Table {
    Table::listed(Table::row(0, -27232, 0, "LMT").1, 150, edmonton_rows())
}

/// Row `i` of the table of the zone `America/Eirunepe`.
pub open spec fn eirunepe_row(i: int) -> (i64, FixedTimespan) {
    if i < 17 {
     if i < 8 {
      if i < 4 {
       if i < 2 {
        if i < 1 {
         Table::row(-1767208832, -18000, 0, "-05")
        } else {
         Table::row(-1206950400, -18000, 3600, "-04")
        }
       } else {
        if i < 3 {
         Table::row(-1191355200, -18000, 0, "-05")
        } else {
         Table::row(-1175367600, -18000, 3600, "-04")
        }
       }
      } else {
       if i < 6 {
        if i < 5 {
         Table::row(-1159819200, -18000, 0, "-05")
        } else {
         Table::row(-633812400, -18000, 3600, "-04")
        }
       } else {
        if i < 7 {
         Table::row(-622062000, -18000, 0, "-05")
        } else {
         Table::row(-602276400, -18000, 3600, "-04")
        }
       }
      }
     } else {
      if i < 12 {
       if i < 10 {
        if i < 9 {
         Table::row(-591825600, -18000, 0, "-05")
        } else {
         Table::row(-570740400, -18000, 3600, "-04")
        }
       } else {
        if i < 11 {
         Table::row(-560203200, -18000, 0, "-05")
        } else {
         Table::row(-539118000, -18000, 3600, "-04")
        }
       }
      } else {
       if i < 14 {
        if i < 13 {
         Table::row(-531345600, -18000, 0, "-05")
        } else {
         Table::row(-191358000, -18000, 3600, "-04")
        }
       } else {
        if i < 15 {
         Table::row(-184190400, -18000, 0, "-05")
        } else {
         if i < 16 {
          Table::row(-155156400, -18000, 3600, "-04")
         } else {
          Table::row(-150062400, -18000, 0, "-05")
         }
        }
       }
      }
     }
    } else {
     if i < 25 {
      if i < 21 {
       if i < 19 {
        if i < 18 {
         Table::row(-128890800, -18000, 3600, "-04")
        } else {
         Table::row(-121118400, -18000, 0, "-05")
        }
       } else {
        if i < 20 {
         Table::row(-99946800, -18000, 3600, "-04")
        } else {
         Table::row(-89582400, -18000, 0, "-05")
        }
       }
      } else {
       if i < 23 {
        if i < 22 {
         Table::row(-68410800, -18000, 3600, "-04")
        } else {
         Table::row(-57960000, -18000, 0, "-05")
        }
       } else {
        if i < 24 {
         Table::row(499755600, -18000, 3600, "-04")
        } else {
         Table::row(511243200, -18000, 0, "-05")
        }
       }
      }
     } else {
      if i < 29 {
       if i < 27 {
        if i < 26 {
         Table::row(530600400, -18000, 3600, "-04")
        } else {
         Table::row(540273600, -18000, 0, "-05")
        }
       } else {
        if i < 28 {
         Table::row(562136400, -18000, 3600, "-04")
        } else {
         Table::row(571204800, -18000, 0, "-05")
        }
       }
      } else {
       if i < 31 {
        if i < 30 {
         Table::row(750834000, -18000, 3600, "-04")
        } else {
         Table::row(761716800, -18000, 0, "-05")
        }
       } else {
        if i < 32 {
         Table::row(1214283600, -14400, 0, "-04")
        } else {
         if i < 33 {
          Table::row(1384056000, -18000, 0, "-05")
         } else {
          Table::row(2147483647, -18000, 0, "-05")
         }
        }
       }
      }
     }
    }
}

/// The rows of the table of the zone `America/Eirunepe`.
pub open spec fn eirunepe_rows() -> spec_fn(int) -> (i64, FixedTimespan) {
    |i: int| eirunepe_row(i)
}

/// The table of the zone `America/Eirunepe`.
pub open spec fn eirunepe() -> Table {
    Table::listed(Table::row(0, -16768, 0, "LMT").1, 34, eirunepe_rows())
}

/// Row `i` of the table of the zone `America/El_Salvador`.
pub open spec fn el_salvador_row(i: int) -> (i64, FixedTimespan) {
    if i < 2 {
     if i < 1 {
      Table::row(-1546279392, -21600, 0, "CST")
     } else {
      Table::row(547020000, -21600, 3600, "CDT")
     }
    } else {
     if i < 3 {
      Table::row(559717200, -21600, 0, "CST")
     } else {
      if i < 4 {
       Table::row(578469600, -21600, 3600, "CDT")
      } else {
       Table::row(591166800, -21600, 0, "CST")
      }
     }
    }
}

/// The rows of the table of the zone `America/El_Salvador`.
pub open spec fn el_salvador_rows() -> spec_fn(int) -> (i64, FixedTimespan) {
    |i: int| el_salvador_row(i)
}

/// The table of the zone `America/El_Salvador`.
pub open spec fn el_salvador() -> Table {
    Table::listed(Table::row(0, -21408, 0, "LMT").1, 5, el_salvador_rows())
}

/// Row `i` of the table of the zone `America/Ensenada`.
pub open spec fn ensenada_row(i: int) -> (i64, FixedTimespan) {
    if i < 77 {
     if i < 38 {
      if i < 19 {
       if i < 9 {
        if i < 4 {
         if i < 2 {
          if i < 1 {
           Table::row(-1514739600, -25200, 0, "MST")
          } else {
           Table::row(-1451667600, -28800, 0, "PST")
          }
         } else {
          if i < 3 {
           Table::row(-1343145600, -25200, 0, "MST")
          } else {
           Table::row(-1234803600, -28800, 0, "PST")
          }
         }
        } else {
         if i < 6 {
          if i < 5 {
           Table::row(-1222963200, -28800, 3600, "PDT")
          } else {
           Table::row(-1207242000, -28800, 0, "PST")
          }
         } else {
          if i < 7 {
           Table::row(-873820800, -28800, 3600, "PWT")
          } else {
           if i < 8 {
            Table::row(-769395600, -28800, 3600, "PPT")
           } else {
            Table::row(-761418000, -28800, 0, "PST")
           }
          }
         }
        }
       } else {
        if i < 14 {
         if i < 11 {
          if i < 10 {
           Table::row(-686073600, -28800, 3600, "PDT")
          } else {
           Table::row(-661539600, -28800, 0, "PST")
          }
         } else {
          if i < 12 {
           Table::row(-620755200, -28800, 3600, "PDT")
          } else {
           if i < 13 {
            Table::row(-608144400, -28800, 0, "PST")
           } else {
            Table::row(-589384800, -28800, 3600, "PDT")
           }
          }
         }
        } else {
         if i < 16 {
          if i < 15 {
           Table::row(-576082800, -28800, 0, "PST")
          } else {
           Table::row(-557935200, -28800, 3600, "PDT")
          }
         } else {
          if i < 17 {
           Table::row(-544633200, -28800, 0, "PST")
          } else {
           if i < 18 {
            Table::row(-495039600, -28800, 3600, "PDT")
           } else {
            Table::row(-481734000, -28800, 0, "PST")
           }
          }
         }
        }
       }
      } else {
       if i < 28 {
        if i < 23 {
         if i < 21 {
          if i < 20 {
           Table::row(-463590000, -28800, 3600, "PDT")
          } else {
           Table::row(-450284400, -28800, 0, "PST")
          }
         } else {
          if i < 22 {
           Table::row(-431535600, -28800, 3600, "PDT")
          } else {
           Table::row(-418230000, -28800, 0, "PST")
          }
         }
        } else {
         if i < 25 {
          if i < 24 {
           Table::row(-400086000, -28800, 3600, "PDT")
          } else {
           Table::row(-386780400, -28800, 0, "PST")
          }
         } else {
          if i < 26 {
           Table::row(-368636400, -28800, 3600, "PDT")
          } else {
           if i < 27 {
            Table::row(-355330800, -28800, 0, "PST")
           } else {
            Table::row(-337186800, -28800, 3600, "PDT")
           }
          }
         }
        }
       } else {
        if i < 33 {
         if i < 30 {
          if i < 29 {
           Table::row(-323881200, -28800, 0, "PST")
          } else {
           Table::row(-305737200, -28800, 3600, "PDT")
          }
         } else {
          if i < 31 {
           Table::row(-292431600, -28800, 0, "PST")
          } else {
           if i < 32 {
            Table::row(199274400, -28800, 3600, "PDT")
           } else {
            Table::row(215600400, -28800, 0, "PST")
           }
          }
         }
        } else {
         if i < 35 {
          if i < 34 {
           Table::row(230724000, -28800, 3600, "PDT")
          } else {
           Table::row(247050000, -28800, 0, "PST")
          }
         } else {
          if i < 36 {
           Table::row(262778400, -28800, 3600, "PDT")
          } else {
           if i < 37 {
            Table::row(278499600, -28800, 0, "PST")
           } else {
            Table::row(294228000, -28800, 3600, "PDT")
           }
          }
         }
        }
       }
      }
     } else {
      if i < 57 {
       if i < 47 {
        if i < 42 {
         if i < 40 {
          if i < 39 {
           Table::row(309949200, -28800, 0, "PST")
          } else {
           Table::row(325677600, -28800, 3600, "PDT")
          }
         } else {
          if i < 41 {
           Table::row(341398800, -28800, 0, "PST")
          } else {
           Table::row(357127200, -28800, 3600, "PDT")
          }
         }
        } else {
         if i < 44 {
          if i < 43 {
           Table::row(372848400, -28800, 0, "PST")
          } else {
           Table::row(388576800, -28800, 3600, "PDT")
          }
         } else {
          if i < 45 {
           Table::row(404902800, -28800, 0, "PST")
          } else {
           if i < 46 {
            Table::row(420026400, -28800, 3600, "PDT")
           } else {
            Table::row(436352400, -28800, 0, "PST")
           }
          }
         }
        }
       } else {
        if i < 52 {
         if i < 49 {
          if i < 48 {
           Table::row(452080800, -28800, 3600, "PDT")
          } else {
           Table::row(467802000, -28800, 0, "PST")
          }
         } else {
          if i < 50 {
           Table::row(483530400, -28800, 3600, "PDT")
          } else {
           if i < 51 {
            Table::row(499251600, -28800, 0, "PST")
           } else {
            Table::row(514980000, -28800, 3600, "PDT")
           }
          }
         }
        } else {
         if i < 54 {
          if i < 53 {
           Table::row(530701200, -28800, 0, "PST")
          } else {
           Table::row(544615200, -28800, 3600, "PDT")
          }
         } else {
          if i < 55 {
           Table::row(562150800, -28800, 0, "PST")
          } else {
           if i < 56 {
            Table::row(576064800, -28800, 3600, "PDT")
           } else {
            Table::row(594205200, -28800, 0, "PST")
           }
          }
         }
        }
       }
      } else {
       if i < 67 {
        if i < 62 {
         if i < 59 {
          if i < 58 {
           Table::row(607514400, -28800, 3600, "PDT")
          } else {
           Table::row(625654800, -28800, 0, "PST")
          }
         } else {
          if i < 60 {
           Table::row(638964000, -28800, 3600, "PDT")
          } else {
           if i < 61 {
            Table::row(657104400, -28800, 0, "PST")
           } else {
            Table::row(671018400, -28800, 3600, "PDT")
           }
          }
         }
        } else {
         if i < 64 {
          if i < 63 {
           Table::row(688554000, -28800, 0, "PST")
          } else {
           Table::row(702468000, -28800, 3600, "PDT")
          }
         } else {
          if i < 65 {
           Table::row(720003600, -28800, 0, "PST")
          } else {
           if i < 66 {
            Table::row(733917600, -28800, 3600, "PDT")
           } else {
            Table::row(752058000, -28800, 0, "PST")
           }
          }
         }
        }
       } else {
        if i < 72 {
         if i < 69 {
          if i < 68 {
           Table::row(765367200, -28800, 3600, "PDT")
          } else {
           Table::row(783507600, -28800, 0, "PST")
          }
         } else {
          if i < 70 {
           Table::row(796816800, -28800, 3600, "PDT")
          } else {
           if i < 71 {
            Table::row(814957200, -28800, 0, "PST")
           } else {
            Table::row(828871200, -28800, 3600, "PDT")
           }
          }
         }
        } else {
         if i < 74 {
          if i < 73 {
           Table::row(846406800, -28800, 0, "PST")
          } else {
           Table::row(860320800, -28800, 3600, "PDT")
          }
         } else {
          if i < 75 {
           Table::row(877856400, -28800, 0, "PST")
          } else {
           if i < 76 {
            Table::row(891770400, -28800, 3600, "PDT")
           } else {
            Table::row(909306000, -28800, 0, "PST")
           }
          }
         }
        }
       }
      }
     }
    } else {
     if i < 116 {
      if i < 96 {
       if i < 86 {
        if i < 81 {
         if i < 79 {
          if i < 78 {
           Table::row(923220000, -28800, 3600, "PDT")
          } else {
           Table::row(941360400, -28800, 0, "PST")
          }
         } else {
          if i < 80 {
           Table::row(954669600, -28800, 3600, "PDT")
          } else {
           Table::row(972810000, -28800, 0, "PST")
          }
         }
        } else {
         if i < 83 {
          if i < 82 {
           Table::row(986119200, -28800, 3600, "PDT")
          } else {
           Table::row(1004259600, -28800, 0, "PST")
          }
         } else {
          if i < 84 {
           Table::row(1018173600, -28800, 3600, "PDT")
          } else {
           if i < 85 {
            Table::row(1035709200, -28800, 0, "PST")
           } else {
            Table::row(1049623200, -28800, 3600, "PDT")
           }
          }
         }
        }
       } else {
        if i < 91 {
         if i < 88 {
          if i < 87 {
           Table::row(1067158800, -28800, 0, "PST")
          } else {
           Table::row(1081072800, -28800, 3600, "PDT")
          }
         } else {
          if i < 89 {
           Table::row(1099213200, -28800, 0, "PST")
          } else {
           if i < 90 {
            Table::row(1112522400, -28800, 3600, "PDT")
           } else {
            Table::row(1130662800, -28800, 0, "PST")
           }
          }
         }
        } else {
         if i < 93 {
          if i < 92 {
           Table::row(1143972000, -28800, 3600, "PDT")
          } else {
           Table::row(1162112400, -28800, 0, "PST")
          }
         } else {
          if i < 94 {
           Table::row(1175421600, -28800, 3600, "PDT")
          } else {
           if i < 95 {
            Table::row(1193562000, -28800, 0, "PST")
           } else {
            Table::row(1207476000, -28800, 3600, "PDT")
           }
          }
         }
        }
       }
      } else {
       if i < 106 {
        if i < 101 {
         if i < 98 {
          if i < 97 {
           Table::row(1225011600, -28800, 0, "PST")
          } else {
           Table::row(1238925600, -28800, 3600, "PDT")
          }
         } else {
          if i < 99 {
           Table::row(1256461200, -28800, 0, "PST")
          } else {
           if i < 100 {
            Table::row(1268560800, -28800, 3600, "PDT")
           } else {
            Table::row(1289120400, -28800, 0, "PST")
           }
          }
         }
        } else {
         if i < 103 {
          if i < 102 {
           Table::row(1300010400, -28800, 3600, "PDT")
          } else {
           Table::row(1320570000, -28800, 0, "PST")
          }
         } else {
          if i < 104 {
           Table::row(1331460000, -28800, 3600, "PDT")
          } else {
           if i < 105 {
            Table::row(1352019600, -28800, 0, "PST")
           } else {
            Table::row(1362909600, -28800, 3600, "PDT")
           }
          }
         }
        }
       } else {
        if i < 111 {
         if i < 108 {
          if i < 107 {
           Table::row(1383469200, -28800, 0, "PST")
          } else {
           Table::row(1394359200, -28800, 3600, "PDT")
          }
         } else {
          if i < 109 {
           Table::row(1414918800, -28800, 0, "PST")
          } else {
           if i < 110 {
            Table::row(1425808800, -28800, 3600, "PDT")
           } else {
            Table::row(1446368400, -28800, 0, "PST")
           }
          }
         }
        } else {
         if i < 113 {
          if i < 112 {
           Table::row(1457863200, -28800, 3600, "PDT")
          } else {
           Table::row(1478422800, -28800, 0, "PST")
          }
         } else {
          if i < 114 {
           Table::row(1489312800, -28800, 3600, "PDT")
          } else {
           if i < 115 {
            Table::row(1509872400, -28800, 0, "PST")
           } else {
            Table::row(1520762400, -28800, 3600, "PDT")
           }
          }
         }
        }
       }
      }
     } else {
      if i < 135 {
       if i < 125 {
        if i < 120 {
         if i < 118 {
          if i < 117 {
           Table::row(1541322000, -28800, 0, "PST")
          } else {
           Table::row(1552212000, -28800, 3600, "PDT")
          }
         } else {
          if i < 119 {
           Table::row(1572771600, -28800, 0, "PST")
          } else {
           Table::row(1583661600, -28800, 3600, "PDT")
          }
         }
        } else {
         if i < 122 {
          if i < 121 {
           Table::row(1604221200, -28800, 0, "PST")
          } else {
           Table::row(1615716000, -28800, 3600, "PDT")
          }
         } else {
          if i < 123 {
           Table::row(1636275600, -28800, 0, "PST")
          } else {
           if i < 124 {
            Table::row(1647165600, -28800, 3600, "PDT")
           } else {
            Table::row(1667725200, -28800, 0, "PST")
           }
          }
         }
        }
       } else {
        if i < 130 {
         if i < 127 {
          if i < 126 {
           Table::row(1678615200, -28800, 3600, "PDT")
          } else {
           Table::row(1699174800, -28800, 0, "PST")
          }
         } else {
          if i < 128 {
           Table::row(1710064800, -28800, 3600, "PDT")
          } else {
           if i < 129 {
            Table::row(1730624400, -28800, 0, "PST")
           } else {
            Table::row(1741514400, -28800, 3600, "PDT")
           }
          }
         }
        } else {
         if i < 132 {
          if i < 131 {
           Table::row(1762074000, -28800, 0, "PST")
          } else {
           Table::row(1772964000, -28800, 3600, "PDT")
          }
         } else {
          if i < 133 {
           Table::row(1793523600, -28800, 0, "PST")
          } else {
           if i < 134 {
            Table::row(1805018400, -28800, 3600, "PDT")
           } else {
            Table::row(1825578000, -28800, 0, "PST")
           }
          }
         }
        }
       }
      } else {
       if i < 145 {
        if i < 140 {
         if i < 137 {
          if i < 136 {
           Table::row(1836468000, -28800, 3600, "PDT")
          } else {
           Table::row(1857027600, -28800, 0, "PST")
          }
         } else {
          if i < 138 {
           Table::row(1867917600, -28800, 3600, "PDT")
          } else {
           if i < 139 {
            Table::row(1888477200, -28800, 0, "PST")
           } else {
            Table::row(1899367200, -28800, 3600, "PDT")
           }
          }
         }
        } else {
         if i < 142 {
          if i < 141 {
           Table::row(1919926800, -28800, 0, "PST")
          } else {
           Table::row(1930816800, -28800, 3600, "PDT")
          }
         } else {
          if i < 143 {
           Table::row(1951376400, -28800, 0, "PST")
          } else {
           if i < 144 {
            Table::row(1962871200, -28800, 3600, "PDT")
           } else {
            Table::row(1983430800, -28800, 0, "PST")
           }
          }
         }
        }
       } else {
        if i < 150 {
         if i < 147 {
          if i < 146 {
           Table::row(1994320800, -28800, 3600, "PDT")
          } else {
           Table::row(2014880400, -28800, 0, "PST")
          }
         } else {
          if i < 148 {
           Table::row(2025770400, -28800, 3600, "PDT")
          } else {
           if i < 149 {
            Table::row(2046330000, -28800, 0, "PST")
           } else {
            Table::row(2057220000, -28800, 3600, "PDT")
           }
          }
         }
        } else {
         if i < 152 {
          if i < 151 {
           Table::row(2077779600, -28800, 0, "PST")
          } else {
           Table::row(2088669600, -28800, 3600, "PDT")
          }
         } else {
          if i < 153 {
           Table::row(2109229200, -28800, 0, "PST")
          } else {
           if i < 154 {
            Table::row(2120119200, -28800, 3600, "PDT")
           } else {
            Table::row(2140678800, -28800, 0, "PST")
           }
          }
         }
        }
       }
      }
     }
    }
}

/// The rows of the table of the zone `America/Ensenada`.
pub open spec fn ensenada_rows() -> spec_fn(int) -> (i64, FixedTimespan) {
    |i: int| ensenada_row(i)
}

/// The table of the zone `America/Ensenada`.
pub open spec fn ensenada() -> Table {
    Table::listed(Table::row(0, -28084, 0, "LMT").1, 155, ensenada_rows())
}

/// Row `i` of the table of the zone `America/Fort_Nelson`.
pub open spec fn fort_nelson_row(i: int) -> (i64, FixedTimespan) {
    if i < 71 {
     if i < 35 {
      if i < 17 {
       if i < 8 {
        if i < 4 {
         if i < 2 {
          if i < 1 {
           Table::row(-2713880953, -28800, 0, "PST")
          } else {
           Table::row(-1632060000, -28800, 3600, "PDT")
          }
         } else {
          if i < 3 {
           Table::row(-1615129200, -28800, 0, "PST")
          } else {
           Table::row(-880207200, -28800, 3600, "PWT")
          }
         }
        } else {
         if i < 6 {
          if i < 5 {
           Table::row(-769395600, -28800, 3600, "PPT")
          } else {
           Table::row(-765385200, -28800, 0, "PST")
          }
         } else {
          if i < 7 {
           Table::row(-715788000, -28800, 3600, "PDT")
          } else {
           Table::row(-702486000, -28800, 0, "PST")
          }
         }
        }
       } else {
        if i < 12 {
         if i < 10 {
          if i < 9 {
           Table::row(-684338400, -28800, 3600, "PDT")
          } else {
           Table::row(-671036400, -28800, 0, "PST")
          }
         } else {
          if i < 11 {
           Table::row(-652888800, -28800, 3600, "PDT")
          } else {
           Table::row(-639586800, -28800, 0, "PST")
          }
         }
        } else {
         if i < 14 {
          if i < 13 {
           Table::row(-620834400, -28800, 3600, "PDT")
          } else {
           Table::row(-608137200, -28800, 0, "PST")
          }
         } else {
          if i < 15 {
           Table::row(-589384800, -28800, 3600, "PDT")
          } else {
           if i < 16 {
            Table::row(-576082800, -28800, 0, "PST")
           } else {
            Table::row(-557935200, -28800, 3600, "PDT")
           }
          }
         }
        }
       }
      } else {
       if i < 26 {
        if i < 21 {
         if i < 19 {
          if i < 18 {
           Table::row(-544633200, -28800, 0, "PST")
          } else {
           Table::row(-526485600, -28800, 3600, "PDT")
          }
         } else {
          if i < 20 {
           Table::row(-513183600, -28800, 0, "PST")
          } else {
           Table::row(-495036000, -28800, 3600, "PDT")
          }
         }
        } else {
         if i < 23 {
          if i < 22 {
           Table::row(-481734000, -28800, 0, "PST")
          } else {
           Table::row(-463586400, -28800, 3600, "PDT")
          }
         } else {
          if i < 24 {
           Table::row(-450284400, -28800, 0, "PST")
          } else {
           if i < 25 {
            Table::row(-431532000, -28800, 3600, "PDT")
           } else {
            Table::row(-418230000, -28800, 0, "PST")
           }
          }
         }
        }
       } else {
        if i < 30 {
         if i < 28 {
          if i < 27 {
           Table::row(-400082400, -28800, 3600, "PDT")
          } else {
           Table::row(-386780400, -28800, 0, "PST")
          }
         } else {
          if i < 29 {
           Table::row(-368632800, -28800, 3600, "PDT")
          } else {
           Table::row(-355330800, -28800, 0, "PST")
          }
         }
        } else {
         if i < 32 {
          if i < 31 {
           Table::row(-337183200, -28800, 3600, "PDT")
          } else {
           Table::row(-323881200, -28800, 0, "PST")
          }
         } else {
          if i < 33 {
           Table::row(-305733600, -28800, 3600, "PDT")
          } else {
           if i < 34 {
            Table::row(-292431600, -28800, 0, "PST")
           } else {
            Table::row(-273679200, -28800, 3600, "PDT")
           }
          }
         }
        }
       }
      }
     } else {
      if i < 53 {
       if i < 44 {
        if i < 39 {
         if i < 37 {
          if i < 36 {
           Table::row(-260982000, -28800, 0, "PST")
          } else {
           Table::row(-242229600, -28800, 3600, "PDT")
          }
         } else {
          if i < 38 {
           Table::row(-226508400, -28800, 0, "PST")
          } else {
           Table::row(-210780000, -28800, 3600, "PDT")
          }
         }
        } else {
         if i < 41 {
          if i < 40 {
           Table::row(-195058800, -28800, 0, "PST")
          } else {
           Table::row(-179330400, -28800, 3600, "PDT")
          }
         } else {
          if i < 42 {
           Table::row(-163609200, -28800, 0, "PST")
          } else {
           if i < 43 {
            Table::row(-147880800, -28800, 3600, "PDT")
           } else {
            Table::row(-131554800, -28800, 0, "PST")
           }
          }
         }
        }
       } else {
        if i < 48 {
         if i < 46 {
          if i < 45 {
           Table::row(-116431200, -28800, 3600, "PDT")
          } else {
           Table::row(-100105200, -28800, 0, "PST")
          }
         } else {
          if i < 47 {
           Table::row(-84376800, -28800, 3600, "PDT")
          } else {
           Table::row(-68655600, -28800, 0, "PST")
          }
         }
        } else {
         if i < 50 {
          if i < 49 {
           Table::row(-52927200, -28800, 3600, "PDT")
          } else {
           Table::row(-37206000, -28800, 0, "PST")
          }
         } else {
          if i < 51 {
           Table::row(-21477600, -28800, 3600, "PDT")
          } else {
           if i < 52 {
            Table::row(-5756400, -28800, 0, "PST")
           } else {
            Table::row(9972000, -28800, 3600, "PDT")
           }
          }
         }
        }
       }
      } else {
       if i < 62 {
        if i < 57 {
         if i < 55 {
          if i < 54 {
           Table::row(25693200, -28800, 0, "PST")
          } else {
           Table::row(41421600, -28800, 3600, "PDT")
          }
         } else {
          if i < 56 {
           Table::row(57747600, -28800, 0, "PST")
          } else {
           Table::row(73476000, -28800, 3600, "PDT")
          }
         }
        } else {
         if i < 59 {
          if i < 58 {
           Table::row(89197200, -28800, 0, "PST")
          } else {
           Table::row(104925600, -28800, 3600, "PDT")
          }
         } else {
          if i < 60 {
           Table::row(120646800, -28800, 0, "PST")
          } else {
           if i < 61 {
            Table::row(136375200, -28800, 3600, "PDT")
           } else {
            Table::row(152096400, -28800, 0, "PST")
           }
          }
         }
        }
       } else {
        if i < 66 {
         if i < 64 {
          if i < 63 {
           Table::row(167824800, -28800, 3600, "PDT")
          } else {
           Table::row(183546000, -28800, 0, "PST")
          }
         } else {
          if i < 65 {
           Table::row(199274400, -28800, 3600, "PDT")
          } else {
           Table::row(215600400, -28800, 0, "PST")
          }
         }
        } else {
         if i < 68 {
          if i < 67 {
           Table::row(230724000, -28800, 3600, "PDT")
          } else {
           Table::row(247050000, -28800, 0, "PST")
          }
         } else {
          if i < 69 {
           Table::row(262778400, -28800, 3600, "PDT")
          } else {
           if i < 70 {
            Table::row(278499600, -28800, 0, "PST")
           } else {
            Table::row(294228000, -28800, 3600, "PDT")
           }
          }
         }
        }
       }
      }
     }
    } else {
     if i < 107 {
      if i < 89 {
       if i < 80 {
        if i < 75 {
         if i < 73 {
          if i < 72 {
           Table::row(309949200, -28800, 0, "PST")
          } else {
           Table::row(325677600, -28800, 3600, "PDT")
          }
         } else {
          if i < 74 {
           Table::row(341398800, -28800, 0, "PST")
          } else {
           Table::row(357127200, -28800, 3600, "PDT")
          }
         }
        } else {
         if i < 77 {
          if i < 76 {
           Table::row(372848400, -28800, 0, "PST")
          } else {
           Table::row(388576800, -28800, 3600, "PDT")
          }
         } else {
          if i < 78 {
           Table::row(404902800, -28800, 0, "PST")
          } else {
           if i < 79 {
            Table::row(420026400, -28800, 3600, "PDT")
           } else {
            Table::row(436352400, -28800, 0, "PST")
           }
          }
         }
        }
       } else {
        if i < 84 {
         if i < 82 {
          if i < 81 {
           Table::row(452080800, -28800, 3600, "PDT")
          } else {
           Table::row(467802000, -28800, 0, "PST")
          }
         } else {
          if i < 83 {
           Table::row(483530400, -28800, 3600, "PDT")
          } else {
           Table::row(499251600, -28800, 0, "PST")
          }
         }
        } else {
         if i < 86 {
          if i < 85 {
           Table::row(514980000, -28800, 3600, "PDT")
          } else {
           Table::row(530701200, -28800, 0, "PST")
          }
         } else {
          if i < 87 {
           Table::row(544615200, -28800, 3600, "PDT")
          } else {
           if i < 88 {
            Table::row(562150800, -28800, 0, "PST")
           } else {
            Table::row(576064800, -28800, 3600, "PDT")
           }
          }
         }
        }
       }
      } else {
       if i < 98 {
        if i < 93 {
         if i < 91 {
          if i < 90 {
           Table::row(594205200, -28800, 0, "PST")
          } else {
           Table::row(607514400, -28800, 3600, "PDT")
          }
         } else {
          if i < 92 {
           Table::row(625654800, -28800, 0, "PST")
          } else {
           Table::row(638964000, -28800, 3600, "PDT")
          }
         }
        } else {
         if i < 95 {
          if i < 94 {
           Table::row(657104400, -28800, 0, "PST")
          } else {
           Table::row(671018400, -28800, 3600, "PDT")
          }
         } else {
          if i < 96 {
           Table::row(688554000, -28800, 0, "PST")
          } else {
           if i < 97 {
            Table::row(702468000, -28800, 3600, "PDT")
           } else {
            Table::row(720003600, -28800, 0, "PST")
           }
          }
         }
        }
       } else {
        if i < 102 {
         if i < 100 {
          if i < 99 {
           Table::row(733917600, -28800, 3600, "PDT")
          } else {
           Table::row(752058000, -28800, 0, "PST")
          }
         } else {
          if i < 101 {
           Table::row(765367200, -28800, 3600, "PDT")
          } else {
           Table::row(783507600, -28800, 0, "PST")
          }
         }
        } else {
         if i < 104 {
          if i < 103 {
           Table::row(796816800, -28800, 3600, "PDT")
          } else {
           Table::row(814957200, -28800, 0, "PST")
          }
         } else {
          if i < 105 {
           Table::row(828871200, -28800, 3600, "PDT")
          } else {
           if i < 106 {
            Table::row(846406800, -28800, 0, "PST")
           } else {
            Table::row(860320800, -28800, 3600, "PDT")
           }
          }
         }
        }
       }
      }
     } else {
      if i < 125 {
       if i < 116 {
        if i < 111 {
         if i < 109 {
          if i < 108 {
           Table::row(877856400, -28800, 0, "PST")
          } else {
           Table::row(891770400, -28800, 3600, "PDT")
          }
         } else {
          if i < 110 {
           Table::row(909306000, -28800, 0, "PST")
          } else {
           Table::row(923220000, -28800, 3600, "PDT")
          }
         }
        } else {
         if i < 113 {
          if i < 112 {
           Table::row(941360400, -28800, 0, "PST")
          } else {
           Table::row(954669600, -28800, 3600, "PDT")
          }
         } else {
          if i < 114 {
           Table::row(972810000, -28800, 0, "PST")
          } else {
           if i < 115 {
            Table::row(986119200, -28800, 3600, "PDT")
           } else {
            Table::row(1004259600, -28800, 0, "PST")
           }
          }
         }
        }
       } else {
        if i < 120 {
         if i < 118 {
          if i < 117 {
           Table::row(1018173600, -28800, 3600, "PDT")
          } else {
           Table::row(1035709200, -28800, 0, "PST")
          }
         } else {
          if i < 119 {
           Table::row(1049623200, -28800, 3600, "PDT")
          } else {
           Table::row(1067158800, -28800, 0, "PST")
          }
         }
        } else {
         if i < 122 {
          if i < 121 {
           Table::row(1081072800, -28800, 3600, "PDT")
          } else {
           Table::row(1099213200, -28800, 0, "PST")
          }
         } else {
          if i < 123 {
           Table::row(1112522400, -28800, 3600, "PDT")
          } else {
           if i < 124 {
            Table::row(1130662800, -28800, 0, "PST")
           } else {
            Table::row(1143972000, -28800, 3600, "PDT")
           }
          }
         }
        }
       }
      } else {
       if i < 134 {
        if i < 129 {
         if i < 127 {
          if i < 126 {
           Table::row(1162112400, -28800, 0, "PST")
          } else {
           Table::row(1173607200, -28800, 3600, "PDT")
          }
         } else {
          if i < 128 {
           Table::row(1194166800, -28800, 0, "PST")
          } else {
           Table::row(1205056800, -28800, 3600, "PDT")
          }
         }
        } else {
         if i < 131 {
          if i < 130 {
           Table::row(1225616400, -28800, 0, "PST")
          } else {
           Table::row(1236506400, -28800, 3600, "PDT")
          }
         } else {
          if i < 132 {
           Table::row(1257066000, -28800, 0, "PST")
          } else {
           if i < 133 {
            Table::row(1268560800, -28800, 3600, "PDT")
           } else {
            Table::row(1289120400, -28800, 0, "PST")
           }
          }
         }
        }
       } else {
        if i < 138 {
         if i < 136 {
          if i < 135 {
           Table::row(1300010400, -28800, 3600, "PDT")
          } else {
           Table::row(1320570000, -28800, 0, "PST")
          }
         } else {
          if i < 137 {
           Table::row(1331460000, -28800, 3600, "PDT")
          } else {
           Table::row(1352019600, -28800, 0, "PST")
          }
         }
        } else {
         if i < 140 {
          if i < 139 {
           Table::row(1362909600, -28800, 3600, "PDT")
          } else {
           Table::row(1383469200, -28800, 0, "PST")
          }
         } else {
          if i < 141 {
           Table::row(1394359200, -28800, 3600, "PDT")
          } else {
           if i < 142 {
            Table::row(1414918800, -28800, 0, "PST")
           } else {
            Table::row(1425808800, -25200, 0, "MST")
           }
          }
         }
        }
       }
      }
     }
    }
}

/// The rows of the table of the zone `America/Fort_Nelson`.
pub open spec fn fort_nelson_rows() -> spec_fn(int) -> (i64, FixedTimespan) {
    |i: int| fort_nelson_row(i)
}

/// The table of the zone `America/Fort_Nelson`.
pub open spec fn fort_nelson() -> Table {
    Table::listed(Table::row(0, -29447, 0, "LMT").1, 143, fort_nelson_rows())
}

/// Row `i` of the table of the zone `America/Fort_Wayne`.
pub open spec fn fort_wayne_row(i: int) -> (i64, FixedTimespan) {
    if i < 49 {
     if i < 24 {
      if i < 12 {
       if i < 6 {
        if i < 3 {
         if i < 1 {
          Table::row(-2717647200, -21600, 0, "CST")
         } else {
          if i < 2 {
           Table::row(-1633276800, -21600, 3600, "CDT")
          } else {
           Table::row(-1615136400, -21600, 0, "CST")
          }
         }
        } else {
         if i < 4 {
          Table::row(-1601827200, -21600, 3600, "CDT")
         } else {
          if i < 5 {
           Table::row(-1583686800, -21600, 0, "CST")
          } else {
           Table::row(-900259200, -21600, 3600, "CDT")
          }
         }
        }
       } else {
        if i < 9 {
         if i < 7 {
          Table::row(-891795600, -21600, 0, "CST")
         } else {
          if i < 8 {
           Table::row(-880214400, -21600, 3600, "CWT")
          } else {
           Table::row(-769395600, -21600, 3600, "CPT")
          }
         }
        } else {
         if i < 10 {
          Table::row(-765392400, -21600, 0, "CST")
         } else {
          if i < 11 {
           Table::row(-747244800, -21600, 3600, "CDT")
          } else {
           Table::row(-733942800, -21600, 0, "CST")
          }
         }
        }
       }
      } else {
       if i < 18 {
        if i < 15 {
         if i < 13 {
          Table::row(-715795200, -21600, 3600, "CDT")
         } else {
          if i < 14 {
           Table::row(-702493200, -21600, 0, "CST")
          } else {
           Table::row(-684345600, -21600, 3600, "CDT")
          }
         }
        } else {
         if i < 16 {
          Table::row(-671043600, -21600, 0, "CST")
         } else {
          if i < 17 {
           Table::row(-652896000, -21600, 3600, "CDT")
          } else {
           Table::row(-639594000, -21600, 0, "CST")
          }
         }
        }
       } else {
        if i < 21 {
         if i < 19 {
          Table::row(-620841600, -21600, 3600, "CDT")
         } else {
          if i < 20 {
           Table::row(-608144400, -21600, 0, "CST")
          } else {
           Table::row(-589392000, -21600, 3600, "CDT")
          }
         }
        } else {
         if i < 22 {
          Table::row(-576090000, -21600, 0, "CST")
         } else {
          if i < 23 {
           Table::row(-557942400, -21600, 3600, "CDT")
          } else {
           Table::row(-544640400, -21600, 0, "CST")
          }
         }
        }
       }
      }
     } else {
      if i < 36 {
       if i < 30 {
        if i < 27 {
         if i < 25 {
          Table::row(-526492800, -21600, 3600, "CDT")
         } else {
          if i < 26 {
           Table::row(-513190800, -21600, 0, "CST")
          } else {
           Table::row(-495043200, -21600, 3600, "CDT")
          }
         }
        } else {
         if i < 28 {
          Table::row(-481741200, -21600, 0, "CST")
         } else {
          if i < 29 {
           Table::row(-463593600, -18000, 0, "EST")
          } else {
           Table::row(-386787600, -21600, 0, "CST")
          }
         }
        }
       } else {
        if i < 33 {
         if i < 31 {
          Table::row(-368640000, -18000, 0, "EST")
         } else {
          if i < 32 {
           Table::row(-21488400, -18000, 3600, "EDT")
          } else {
           Table::row(-5767200, -18000, 0, "EST")
          }
         }
        } else {
         if i < 34 {
          Table::row(9961200, -18000, 3600, "EDT")
         } else {
          if i < 35 {
           Table::row(25682400, -18000, 0, "EST")
          } else {
           Table::row(1143961200, -18000, 3600, "EDT")
          }
         }
        }
       }
      } else {
       if i < 42 {
        if i < 39 {
         if i < 37 {
          Table::row(1162101600, -18000, 0, "EST")
         } else {
          if i < 38 {
           Table::row(1173596400, -18000, 3600, "EDT")
          } else {
           Table::row(1194156000, -18000, 0, "EST")
          }
         }
        } else {
         if i < 40 {
          Table::row(1205046000, -18000, 3600, "EDT")
         } else {
          if i < 41 {
           Table::row(1225605600, -18000, 0, "EST")
          } else {
           Table::row(1236495600, -18000, 3600, "EDT")
          }
         }
        }
       } else {
        if i < 45 {
         if i < 43 {
          Table::row(1257055200, -18000, 0, "EST")
         } else {
          if i < 44 {
           Table::row(1268550000, -18000, 3600, "EDT")
          } else {
           Table::row(1289109600, -18000, 0, "EST")
          }
         }
        } else {
         if i < 47 {
          if i < 46 {
           Table::row(1299999600, -18000, 3600, "EDT")
          } else {
           Table::row(1320559200, -18000, 0, "EST")
          }
         } else {
          if i < 48 {
           Table::row(1331449200, -18000, 3600, "EDT")
          } else {
           Table::row(1352008800, -18000, 0, "EST")
          }
         }
        }
       }
      }
     }
    } else {
     if i < 74 {
      if i < 61 {
       if i < 55 {
        if i < 52 {
         if i < 50 {
          Table::row(1362898800, -18000, 3600, "EDT")
         } else {
          if i < 51 {
           Table::row(1383458400, -18000, 0, "EST")
          } else {
           Table::row(1394348400, -18000, 3600, "EDT")
          }
         }
        } else {
         if i < 53 {
          Table::row(1414908000, -18000, 0, "EST")
         } else {
          if i < 54 {
           Table::row(1425798000, -18000, 3600, "EDT")
          } else {
           Table::row(1446357600, -18000, 0, "EST")
          }
         }
        }
       } else {
        if i < 58 {
         if i < 56 {
          Table::row(1457852400, -18000, 3600, "EDT")
         } else {
          if i < 57 {
           Table::row(1478412000, -18000, 0, "EST")
          } else {
           Table::row(1489302000, -18000, 3600, "EDT")
          }
         }
        } else {
         if i < 59 {
          Table::row(1509861600, -18000, 0, "EST")
         } else {
          if i < 60 {
           Table::row(1520751600, -18000, 3600, "EDT")
          } else {
           Table::row(1541311200, -18000, 0, "EST")
          }
         }
        }
       }
      } else {
       if i < 67 {
        if i < 64 {
         if i < 62 {
          Table::row(1552201200, -18000, 3600, "EDT")
         } else {
          if i < 63 {
           Table::row(1572760800, -18000, 0, "EST")
          } else {
           Table::row(1583650800, -18000, 3600, "EDT")
          }
         }
        } else {
         if i < 65 {
          Table::row(1604210400, -18000, 0, "EST")
         } else {
          if i < 66 {
           Table::row(1615705200, -18000, 3600, "EDT")
          } else {
           Table::row(1636264800, -18000, 0, "EST")
          }
         }
        }
       } else {
        if i < 70 {
         if i < 68 {
          Table::row(1647154800, -18000, 3600, "EDT")
         } else {
          if i < 69 {
           Table::row(1667714400, -18000, 0, "EST")
          } else {
           Table::row(1678604400, -18000, 3600, "EDT")
          }
         }
        } else {
         if i < 72 {
          if i < 71 {
           Table::row(1699164000, -18000, 0, "EST")
          } else {
           Table::row(1710054000, -18000, 3600, "EDT")
          }
         } else {
          if i < 73 {
           Table::row(1730613600, -18000, 0, "EST")
          } else {
           Table::row(1741503600, -18000, 3600, "EDT")
          }
         }
        }
       }
      }
     } else {
      if i < 86 {
       if i < 80 {
        if i < 77 {
         if i < 75 {
          Table::row(1762063200, -18000, 0, "EST")
         } else {
          if i < 76 {
           Table::row(1772953200, -18000, 3600, "EDT")
          } else {
           Table::row(1793512800, -18000, 0, "EST")
          }
         }
        } else {
         if i < 78 {
          Table::row(1805007600, -18000, 3600, "EDT")
         } else {
          if i < 79 {
           Table::row(1825567200, -18000, 0, "EST")
          } else {
           Table::row(1836457200, -18000, 3600, "EDT")
          }
         }
        }
       } else {
        if i < 83 {
         if i < 81 {
          Table::row(1857016800, -18000, 0, "EST")
         } else {
          if i < 82 {
           Table::row(1867906800, -18000, 3600, "EDT")
          } else {
           Table::row(1888466400, -18000, 0, "EST")
          }
         }
        } else {
         if i < 84 {
          Table::row(1899356400, -18000, 3600, "EDT")
         } else {
          if i < 85 {
           Table::row(1919916000, -18000, 0, "EST")
          } else {
           Table::row(1930806000, -18000, 3600, "EDT")
          }
         }
        }
       }
      } else {
       if i < 92 {
        if i < 89 {
         if i < 87 {
          Table::row(1951365600, -18000, 0, "EST")
         } else {
          if i < 88 {
           Table::row(1962860400, -18000, 3600, "EDT")
          } else {
           Table::row(1983420000, -18000, 0, "EST")
          }
         }
        } else {
         if i < 90 {
          Table::row(1994310000, -18000, 3600, "EDT")
         } else {
          if i < 91 {
           Table::row(2014869600, -18000, 0, "EST")
          } else {
           Table::row(2025759600, -18000, 3600, "EDT")
          }
         }
        }
       } else {
        if i < 95 {
         if i < 93 {
          Table::row(2046319200, -18000, 0, "EST")
         } else {
          if i < 94 {
           Table::row(2057209200, -18000, 3600, "EDT")
          } else {
           Table::row(2077768800, -18000, 0, "EST")
          }
         }
        } else {
         if i < 97 {
          if i < 96 {
           Table::row(2088658800, -18000, 3600, "EDT")
          } else {
           Table::row(2109218400, -18000, 0, "EST")
          }
         } else {
          if i < 98 {
           Table::row(2120108400, -18000, 3600, "EDT")
          } else {
           Table::row(2140668000, -18000, 0, "EST")
          }
         }
        }
       }
      }
     }
    }
}

/// The rows of the table of the zone `America/Fort_Wayne`.
pub open spec fn fort_wayne_rows() -> spec_fn(int) -> (i64, FixedTimespan) {
    |i: int| fort_wayne_row(i)
}

/// The table of the zone `America/Fort_Wayne`.
pub open spec fn fort_wayne() -> Table {
    Table::listed(Table::row(0, -20678, 0, "LMT").1, 99, fort_wayne_rows())
}

/// Row `i` of the table of the zone `America/Fortaleza`.
pub open spec fn fortaleza_row(i: int) -> (i64, FixedTimespan) {
    if i < 20 {
     if i < 10 {
      if i < 5 {
       if i < 2 {
        if i < 1 {
         Table::row(-1767216360, -10800, 0, "-03")
        } else {
         Table::row(-1206957600, -10800, 3600, "-02")
        }
       } else {
        if i < 3 {
         Table::row(-1191362400, -10800, 0, "-03")
        } else {
         if i < 4 {
          Table::row(-1175374800, -10800, 3600, "-02")
         } else {
          Table::row(-1159826400, -10800, 0, "-03")
         }
        }
       }
      } else {
       if i < 7 {
        if i < 6 {
         Table::row(-633819600, -10800, 3600, "-02")
        } else {
         Table::row(-622069200, -10800, 0, "-03")
        }
       } else {
        if i < 8 {
         Table::row(-602283600, -10800, 3600, "-02")
        } else {
         if i < 9 {
          Table::row(-591832800, -10800, 0, "-03")
         } else {
          Table::row(-570747600, -10800, 3600, "-02")
         }
        }
       }
      }
     } else {
      if i < 15 {
       if i < 12 {
        if i < 11 {
         Table::row(-560210400, -10800, 0, "-03")
        } else {
         Table::row(-539125200, -10800, 3600, "-02")
        }
       } else {
        if i < 13 {
         Table::row(-531352800, -10800, 0, "-03")
        } else {
         if i < 14 {
          Table::row(-191365200, -10800, 3600, "-02")
         } else {
          Table::row(-184197600, -10800, 0, "-03")
         }
        }
       }
      } else {
       if i < 17 {
        if i < 16 {
         Table::row(-155163600, -10800, 3600, "-02")
        } else {
         Table::row(-150069600, -10800, 0, "-03")
        }
       } else {
        if i < 18 {
         Table::row(-128898000, -10800, 3600, "-02")
        } else {
         if i < 19 {
          Table::row(-121125600, -10800, 0, "-03")
         } else {
          Table::row(-99954000, -10800, 3600, "-02")
         }
        }
       }
      }
     }
    } else {
     if i < 30 {
      if i < 25 {
       if i < 22 {
        if i < 21 {
         Table::row(-89589600, -10800, 0, "-03")
        } else {
         Table::row(-68418000, -10800, 3600, "-02")
        }
       } else {
        if i < 23 {
         Table::row(-57967200, -10800, 0, "-03")
        } else {
         if i < 24 {
          Table::row(499748400, -10800, 3600, "-02")
         } else {
          Table::row(511236000, -10800, 0, "-03")
         }
        }
       }
      } else {
       if i < 27 {
        if i < 26 {
         Table::row(530593200, -10800, 3600, "-02")
        } else {
         Table::row(540266400, -10800, 0, "-03")
        }
       } else {
        if i < 28 {
         Table::row(562129200, -10800, 3600, "-02")
        } else {
         if i < 29 {
          Table::row(571197600, -10800, 0, "-03")
         } else {
          Table::row(592974000, -10800, 3600, "-02")
         }
        }
       }
      }
     } else {
      if i < 35 {
       if i < 32 {
        if i < 31 {
         Table::row(602042400, -10800, 0, "-03")
        } else {
         Table::row(624423600, -10800, 3600, "-02")
        }
       } else {
        if i < 33 {
         Table::row(634701600, -10800, 0, "-03")
        } else {
         if i < 34 {
          Table::row(938919600, -10800, 3600, "-02")
         } else {
          Table::row(951616800, -10800, 0, "-03")
         }
        }
       }
      } else {
       if i < 37 {
        if i < 36 {
         Table::row(970974000, -10800, 3600, "-02")
        } else {
         Table::row(972180000, -10800, 0, "-03")
        }
       } else {
        if i < 38 {
         Table::row(1003028400, -10800, 3600, "-02")
        } else {
         if i < 39 {
          Table::row(1013911200, -10800, 0, "-03")
         } else {
          Table::row(2147483647, -10800, 0, "-03")
         }
        }
       }
      }
     }
    }
}

/// The rows of the table of the zone `America/Fortaleza`.
pub open spec fn fortaleza_rows() -> spec_fn(int) -> (i64, FixedTimespan) {
    |i: int| fortaleza_row(i)
}

/// The table of the zone `America/Fortaleza`.
pub open spec fn fortaleza() -> Table {
    Table::listed(Table::row(0, -9240, 0, "LMT").1, 40, fortaleza_rows())
}

/// Row `i` of the table of the zone `America/Glace_Bay`.
pub open spec fn glace_bay_row(i: int) -> (i64, FixedTimespan) {
    if i < 70 {
     if i < 35 {
      if i < 17 {
       if i < 8 {
        if i < 4 {
         if i < 2 {
          if i < 1 {
           Table::row(-2131646412, -14400, 0, "AST")
          } else {
           Table::row(-1632074400, -14400, 3600, "ADT")
          }
         } else {
          if i < 3 {
           Table::row(-1615143600, -14400, 0, "AST")
          } else {
           Table::row(-880221600, -14400, 3600, "AWT")
          }
         }
        } else {
         if i < 6 {
          if i < 5 {
           Table::row(-769395600, -14400, 3600, "APT")
          } else {
           Table::row(-765399600, -14400, 0, "AST")
          }
         } else {
          if i < 7 {
           Table::row(-526500000, -14400, 3600, "ADT")
          } else {
           Table::row(-513198000, -14400, 0, "AST")
          }
         }
        }
       } else {
        if i < 12 {
         if i < 10 {
          if i < 9 {
           Table::row(73461600, -14400, 3600, "ADT")
          } else {
           Table::row(89182800, -14400, 0, "AST")
          }
         } else {
          if i < 11 {
           Table::row(104911200, -14400, 3600, "ADT")
          } else {
           Table::row(120632400, -14400, 0, "AST")
          }
         }
        } else {
         if i < 14 {
          if i < 13 {
           Table::row(136360800, -14400, 3600, "ADT")
          } else {
           Table::row(152082000, -14400, 0, "AST")
          }
         } else {
          if i < 15 {
           Table::row(167810400, -14400, 3600, "ADT")
          } else {
           if i < 16 {
            Table::row(183531600, -14400, 0, "AST")
           } else {
            Table::row(199260000, -14400, 3600, "ADT")
           }
          }
         }
        }
       }
      } else {
       if i < 26 {
        if i < 21 {
         if i < 19 {
          if i < 18 {
           Table::row(215586000, -14400, 0, "AST")
          } else {
           Table::row(230709600, -14400, 3600, "ADT")
          }
         } else {
          if i < 20 {
           Table::row(247035600, -14400, 0, "AST")
          } else {
           Table::row(262764000, -14400, 3600, "ADT")
          }
         }
        } else {
         if i < 23 {
          if i < 22 {
           Table::row(278485200, -14400, 0, "AST")
          } else {
           Table::row(294213600, -14400, 3600, "ADT")
          }
         } else {
          if i < 24 {
           Table::row(309934800, -14400, 0, "AST")
          } else {
           if i < 25 {
            Table::row(325663200, -14400, 3600, "ADT")
           } else {
            Table::row(341384400, -14400, 0, "AST")
           }
          }
         }
        }
       } else {
        if i < 30 {
         if i < 28 {
          if i < 27 {
           Table::row(357112800, -14400, 3600, "ADT")
          } else {
           Table::row(372834000, -14400, 0, "AST")
          }
         } else {
          if i < 29 {
           Table::row(388562400, -14400, 3600, "ADT")
          } else {
           Table::row(404888400, -14400, 0, "AST")
          }
         }
        } else {
         if i < 32 {
          if i < 31 {
           Table::row(420012000, -14400, 3600, "ADT")
          } else {
           Table::row(436338000, -14400, 0, "AST")
          }
         } else {
          if i < 33 {
           Table::row(452066400, -14400, 3600, "ADT")
          } else {
           if i < 34 {
            Table::row(467787600, -14400, 0, "AST")
           } else {
            Table::row(483516000, -14400, 3600, "ADT")
           }
          }
         }
        }
       }
      }
     } else {
      if i < 52 {
       if i < 43 {
        if i < 39 {
         if i < 37 {
          if i < 36 {
           Table::row(499237200, -14400, 0, "AST")
          } else {
           Table::row(514965600, -14400, 3600, "ADT")
          }
         } else {
          if i < 38 {
           Table::row(530686800, -14400, 0, "AST")
          } else {
           Table::row(544600800, -14400, 3600, "ADT")
          }
         }
        } else {
         if i < 41 {
          if i < 40 {
           Table::row(562136400, -14400, 0, "AST")
          } else {
           Table::row(576050400, -14400, 3600, "ADT")
          }
         } else {
          if i < 42 {
           Table::row(594190800, -14400, 0, "AST")
          } else {
           Table::row(607500000, -14400, 3600, "ADT")
          }
         }
        }
       } else {
        if i < 47 {
         if i < 45 {
          if i < 44 {
           Table::row(625640400, -14400, 0, "AST")
          } else {
           Table::row(638949600, -14400, 3600, "ADT")
          }
         } else {
          if i < 46 {
           Table::row(657090000, -14400, 0, "AST")
          } else {
           Table::row(671004000, -14400, 3600, "ADT")
          }
         }
        } else {
         if i < 49 {
          if i < 48 {
           Table::row(688539600, -14400, 0, "AST")
          } else {
           Table::row(702453600, -14400, 3600, "ADT")
          }
         } else {
          if i < 50 {
           Table::row(719989200, -14400, 0, "AST")
          } else {
           if i < 51 {
            Table::row(733903200, -14400, 3600, "ADT")
           } else {
            Table::row(752043600, -14400, 0, "AST")
           }
          }
         }
        }
       }
      } else {
       if i < 61 {
        if i < 56 {
         if i < 54 {
          if i < 53 {
           Table::row(765352800, -14400, 3600, "ADT")
          } else {
           Table::row(783493200, -14400, 0, "AST")
          }
         } else {
          if i < 55 {
           Table::row(796802400, -14400, 3600, "ADT")
          } else {
           Table::row(814942800, -14400, 0, "AST")
          }
         }
        } else {
         if i < 58 {
          if i < 57 {
           Table::row(828856800, -14400, 3600, "ADT")
          } else {
           Table::row(846392400, -14400, 0, "AST")
          }
         } else {
          if i < 59 {
           Table::row(860306400, -14400, 3600, "ADT")
          } else {
           if i < 60 {
            Table::row(877842000, -14400, 0, "AST")
           } else {
            Table::row(891756000, -14400, 3600, "ADT")
           }
          }
         }
        }
       } else {
        if i < 65 {
         if i < 63 {
          if i < 62 {
           Table::row(909291600, -14400, 0, "AST")
          } else {
           Table::row(923205600, -14400, 3600, "ADT")
          }
         } else {
          if i < 64 {
           Table::row(941346000, -14400, 0, "AST")
          } else {
           Table::row(954655200, -14400, 3600, "ADT")
          }
         }
        } else {
         if i < 67 {
          if i < 66 {
           Table::row(972795600, -14400, 0, "AST")
          } else {
           Table::row(986104800, -14400, 3600, "ADT")
          }
         } else {
          if i < 68 {
           Table::row(1004245200, -14400, 0, "AST")
          } else {
           if i < 69 {
            Table::row(1018159200, -14400, 3600, "ADT")
           } else {
            Table::row(1035694800, -14400, 0, "AST")
           }
          }
         }
        }
       }
      }
     }
    } else {
     if i < 105 {
      if i < 87 {
       if i < 78 {
        if i < 74 {
         if i < 72 {
          if i < 71 {
           Table::row(1049608800, -14400, 3600, "ADT")
          } else {
           Table::row(1067144400, -14400, 0, "AST")
          }
         } else {
          if i < 73 {
           Table::row(1081058400, -14400, 3600, "ADT")
          } else {
           Table::row(1099198800, -14400, 0, "AST")
          }
         }
        } else {
         if i < 76 {
          if i < 75 {
           Table::row(1112508000, -14400, 3600, "ADT")
          } else {
           Table::row(1130648400, -14400, 0, "AST")
          }
         } else {
          if i < 77 {
           Table::row(1143957600, -14400, 3600, "ADT")
          } else {
           Table::row(1162098000, -14400, 0, "AST")
          }
         }
        }
       } else {
        if i < 82 {
         if i < 80 {
          if i < 79 {
           Table::row(1173592800, -14400, 3600, "ADT")
          } else {
           Table::row(1194152400, -14400, 0, "AST")
          }
         } else {
          if i < 81 {
           Table::row(1205042400, -14400, 3600, "ADT")
          } else {
           Table::row(1225602000, -14400, 0, "AST")
          }
         }
        } else {
         if i < 84 {
          if i < 83 {
           Table::row(1236492000, -14400, 3600, "ADT")
          } else {
           Table::row(1257051600, -14400, 0, "AST")
          }
         } else {
          if i < 85 {
           Table::row(1268546400, -14400, 3600, "ADT")
          } else {
           if i < 86 {
            Table::row(1289106000, -14400, 0, "AST")
           } else {
            Table::row(1299996000, -14400, 3600, "ADT")
           }
          }
         }
        }
       }
      } else {
       if i < 96 {
        if i < 91 {
         if i < 89 {
          if i < 88 {
           Table::row(1320555600, -14400, 0, "AST")
          } else {
           Table::row(1331445600, -14400, 3600, "ADT")
          }
         } else {
          if i < 90 {
           Table::row(1352005200, -14400, 0, "AST")
          } else {
           Table::row(1362895200, -14400, 3600, "ADT")
          }
         }
        } else {
         if i < 93 {
          if i < 92 {
           Table::row(1383454800, -14400, 0, "AST")
          } else {
           Table::row(1394344800, -14400, 3600, "ADT")
          }
         } else {
          if i < 94 {
           Table::row(1414904400, -14400, 0, "AST")
          } else {
           if i < 95 {
            Table::row(1425794400, -14400, 3600, "ADT")
           } else {
            Table::row(1446354000, -14400, 0, "AST")
           }
          }
         }
        }
       } else {
        if i < 100 {
         if i < 98 {
          if i < 97 {
           Table::row(1457848800, -14400, 3600, "ADT")
          } else {
           Table::row(1478408400, -14400, 0, "AST")
          }
         } else {
          if i < 99 {
           Table::row(1489298400, -14400, 3600, "ADT")
          } else {
           Table::row(1509858000, -14400, 0, "AST")
          }
         }
        } else {
         if i < 102 {
          if i < 101 {
           Table::row(1520748000, -14400, 3600, "ADT")
          } else {
           Table::row(1541307600, -14400, 0, "AST")
          }
         } else {
          if i < 103 {
           Table::row(1552197600, -14400, 3600, "ADT")
          } else {
           if i < 104 {
            Table::row(1572757200, -14400, 0, "AST")
           } else {
            Table::row(1583647200, -14400, 3600, "ADT")
           }
          }
         }
        }
       }
      }
     } else {
      if i < 122 {
       if i < 113 {
        if i < 109 {
         if i < 107 {
          if i < 106 {
           Table::row(1604206800, -14400, 0, "AST")
          } else {
           Table::row(1615701600, -14400, 3600, "ADT")
          }
         } else {
          if i < 108 {
           Table::row(1636261200, -14400, 0, "AST")
          } else {
           Table::row(1647151200, -14400, 3600, "ADT")
          }
         }
        } else {
         if i < 111 {
          if i < 110 {
           Table::row(1667710800, -14400, 0, "AST")
          } else {
           Table::row(1678600800, -14400, 3600, "ADT")
          }
         } else {
          if i < 112 {
           Table::row(1699160400, -14400, 0, "AST")
          } else {
           Table::row(1710050400, -14400, 3600, "ADT")
          }
         }
        }
       } else {
        if i < 117 {
         if i < 115 {
          if i < 114 {
           Table::row(1730610000, -14400, 0, "AST")
          } else {
           Table::row(1741500000, -14400, 3600, "ADT")
          }
         } else {
          if i < 116 {
           Table::row(1762059600, -14400, 0, "AST")
          } else {
           Table::row(1772949600, -14400, 3600, "ADT")
          }
         }
        } else {
         if i < 119 {
          if i < 118 {
           Table::row(1793509200, -14400, 0, "AST")
          } else {
           Table::row(1805004000, -14400, 3600, "ADT")
          }
         } else {
          if i < 120 {
           Table::row(1825563600, -14400, 0, "AST")
          } else {
           if i < 121 {
            Table::row(1836453600, -14400, 3600, "ADT")
           } else {
            Table::row(1857013200, -14400, 0, "AST")
           }
          }
         }
        }
       }
      } else {
       if i < 131 {
        if i < 126 {
         if i < 124 {
          if i < 123 {
           Table::row(1867903200, -14400, 3600, "ADT")
          } else {
           Table::row(1888462800, -14400, 0, "AST")
          }
         } else {
          if i < 125 {
           Table::row(1899352800, -14400, 3600, "ADT")
          } else {
           Table::row(1919912400, -14400, 0, "AST")
          }
         }
        } else {
         if i < 128 {
          if i < 127 {
           Table::row(1930802400, -14400, 3600, "ADT")
          } else {
           Table::row(1951362000, -14400, 0, "AST")
          }
         } else {
          if i < 129 {
           Table::row(1962856800, -14400, 3600, "ADT")
          } else {
           if i < 130 {
            Table::row(1983416400, -14400, 0, "AST")
           } else {
            Table::row(1994306400, -14400, 3600, "ADT")
           }
          }
         }
        }
       } else {
        if i < 135 {
         if i < 133 {
          if i < 132 {
           Table::row(2014866000, -14400, 0, "AST")
          } else {
           Table::row(2025756000, -14400, 3600, "ADT")
          }
         } else {
          if i < 134 {
           Table::row(2046315600, -14400, 0, "AST")
          } else {
           Table::row(2057205600, -14400, 3600, "ADT")
          }
         }
        } else {
         if i < 137 {
          if i < 136 {
           Table::row(2077765200, -14400, 0, "AST")
          } else {
           Table::row(2088655200, -14400, 3600, "ADT")
          }
         } else {
          if i < 138 {
           Table::row(2109214800, -14400, 0, "AST")
          } else {
           if i < 139 {
            Table::row(2120104800, -14400, 3600, "ADT")
           } else {
            Table::row(2140664400, -14400, 0, "AST")
           }
          }
         }
        }
       }
      }
     }
    }
}

/// The rows of the table of the zone `America/Glace_Bay`.
pub open spec fn glace_bay_rows() -> spec_fn(int) -> (i64, FixedTimespan) {
    |i: int| glace_bay_row(i)
}

/// The table of the zone `America/Glace_Bay`.
pub open spec fn glace_bay() -> Table {
    Table::listed(Table::row(0, -14388, 0, "LMT").1, 140, glace_bay_rows())
}

/// Row `i` of the table of the zone `America/Godthab`.
pub open spec fn godthab_row(i: int) -> (i64, FixedTimespan) {
    if i < 58 {
     if i < 29 {
      if i < 14 {
       if i < 7 {
        if i < 3 {
         if i < 1 {
          Table::row(-1686083584, -10800, 0, "-03")
         } else {
          if i < 2 {
           Table::row(323845200, -10800, 3600, "-02")
          } else {
           Table::row(338950800, -10800, 0, "-03")
          }
         }
        } else {
         if i < 5 {
          if i < 4 {
           Table::row(354675600, -10800, 3600, "-02")
          } else {
           Table::row(370400400, -10800, 0, "-03")
          }
         } else {
          if i < 6 {
           Table::row(386125200, -10800, 3600, "-02")
          } else {
           Table::row(401850000, -10800, 0, "-03")
          }
         }
        }
       } else {
        if i < 10 {
         if i < 8 {
          Table::row(417574800, -10800, 3600, "-02")
         } else {
          if i < 9 {
           Table::row(433299600, -10800, 0, "-03")
          } else {
           Table::row(449024400, -10800, 3600, "-02")
          }
         }
        } else {
         if i < 12 {
          if i < 11 {
           Table::row(465354000, -10800, 0, "-03")
          } else {
           Table::row(481078800, -10800, 3600, "-02")
          }
         } else {
          if i < 13 {
           Table::row(496803600, -10800, 0, "-03")
          } else {
           Table::row(512528400, -10800, 3600, "-02")
          }
         }
        }
       }
      } else {
       if i < 21 {
        if i < 17 {
         if i < 15 {
          Table::row(528253200, -10800, 0, "-03")
         } else {
          if i < 16 {
           Table::row(543978000, -10800, 3600, "-02")
          } else {
           Table::row(559702800, -10800, 0, "-03")
          }
         }
        } else {
         if i < 19 {
          if i < 18 {
           Table::row(575427600, -10800, 3600, "-02")
          } else {
           Table::row(591152400, -10800, 0, "-03")
          }
         } else {
          if i < 20 {
           Table::row(606877200, -10800, 3600, "-02")
          } else {
           Table::row(622602000, -10800, 0, "-03")
          }
         }
        }
       } else {
        if i < 25 {
         if i < 23 {
          if i < 22 {
           Table::row(638326800, -10800, 3600, "-02")
          } else {
           Table::row(654656400, -10800, 0, "-03")
          }
         } else {
          if i < 24 {
           Table::row(670381200, -10800, 3600, "-02")
          } else {
           Table::row(686106000, -10800, 0, "-03")
          }
         }
        } else {
         if i < 27 {
          if i < 26 {
           Table::row(701830800, -10800, 3600, "-02")
          } else {
           Table::row(717555600, -10800, 0, "-03")
          }
         } else {
          if i < 28 {
           Table::row(733280400, -10800, 3600, "-02")
          } else {
           Table::row(749005200, -10800, 0, "-03")
          }
         }
        }
       }
      }
     } else {
      if i < 43 {
       if i < 36 {
        if i < 32 {
         if i < 30 {
          Table::row(764730000, -10800, 3600, "-02")
         } else {
          if i < 31 {
           Table::row(780454800, -10800, 0, "-03")
          } else {
           Table::row(796179600, -10800, 3600, "-02")
          }
         }
        } else {
         if i < 34 {
          if i < 33 {
           Table::row(811904400, -10800, 0, "-03")
          } else {
           Table::row(828234000, -10800, 3600, "-02")
          }
         } else {
          if i < 35 {
           Table::row(846378000, -10800, 0, "-03")
          } else {
           Table::row(859683600, -10800, 3600, "-02")
          }
         }
        }
       } else {
        if i < 39 {
         if i < 37 {
          Table::row(877827600, -10800, 0, "-03")
         } else {
          if i < 38 {
           Table::row(891133200, -10800, 3600, "-02")
          } else {
           Table::row(909277200, -10800, 0, "-03")
          }
         }
        } else {
         if i < 41 {
          if i < 40 {
           Table::row(922582800, -10800, 3600, "-02")
          } else {
           Table::row(941331600, -10800, 0, "-03")
          }
         } else {
          if i < 42 {
           Table::row(954032400, -10800, 3600, "-02")
          } else {
           Table::row(972781200, -10800, 0, "-03")
          }
         }
        }
       }
      } else {
       if i < 50 {
        if i < 46 {
         if i < 44 {
          Table::row(985482000, -10800, 3600, "-02")
         } else {
          if i < 45 {
           Table::row(1004230800, -10800, 0, "-03")
          } else {
           Table::row(1017536400, -10800, 3600, "-02")
          }
         }
        } else {
         if i < 48 {
          if i < 47 {
           Table::row(1035680400, -10800, 0, "-03")
          } else {
           Table::row(1048986000, -10800, 3600, "-02")
          }
         } else {
          if i < 49 {
           Table::row(1067130000, -10800, 0, "-03")
          } else {
           Table::row(1080435600, -10800, 3600, "-02")
          }
         }
        }
       } else {
        if i < 54 {
         if i < 52 {
          if i < 51 {
           Table::row(1099184400, -10800, 0, "-03")
          } else {
           Table::row(1111885200, -10800, 3600, "-02")
          }
         } else {
          if i < 53 {
           Table::row(1130634000, -10800, 0, "-03")
          } else {
           Table::row(1143334800, -10800, 3600, "-02")
          }
         }
        } else {
         if i < 56 {
          if i < 55 {
           Table::row(1162083600, -10800, 0, "-03")
          } else {
           Table::row(1174784400, -10800, 3600, "-02")
          }
         } else {
          if i < 57 {
           Table::row(1193533200, -10800, 0, "-03")
          } else {
           Table::row(1206838800, -10800, 3600, "-02")
          }
         }
        }
       }
      }
     }
    } else {
     if i < 87 {
      if i < 72 {
       if i < 65 {
        if i < 61 {
         if i < 59 {
          Table::row(1224982800, -10800, 0, "-03")
         } else {
          if i < 60 {
           Table::row(1238288400, -10800, 3600, "-02")
          } else {
           Table::row(1256432400, -10800, 0, "-03")
          }
         }
        } else {
         if i < 63 {
          if i < 62 {
           Table::row(1269738000, -10800, 3600, "-02")
          } else {
           Table::row(1288486800, -10800, 0, "-03")
          }
         } else {
          if i < 64 {
           Table::row(1301187600, -10800, 3600, "-02")
          } else {
           Table::row(1319936400, -10800, 0, "-03")
          }
         }
        }
       } else {
        if i < 68 {
         if i < 66 {
          Table::row(1332637200, -10800, 3600, "-02")
         } else {
          if i < 67 {
           Table::row(1351386000, -10800, 0, "-03")
          } else {
           Table::row(1364691600, -10800, 3600, "-02")
          }
         }
        } else {
         if i < 70 {
          if i < 69 {
           Table::row(1382835600, -10800, 0, "-03")
          } else {
           Table::row(1396141200, -10800, 3600, "-02")
          }
         } else {
          if i < 71 {
           Table::row(1414285200, -10800, 0, "-03")
          } else {
           Table::row(1427590800, -10800, 3600, "-02")
          }
         }
        }
       }
      } else {
       if i < 79 {
        if i < 75 {
         if i < 73 {
          Table::row(1445734800, -10800, 0, "-03")
         } else {
          if i < 74 {
           Table::row(1459040400, -10800, 3600, "-02")
          } else {
           Table::row(1477789200, -10800, 0, "-03")
          }
         }
        } else {
         if i < 77 {
          if i < 76 {
           Table::row(1490490000, -10800, 3600, "-02")
          } else {
           Table::row(1509238800, -10800, 0, "-03")
          }
         } else {
          if i < 78 {
           Table::row(1521939600, -10800, 3600, "-02")
          } else {
           Table::row(1540688400, -10800, 0, "-03")
          }
         }
        }
       } else {
        if i < 83 {
         if i < 81 {
          if i < 80 {
           Table::row(1553994000, -10800, 3600, "-02")
          } else {
           Table::row(1572138000, -10800, 0, "-03")
          }
         } else {
          if i < 82 {
           Table::row(1585443600, -10800, 3600, "-02")
          } else {
           Table::row(1603587600, -10800, 0, "-03")
          }
         }
        } else {
         if i < 85 {
          if i < 84 {
           Table::row(1616893200, -10800, 3600, "-02")
          } else {
           Table::row(1635642000, -10800, 0, "-03")
          }
         } else {
          if i < 86 {
           Table::row(1648342800, -10800, 3600, "-02")
          } else {
           Table::row(1667091600, -10800, 0, "-03")
          }
         }
        }
       }
      }
     } else {
      if i < 102 {
       if i < 94 {
        if i < 90 {
         if i < 88 {
          Table::row(1679792400, -7200, 0, "-02")
         } else {
          if i < 89 {
           Table::row(1711846800, -7200, 3600, "-01")
          } else {
           Table::row(1729990800, -7200, 0, "-02")
          }
         }
        } else {
         if i < 92 {
          if i < 91 {
           Table::row(1743296400, -7200, 3600, "-01")
          } else {
           Table::row(1761440400, -7200, 0, "-02")
          }
         } else {
          if i < 93 {
           Table::row(1774746000, -7200, 3600, "-01")
          } else {
           Table::row(1792890000, -7200, 0, "-02")
          }
         }
        }
       } else {
        if i < 98 {
         if i < 96 {
          if i < 95 {
           Table::row(1806195600, -7200, 3600, "-01")
          } else {
           Table::row(1824944400, -7200, 0, "-02")
          }
         } else {
          if i < 97 {
           Table::row(1837645200, -7200, 3600, "-01")
          } else {
           Table::row(1856394000, -7200, 0, "-02")
          }
         }
        } else {
         if i < 100 {
          if i < 99 {
           Table::row(1869094800, -7200, 3600, "-01")
          } else {
           Table::row(1887843600, -7200, 0, "-02")
          }
         } else {
          if i < 101 {
           Table::row(1901149200, -7200, 3600, "-01")
          } else {
           Table::row(1919293200, -7200, 0, "-02")
          }
         }
        }
       }
      } else {
       if i < 109 {
        if i < 105 {
         if i < 103 {
          Table::row(1932598800, -7200, 3600, "-01")
         } else {
          if i < 104 {
           Table::row(1950742800, -7200, 0, "-02")
          } else {
           Table::row(1964048400, -7200, 3600, "-01")
          }
         }
        } else {
         if i < 107 {
          if i < 106 {
           Table::row(1982797200, -7200, 0, "-02")
          } else {
           Table::row(1995498000, -7200, 3600, "-01")
          }
         } else {
          if i < 108 {
           Table::row(2014246800, -7200, 0, "-02")
          } else {
           Table::row(2026947600, -7200, 3600, "-01")
          }
         }
        }
       } else {
        if i < 113 {
         if i < 111 {
          if i < 110 {
           Table::row(2045696400, -7200, 0, "-02")
          } else {
           Table::row(2058397200, -7200, 3600, "-01")
          }
         } else {
          if i < 112 {
           Table::row(2077146000, -7200, 0, "-02")
          } else {
           Table::row(2090451600, -7200, 3600, "-01")
          }
         }
        } else {
         if i < 115 {
          if i < 114 {
           Table::row(2108595600, -7200, 0, "-02")
          } else {
           Table::row(2121901200, -7200, 3600, "-01")
          }
         } else {
          if i < 116 {
           Table::row(2140045200, -7200, 0, "-02")
          } else {
           Table::row(2147483647, -7200, 0, "-02")
          }
         }
        }
       }
      }
     }
    }
}

/// The rows of the table of the zone `America/Godthab`.
pub open spec fn godthab_rows() -> spec_fn(int) -> (i64, FixedTimespan) {
    |i: int| godthab_row(i)
}

/// The table of the zone `America/Godthab`.
pub open spec fn godthab() -> Table {
    Table::listed(Table::row(0, -12416, 0, "LMT").1, 117, godthab_rows())
}

/// Row `i` of the table of the zone `America/Goose_Bay`.
pub open spec fn goose_bay_row(i: int) -> (i64, FixedTimespan) {
    if i < 102 {
     if i < 51 {
      if i < 25 {
       if i < 12 {
        if i < 6 {
         if i < 3 {
          if i < 1 {
           Table::row(-2713895900, -12652, 0, "NST")
          } else {
           if i < 2 {
            Table::row(-1632076148, -12652, 3600, "NDT")
           } else {
            Table::row(-1615145348, -12652, 0, "NST")
           }
          }
         } else {
          if i < 4 {
           Table::row(-1096921748, -12600, 0, "NST")
          } else {
           if i < 5 {
            Table::row(-1061670600, -12600, 3600, "NDT")
           } else {
            Table::row(-1048973400, -12600, 0, "NST")
           }
          }
         }
        } else {
         if i < 9 {
          if i < 7 {
           Table::row(-1030221000, -12600, 3600, "NDT")
          } else {
           if i < 8 {
            Table::row(-1017523800, -12600, 0, "NST")
           } else {
            Table::row(-998771400, -12600, 3600, "NDT")
           }
          }
         } else {
          if i < 10 {
           Table::row(-986074200, -12600, 0, "NST")
          } else {
           if i < 11 {
            Table::row(-966717000, -12600, 3600, "NDT")
           } else {
            Table::row(-954624600, -12600, 0, "NST")
           }
          }
         }
        }
       } else {
        if i < 18 {
         if i < 15 {
          if i < 13 {
           Table::row(-935267400, -12600, 3600, "NDT")
          } else {
           if i < 14 {
            Table::row(-922570200, -12600, 0, "NST")
           } else {
            Table::row(-903817800, -12600, 3600, "NDT")
           }
          }
         } else {
          if i < 16 {
           Table::row(-891120600, -12600, 0, "NST")
          } else {
           if i < 17 {
            Table::row(-872368200, -12600, 3600, "NWT")
           } else {
            Table::row(-769395600, -12600, 3600, "NPT")
           }
          }
         }
        } else {
         if i < 21 {
          if i < 19 {
           Table::row(-765401400, -12600, 0, "NST")
          } else {
           if i < 20 {
            Table::row(-746044200, -12600, 3600, "NDT")
           } else {
            Table::row(-733347000, -12600, 0, "NST")
           }
          }
         } else {
          if i < 23 {
           if i < 22 {
            Table::row(-714594600, -12600, 3600, "NDT")
           } else {
            Table::row(-701897400, -12600, 0, "NST")
           }
          } else {
           if i < 24 {
            Table::row(-683145000, -12600, 3600, "NDT")
           } else {
            Table::row(-670447800, -12600, 0, "NST")
           }
          }
         }
        }
       }
      } else {
       if i < 38 {
        if i < 31 {
         if i < 28 {
          if i < 26 {
           Table::row(-651695400, -12600, 3600, "NDT")
          } else {
           if i < 27 {
            Table::row(-638998200, -12600, 0, "NST")
           } else {
            Table::row(-619641000, -12600, 3600, "NDT")
           }
          }
         } else {
          if i < 29 {
           Table::row(-606943800, -12600, 0, "NST")
          } else {
           if i < 30 {
            Table::row(-589401000, -12600, 3600, "NDT")
           } else {
            Table::row(-576099000, -12600, 0, "NST")
           }
          }
         }
        } else {
         if i < 34 {
          if i < 32 {
           Table::row(-557951400, -12600, 3600, "NDT")
          } else {
           if i < 33 {
            Table::row(-544649400, -12600, 0, "NST")
           } else {
            Table::row(-526501800, -12600, 3600, "NDT")
           }
          }
         } else {
          if i < 36 {
           if i < 35 {
            Table::row(-513199800, -12600, 0, "NST")
           } else {
            Table::row(-495052200, -12600, 3600, "NDT")
           }
          } else {
           if i < 37 {
            Table::row(-481750200, -12600, 0, "NST")
           } else {
            Table::row(-463602600, -12600, 3600, "NDT")
           }
          }
         }
        }
       } else {
        if i < 44 {
         if i < 41 {
          if i < 39 {
           Table::row(-450300600, -12600, 0, "NST")
          } else {
           if i < 40 {
            Table::row(-431548200, -12600, 3600, "NDT")
           } else {
            Table::row(-418246200, -12600, 0, "NST")
           }
          }
         } else {
          if i < 42 {
           Table::row(-400098600, -12600, 3600, "NDT")
          } else {
           if i < 43 {
            Table::row(-386796600, -12600, 0, "NST")
           } else {
            Table::row(-368649000, -12600, 3600, "NDT")
           }
          }
         }
        } else {
         if i < 47 {
          if i < 45 {
           Table::row(-355347000, -12600, 0, "NST")
          } else {
           if i < 46 {
            Table::row(-337199400, -12600, 3600, "NDT")
           } else {
            Table::row(-323897400, -12600, 0, "NST")
           }
          }
         } else {
          if i < 49 {
           if i < 48 {
            Table::row(-305749800, -12600, 3600, "NDT")
           } else {
            Table::row(-289423800, -12600, 0, "NST")
           }
          } else {
           if i < 50 {
            Table::row(-273695400, -12600, 3600, "NDT")
           } else {
            Table::row(-257974200, -12600, 0, "NST")
           }
          }
         }
        }
       }
      }
     } else {
      if i < 76 {
       if i < 63 {
        if i < 57 {
         if i < 54 {
          if i < 52 {
           Table::row(-242245800, -12600, 3600, "NDT")
          } else {
           if i < 53 {
            Table::row(-226524600, -12600, 0, "NST")
           } else {
            Table::row(-210796200, -12600, 3600, "NDT")
           }
          }
         } else {
          if i < 55 {
           Table::row(-195075000, -12600, 0, "NST")
          } else {
           if i < 56 {
            Table::row(-179346600, -12600, 3600, "NDT")
           } else {
            Table::row(-163625400, -12600, 0, "NST")
           }
          }
         }
        } else {
         if i < 60 {
          if i < 58 {
           Table::row(-147897000, -12600, 3600, "NDT")
          } else {
           if i < 59 {
            Table::row(-131571000, -12600, 0, "NST")
           } else {
            Table::row(-119903400, -14400, 0, "AST")
           }
          }
         } else {
          if i < 61 {
           Table::row(-116445600, -14400, 3600, "ADT")
          } else {
           if i < 62 {
            Table::row(-100119600, -14400, 0, "AST")
           } else {
            Table::row(-84391200, -14400, 3600, "ADT")
           }
          }
         }
        }
       } else {
        if i < 69 {
         if i < 66 {
          if i < 64 {
           Table::row(-68670000, -14400, 0, "AST")
          } else {
           if i < 65 {
            Table::row(-52941600, -14400, 3600, "ADT")
           } else {
            Table::row(-37220400, -14400, 0, "AST")
           }
          }
         } else {
          if i < 67 {
           Table::row(-21492000, -14400, 3600, "ADT")
          } else {
           if i < 68 {
            Table::row(-5770800, -14400, 0, "AST")
           } else {
            Table::row(9957600, -14400, 3600, "ADT")
           }
          }
         }
        } else {
         if i < 72 {
          if i < 70 {
           Table::row(25678800, -14400, 0, "AST")
          } else {
           if i < 71 {
            Table::row(41407200, -14400, 3600, "ADT")
           } else {
            Table::row(57733200, -14400, 0, "AST")
           }
          }
         } else {
          if i < 74 {
           if i < 73 {
            Table::row(73461600, -14400, 3600, "ADT")
           } else {
            Table::row(89182800, -14400, 0, "AST")
           }
          } else {
           if i < 75 {
            Table::row(104911200, -14400, 3600, "ADT")
           } else {
            Table::row(120632400, -14400, 0, "AST")
           }
          }
         }
        }
       }
      } else {
       if i < 89 {
        if i < 82 {
         if i < 79 {
          if i < 77 {
           Table::row(136360800, -14400, 3600, "ADT")
          } else {
           if i < 78 {
            Table::row(152082000, -14400, 0, "AST")
           } else {
            Table::row(167810400, -14400, 3600, "ADT")
           }
          }
         } else {
          if i < 80 {
           Table::row(183531600, -14400, 0, "AST")
          } else {
           if i < 81 {
            Table::row(199260000, -14400, 3600, "ADT")
           } else {
            Table::row(215586000, -14400, 0, "AST")
           }
          }
         }
        } else {
         if i < 85 {
          if i < 83 {
           Table::row(230709600, -14400, 3600, "ADT")
          } else {
           if i < 84 {
            Table::row(247035600, -14400, 0, "AST")
           } else {
            Table::row(262764000, -14400, 3600, "ADT")
           }
          }
         } else {
          if i < 87 {
           if i < 86 {
            Table::row(278485200, -14400, 0, "AST")
           } else {
            Table::row(294213600, -14400, 3600, "ADT")
           }
          } else {
           if i < 88 {
            Table::row(309934800, -14400, 0, "AST")
           } else {
            Table::row(325663200, -14400, 3600, "ADT")
           }
          }
         }
        }
       } else {
        if i < 95 {
         if i < 92 {
          if i < 90 {
           Table::row(341384400, -14400, 0, "AST")
          } else {
           if i < 91 {
            Table::row(357112800, -14400, 3600, "ADT")
           } else {
            Table::row(372834000, -14400, 0, "AST")
           }
          }
         } else {
          if i < 93 {
           Table::row(388562400, -14400, 3600, "ADT")
          } else {
           if i < 94 {
            Table::row(404888400, -14400, 0, "AST")
           } else {
            Table::row(420012000, -14400, 3600, "ADT")
           }
          }
         }
        } else {
         if i < 98 {
          if i < 96 {
           Table::row(436338000, -14400, 0, "AST")
          } else {
           if i < 97 {
            Table::row(452066400, -14400, 3600, "ADT")
           } else {
            Table::row(467787600, -14400, 0, "AST")
           }
          }
         } else {
          if i < 100 {
           if i < 99 {
            Table::row(483516000, -14400, 3600, "ADT")
           } else {
            Table::row(499237200, -14400, 0, "AST")
           }
          } else {
           if i < 101 {
            Table::row(514965600, -14400, 3600, "ADT")
           } else {
            Table::row(530686800, -14400, 0, "AST")
           }
          }
         }
        }
       }
      }
     }
    } else {
     if i < 153 {
      if i < 127 {
       if i < 114 {
        if i < 108 {
         if i < 105 {
          if i < 103 {
           Table::row(544593660, -14400, 3600, "ADT")
          } else {
           if i < 104 {
            Table::row(562129260, -14400, 0, "AST")
           } else {
            Table::row(576043260, -14400, 7200, "ADDT")
           }
          }
         } else {
          if i < 106 {
           Table::row(594180060, -14400, 0, "AST")
          } else {
           if i < 107 {
            Table::row(607492860, -14400, 3600, "ADT")
           } else {
            Table::row(625633260, -14400, 0, "AST")
           }
          }
         }
        } else {
         if i < 111 {
          if i < 109 {
           Table::row(638942460, -14400, 3600, "ADT")
          } else {
           if i < 110 {
            Table::row(657082860, -14400, 0, "AST")
           } else {
            Table::row(670996860, -14400, 3600, "ADT")
           }
          }
         } else {
          if i < 112 {
           Table::row(688532460, -14400, 0, "AST")
          } else {
           if i < 113 {
            Table::row(702446460, -14400, 3600, "ADT")
           } else {
            Table::row(719982060, -14400, 0, "AST")
           }
          }
         }
        }
       } else {
        if i < 120 {
         if i < 117 {
          if i < 115 {
           Table::row(733896060, -14400, 3600, "ADT")
          } else {
           if i < 116 {
            Table::row(752036460, -14400, 0, "AST")
           } else {
            Table::row(765345660, -14400, 3600, "ADT")
           }
          }
         } else {
          if i < 118 {
           Table::row(783486060, -14400, 0, "AST")
          } else {
           if i < 119 {
            Table::row(796795260, -14400, 3600, "ADT")
           } else {
            Table::row(814935660, -14400, 0, "AST")
           }
          }
         }
        } else {
         if i < 123 {
          if i < 121 {
           Table::row(828849660, -14400, 3600, "ADT")
          } else {
           if i < 122 {
            Table::row(846385260, -14400, 0, "AST")
           } else {
            Table::row(860299260, -14400, 3600, "ADT")
           }
          }
         } else {
          if i < 125 {
           if i < 124 {
            Table::row(877834860, -14400, 0, "AST")
           } else {
            Table::row(891748860, -14400, 3600, "ADT")
           }
          } else {
           if i < 126 {
            Table::row(909284460, -14400, 0, "AST")
           } else {
            Table::row(923198460, -14400, 3600, "ADT")
           }
          }
         }
        }
       }
      } else {
       if i < 140 {
        if i < 133 {
         if i < 130 {
          if i < 128 {
           Table::row(941338860, -14400, 0, "AST")
          } else {
           if i < 129 {
            Table::row(954648060, -14400, 3600, "ADT")
           } else {
            Table::row(972788460, -14400, 0, "AST")
           }
          }
         } else {
          if i < 131 {
           Table::row(986097660, -14400, 3600, "ADT")
          } else {
           if i < 132 {
            Table::row(1004238060, -14400, 0, "AST")
           } else {
            Table::row(1018152060, -14400, 3600, "ADT")
           }
          }
         }
        } else {
         if i < 136 {
          if i < 134 {
           Table::row(1035687660, -14400, 0, "AST")
          } else {
           if i < 135 {
            Table::row(1049601660, -14400, 3600, "ADT")
           } else {
            Table::row(1067137260, -14400, 0, "AST")
           }
          }
         } else {
          if i < 138 {
           if i < 137 {
            Table::row(1081051260, -14400, 3600, "ADT")
           } else {
            Table::row(1099191660, -14400, 0, "AST")
           }
          } else {
           if i < 139 {
            Table::row(1112500860, -14400, 3600, "ADT")
           } else {
            Table::row(1130641260, -14400, 0, "AST")
           }
          }
         }
        }
       } else {
        if i < 146 {
         if i < 143 {
          if i < 141 {
           Table::row(1143950460, -14400, 3600, "ADT")
          } else {
           if i < 142 {
            Table::row(1162090860, -14400, 0, "AST")
           } else {
            Table::row(1173585660, -14400, 3600, "ADT")
           }
          }
         } else {
          if i < 144 {
           Table::row(1194145260, -14400, 0, "AST")
          } else {
           if i < 145 {
            Table::row(1205035260, -14400, 3600, "ADT")
           } else {
            Table::row(1225594860, -14400, 0, "AST")
           }
          }
         }
        } else {
         if i < 149 {
          if i < 147 {
           Table::row(1236484860, -14400, 3600, "ADT")
          } else {
           if i < 148 {
            Table::row(1257044460, -14400, 0, "AST")
           } else {
            Table::row(1268539260, -14400, 3600, "ADT")
           }
          }
         } else {
          if i < 151 {
           if i < 150 {
            Table::row(1289098860, -14400, 0, "AST")
           } else {
            Table::row(1299988860, -14400, 3600, "ADT")
           }
          } else {
           if i < 152 {
            Table::row(1320555600, -14400, 0, "AST")
           } else {
            Table::row(1331445600, -14400, 3600, "ADT")
           }
          }
         }
        }
       }
      }
     } else {
      if i < 178 {
       if i < 165 {
        if i < 159 {
         if i < 156 {
          if i < 154 {
           Table::row(1352005200, -14400, 0, "AST")
          } else {
           if i < 155 {
            Table::row(1362895200, -14400, 3600, "ADT")
           } else {
            Table::row(1383454800, -14400, 0, "AST")
           }
          }
         } else {
          if i < 157 {
           Table::row(1394344800, -14400, 3600, "ADT")
          } else {
           if i < 158 {
            Table::row(1414904400, -14400, 0, "AST")
           } else {
            Table::row(1425794400, -14400, 3600, "ADT")
           }
          }
         }
        } else {
         if i < 162 {
          if i < 160 {
           Table::row(1446354000, -14400, 0, "AST")
          } else {
           if i < 161 {
            Table::row(1457848800, -14400, 3600, "ADT")
           } else {
            Table::row(1478408400, -14400, 0, "AST")
           }
          }
         } else {
          if i < 163 {
           Table::row(1489298400, -14400, 3600, "ADT")
          } else {
           if i < 164 {
            Table::row(1509858000, -14400, 0, "AST")
           } else {
            Table::row(1520748000, -14400, 3600, "ADT")
           }
          }
         }
        }
       } else {
        if i < 171 {
         if i < 168 {
          if i < 166 {
           Table::row(1541307600, -14400, 0, "AST")
          } else {
           if i < 167 {
            Table::row(1552197600, -14400, 3600, "ADT")
           } else {
            Table::row(1572757200, -14400, 0, "AST")
           }
          }
         } else {
          if i < 169 {
           Table::row(1583647200, -14400, 3600, "ADT")
          } else {
           if i < 170 {
            Table::row(1604206800, -14400, 0, "AST")
           } else {
            Table::row(1615701600, -14400, 3600, "ADT")
           }
          }
         }
        } else {
         if i < 174 {
          if i < 172 {
           Table::row(1636261200, -14400, 0, "AST")
          } else {
           if i < 173 {
            Table::row(1647151200, -14400, 3600, "ADT")
           } else {
            Table::row(1667710800, -14400, 0, "AST")
           }
          }
         } else {
          if i < 176 {
           if i < 175 {
            Table::row(1678600800, -14400, 3600, "ADT")
           } else {
            Table::row(1699160400, -14400, 0, "AST")
           }
          } else {
           if i < 177 {
            Table::row(1710050400, -14400, 3600, "ADT")
           } else {
            Table::row(1730610000, -14400, 0, "AST")
           }
          }
         }
        }
       }
      } else {
       if i < 191 {
        if i < 184 {
         if i < 181 {
          if i < 179 {
           Table::row(1741500000, -14400, 3600, "ADT")
          } else {
           if i < 180 {
            Table::row(1762059600, -14400, 0, "AST")
           } else {
            Table::row(1772949600, -14400, 3600, "ADT")
           }
          }
         } else {
          if i < 182 {
           Table::row(1793509200, -14400, 0, "AST")
          } else {
           if i < 183 {
            Table::row(1805004000, -14400, 3600, "ADT")
           } else {
            Table::row(1825563600, -14400, 0, "AST")
           }
          }
         }
        } else {
         if i < 187 {
          if i < 185 {
           Table::row(1836453600, -14400, 3600, "ADT")
          } else {
           if i < 186 {
            Table::row(1857013200, -14400, 0, "AST")
           } else {
            Table::row(1867903200, -14400, 3600, "ADT")
           }
          }
         } else {
          if i < 189 {
           if i < 188 {
            Table::row(1888462800, -14400, 0, "AST")
           } else {
            Table::row(1899352800, -14400, 3600, "ADT")
           }
          } else {
           if i < 190 {
            Table::row(1919912400, -14400, 0, "AST")
           } else {
            Table::row(1930802400, -14400, 3600, "ADT")
           }
          }
         }
        }
       } else {
        if i < 197 {
         if i < 194 {
          if i < 192 {
           Table::row(1951362000, -14400, 0, "AST")
          } else {
           if i < 193 {
            Table::row(1962856800, -14400, 3600, "ADT")
           } else {
            Table::row(1983416400, -14400, 0, "AST")
           }
          }
         } else {
          if i < 195 {
           Table::row(1994306400, -14400, 3600, "ADT")
          } else {
           if i < 196 {
            Table::row(2014866000, -14400, 0, "AST")
           } else {
            Table::row(2025756000, -14400, 3600, "ADT")
           }
          }
         }
        } else {
         if i < 200 {
          if i < 198 {
           Table::row(2046315600, -14400, 0, "AST")
          } else {
           if i < 199 {
            Table::row(2057205600, -14400, 3600, "ADT")
           } else {
            Table::row(2077765200, -14400, 0, "AST")
           }
          }
         } else {
          if i < 202 {
           if i < 201 {
            Table::row(2088655200, -14400, 3600, "ADT")
           } else {
            Table::row(2109214800, -14400, 0, "AST")
           }
          } else {
           if i < 203 {
            Table::row(2120104800, -14400, 3600, "ADT")
           } else {
            Table::row(2140664400, -14400, 0, "AST")
           }
          }
         }
        }
       }
      }
     }
    }
}

/// The rows of the table of the zone `America/Goose_Bay`.
pub open spec fn goose_bay_rows() -> spec_fn(int) -> (i64, FixedTimespan) {
    |i: int| goose_bay_row(i)
}

/// The table of the zone `America/Goose_Bay`.
pub open spec fn goose_bay() -> Table {
    Table::listed(Table::row(0, -14500, 0, "LMT").1, 204, goose_bay_rows())
}

/// Row `i` of the table of the zone `America/Grand_Turk`.
pub open spec fn grand_turk_row(i: int) -> (i64, FixedTimespan) {
    if i < 57 {
     if i < 28 {
      if i < 14 {
       if i < 7 {
        if i < 3 {
         if i < 1 {
          Table::row(-2524504528, -18430, 0, "KMT")
         } else {
          if i < 2 {
           Table::row(-1827687170, -18000, 0, "EST")
          } else {
           Table::row(294217200, -18000, 3600, "EDT")
          }
         }
        } else {
         if i < 5 {
          if i < 4 {
           Table::row(309938400, -18000, 0, "EST")
          } else {
           Table::row(325666800, -18000, 3600, "EDT")
          }
         } else {
          if i < 6 {
           Table::row(341388000, -18000, 0, "EST")
          } else {
           Table::row(357116400, -18000, 3600, "EDT")
          }
         }
        }
       } else {
        if i < 10 {
         if i < 8 {
          Table::row(372837600, -18000, 0, "EST")
         } else {
          if i < 9 {
           Table::row(388566000, -18000, 3600, "EDT")
          } else {
           Table::row(404892000, -18000, 0, "EST")
          }
         }
        } else {
         if i < 12 {
          if i < 11 {
           Table::row(420015600, -18000, 3600, "EDT")
          } else {
           Table::row(436341600, -18000, 0, "EST")
          }
         } else {
          if i < 13 {
           Table::row(452070000, -18000, 3600, "EDT")
          } else {
           Table::row(467791200, -18000, 0, "EST")
          }
         }
        }
       }
      } else {
       if i < 21 {
        if i < 17 {
         if i < 15 {
          Table::row(483519600, -18000, 3600, "EDT")
         } else {
          if i < 16 {
           Table::row(499240800, -18000, 0, "EST")
          } else {
           Table::row(514969200, -18000, 3600, "EDT")
          }
         }
        } else {
         if i < 19 {
          if i < 18 {
           Table::row(530690400, -18000, 0, "EST")
          } else {
           Table::row(544604400, -18000, 3600, "EDT")
          }
         } else {
          if i < 20 {
           Table::row(562140000, -18000, 0, "EST")
          } else {
           Table::row(576054000, -18000, 3600, "EDT")
          }
         }
        }
       } else {
        if i < 24 {
         if i < 22 {
          Table::row(594194400, -18000, 0, "EST")
         } else {
          if i < 23 {
           Table::row(607503600, -18000, 3600, "EDT")
          } else {
           Table::row(625644000, -18000, 0, "EST")
          }
         }
        } else {
         if i < 26 {
          if i < 25 {
           Table::row(638953200, -18000, 3600, "EDT")
          } else {
           Table::row(657093600, -18000, 0, "EST")
          }
         } else {
          if i < 27 {
           Table::row(671007600, -18000, 3600, "EDT")
          } else {
           Table::row(688543200, -18000, 0, "EST")
          }
         }
        }
       }
      }
     } else {
      if i < 42 {
       if i < 35 {
        if i < 31 {
         if i < 29 {
          Table::row(702457200, -18000, 3600, "EDT")
         } else {
          if i < 30 {
           Table::row(719992800, -18000, 0, "EST")
          } else {
           Table::row(733906800, -18000, 3600, "EDT")
          }
         }
        } else {
         if i < 33 {
          if i < 32 {
           Table::row(752047200, -18000, 0, "EST")
          } else {
           Table::row(765356400, -18000, 3600, "EDT")
          }
         } else {
          if i < 34 {
           Table::row(783496800, -18000, 0, "EST")
          } else {
           Table::row(796806000, -18000, 3600, "EDT")
          }
         }
        }
       } else {
        if i < 38 {
         if i < 36 {
          Table::row(814946400, -18000, 0, "EST")
         } else {
          if i < 37 {
           Table::row(828860400, -18000, 3600, "EDT")
          } else {
           Table::row(846396000, -18000, 0, "EST")
          }
         }
        } else {
         if i < 40 {
          if i < 39 {
           Table::row(860310000, -18000, 3600, "EDT")
          } else {
           Table::row(877845600, -18000, 0, "EST")
          }
         } else {
          if i < 41 {
           Table::row(891759600, -18000, 3600, "EDT")
          } else {
           Table::row(909295200, -18000, 0, "EST")
          }
         }
        }
       }
      } else {
       if i < 49 {
        if i < 45 {
         if i < 43 {
          Table::row(923209200, -18000, 3600, "EDT")
         } else {
          if i < 44 {
           Table::row(941349600, -18000, 0, "EST")
          } else {
           Table::row(954658800, -18000, 3600, "EDT")
          }
         }
        } else {
         if i < 47 {
          if i < 46 {
           Table::row(972799200, -18000, 0, "EST")
          } else {
           Table::row(986108400, -18000, 3600, "EDT")
          }
         } else {
          if i < 48 {
           Table::row(1004248800, -18000, 0, "EST")
          } else {
           Table::row(1018162800, -18000, 3600, "EDT")
          }
         }
        }
       } else {
        if i < 53 {
         if i < 51 {
          if i < 50 {
           Table::row(1035698400, -18000, 0, "EST")
          } else {
           Table::row(1049612400, -18000, 3600, "EDT")
          }
         } else {
          if i < 52 {
           Table::row(1067148000, -18000, 0, "EST")
          } else {
           Table::row(1081062000, -18000, 3600, "EDT")
          }
         }
        } else {
         if i < 55 {
          if i < 54 {
           Table::row(1099202400, -18000, 0, "EST")
          } else {
           Table::row(1112511600, -18000, 3600, "EDT")
          }
         } else {
          if i < 56 {
           Table::row(1130652000, -18000, 0, "EST")
          } else {
           Table::row(1143961200, -18000, 3600, "EDT")
          }
         }
        }
       }
      }
     }
    } else {
     if i < 86 {
      if i < 71 {
       if i < 64 {
        if i < 60 {
         if i < 58 {
          Table::row(1162101600, -18000, 0, "EST")
         } else {
          if i < 59 {
           Table::row(1173596400, -18000, 3600, "EDT")
          } else {
           Table::row(1194156000, -18000, 0, "EST")
          }
         }
        } else {
         if i < 62 {
          if i < 61 {
           Table::row(1205046000, -18000, 3600, "EDT")
          } else {
           Table::row(1225605600, -18000, 0, "EST")
          }
         } else {
          if i < 63 {
           Table::row(1236495600, -18000, 3600, "EDT")
          } else {
           Table::row(1257055200, -18000, 0, "EST")
          }
         }
        }
       } else {
        if i < 67 {
         if i < 65 {
          Table::row(1268550000, -18000, 3600, "EDT")
         } else {
          if i < 66 {
           Table::row(1289109600, -18000, 0, "EST")
          } else {
           Table::row(1299999600, -18000, 3600, "EDT")
          }
         }
        } else {
         if i < 69 {
          if i < 68 {
           Table::row(1320559200, -18000, 0, "EST")
          } else {
           Table::row(1331449200, -18000, 3600, "EDT")
          }
         } else {
          if i < 70 {
           Table::row(1352008800, -18000, 0, "EST")
          } else {
           Table::row(1362898800, -18000, 3600, "EDT")
          }
         }
        }
       }
      } else {
       if i < 78 {
        if i < 74 {
         if i < 72 {
          Table::row(1383458400, -18000, 0, "EST")
         } else {
          if i < 73 {
           Table::row(1394348400, -18000, 3600, "EDT")
          } else {
           Table::row(1414908000, -18000, 0, "EST")
          }
         }
        } else {
         if i < 76 {
          if i < 75 {
           Table::row(1425798000, -14400, 0, "AST")
          } else {
           Table::row(1520751600, -18000, 3600, "EDT")
          }
         } else {
          if i < 77 {
           Table::row(1541311200, -18000, 0, "EST")
          } else {
           Table::row(1552201200, -18000, 3600, "EDT")
          }
         }
        }
       } else {
        if i < 82 {
         if i < 80 {
          if i < 79 {
           Table::row(1572760800, -18000, 0, "EST")
          } else {
           Table::row(1583650800, -18000, 3600, "EDT")
          }
         } else {
          if i < 81 {
           Table::row(1604210400, -18000, 0, "EST")
          } else {
           Table::row(1615705200, -18000, 3600, "EDT")
          }
         }
        } else {
         if i < 84 {
          if i < 83 {
           Table::row(1636264800, -18000, 0, "EST")
          } else {
           Table::row(1647154800, -18000, 3600, "EDT")
          }
         } else {
          if i < 85 {
           Table::row(1667714400, -18000, 0, "EST")
          } else {
           Table::row(1678604400, -18000, 3600, "EDT")
          }
         }
        }
       }
      }
     } else {
      if i < 100 {
       if i < 93 {
        if i < 89 {
         if i < 87 {
          Table::row(1699164000, -18000, 0, "EST")
         } else {
          if i < 88 {
           Table::row(1710054000, -18000, 3600, "EDT")
          } else {
           Table::row(1730613600, -18000, 0, "EST")
          }
         }
        } else {
         if i < 91 {
          if i < 90 {
           Table::row(1741503600, -18000, 3600, "EDT")
          } else {
           Table::row(1762063200, -18000, 0, "EST")
          }
         } else {
          if i < 92 {
           Table::row(1772953200, -18000, 3600, "EDT")
          } else {
           Table::row(1793512800, -18000, 0, "EST")
          }
         }
        }
       } else {
        if i < 96 {
         if i < 94 {
          Table::row(1805007600, -18000, 3600, "EDT")
         } else {
          if i < 95 {
           Table::row(1825567200, -18000, 0, "EST")
          } else {
           Table::row(1836457200, -18000, 3600, "EDT")
          }
         }
        } else {
         if i < 98 {
          if i < 97 {
           Table::row(1857016800, -18000, 0, "EST")
          } else {
           Table::row(1867906800, -18000, 3600, "EDT")
          }
         } else {
          if i < 99 {
           Table::row(1888466400, -18000, 0, "EST")
          } else {
           Table::row(1899356400, -18000, 3600, "EDT")
          }
         }
        }
       }
      } else {
       if i < 107 {
        if i < 103 {
         if i < 101 {
          Table::row(1919916000, -18000, 0, "EST")
         } else {
          if i < 102 {
           Table::row(1930806000, -18000, 3600, "EDT")
          } else {
           Table::row(1951365600, -18000, 0, "EST")
          }
         }
        } else {
         if i < 105 {
          if i < 104 {
           Table::row(1962860400, -18000, 3600, "EDT")
          } else {
           Table::row(1983420000, -18000, 0, "EST")
          }
         } else {
          if i < 106 {
           Table::row(1994310000, -18000, 3600, "EDT")
          } else {
           Table::row(2014869600, -18000, 0, "EST")
          }
         }
        }
       } else {
        if i < 111 {
         if i < 109 {
          if i < 108 {
           Table::row(2025759600, -18000, 3600, "EDT")
          } else {
           Table::row(2046319200, -18000, 0, "EST")
          }
         } else {
          if i < 110 {
           Table::row(2057209200, -18000, 3600, "EDT")
          } else {
           Table::row(2077768800, -18000, 0, "EST")
          }
         }
        } else {
         if i < 113 {
          if i < 112 {
           Table::row(2088658800, -18000, 3600, "EDT")
          } else {
           Table::row(2109218400, -18000, 0, "EST")
          }
         } else {
          if i < 114 {
           Table::row(2120108400, -18000, 3600, "EDT")
          } else {
           Table::row(2140668000, -18000, 0, "EST")
          }
         }
        }
       }
      }
     }
    }
}

/// The rows of the table of the zone `America/Grand_Turk`.
pub open spec fn grand_turk_rows() -> spec_fn(int) -> (i64, FixedTimespan) {
    |i: int| grand_turk_row(i)
}

/// The table of the zone `America/Grand_Turk`.
pub open spec fn grand_turk() -> Table {
    Table::listed(Table::row(0, -17072, 0, "LMT").1, 115, grand_turk_rows())
}

/// Row `i` of the table of the zone `America/Grenada`.
pub open spec fn grenada_row(i: int) -> (i64, FixedTimespan) {
    Table::row(-1846266780, -14400, 0, "AST")
}

/// The rows of the table of the zone `America/Grenada`.
pub open spec fn grenada_rows() -> spec_fn(int) -> (i64, FixedTimespan) {
    |i: int| grenada_row(i)
}

/// The table of the zone `America/Grenada`.
pub open spec fn grenada() -> Table {
    Table::listed(Table::row(0, -14820, 0, "LMT").1, 1, grenada_rows())
}

/// Row `i` of the table of the zone `America/Guadeloupe`.
pub open spec fn guadeloupe_row(i: int) -> (i64, FixedTimespan) {
    Table::row(-1848254032, -14400, 0, "AST")
}

/// The rows of the table of the zone `America/Guadeloupe`.
pub open spec fn guadeloupe_rows() -> spec_fn(int) -> (i64, FixedTimespan) {
    |i: int| guadeloupe_row(i)
}

/// The table of the zone `America/Guadeloupe`.
pub open spec fn guadeloupe() -> Table {
    Table::listed(Table::row(0, -14768, 0, "LMT").1, 1, guadeloupe_rows())
}

/// Row `i` of the table of the zone `America/Guatemala`.
pub open spec fn guatemala_row(i: int) -> (i64, FixedTimespan) {
    if i < 4 {
     if i < 2 {
      if i < 1 {
       Table::row(-1617040676, -21600, 0, "CST")
      } else {
       Table::row(123055200, -21600, 3600, "CDT")
      }
     } else {
      if i < 3 {
       Table::row(130914000, -21600, 0, "CST")
      } else {
       Table::row(422344800, -21600, 3600, "CDT")
      }
     }
    } else {
     if i < 6 {
      if i < 5 {
       Table::row(433054800, -21600, 0, "CST")
      } else {
       Table::row(669708000, -21600, 3600, "CDT")
      }
     } else {
      if i < 7 {
       Table::row(684219600, -21600, 0, "CST")
      } else {
       if i < 8 {
        Table::row(1146376800, -21600, 3600, "CDT")
       } else {
        Table::row(1159678800, -21600, 0, "CST")
       }
      }
     }
    }
}

/// The rows of the table of the zone `America/Guatemala`.
pub open spec fn guatemala_rows() -> spec_fn(int) -> (i64, FixedTimespan) {
    |i: int| guatemala_row(i)
}

/// The table of the zone `America/Guatemala`.
pub open spec fn guatemala() -> Table {
    Table::listed(Table::row(0, -21724, 0, "LMT").1, 9, guatemala_rows())
}

/// Row `i` of the table of the zone `America/Guayaquil`.
pub open spec fn guayaquil_row(i: int) -> (i64, FixedTimespan) {
    if i < 2 {
     if i < 1 {
      Table::row(-2524502440, -18840, 0, "QMT")
     } else {
      Table::row(-1230749160, -18000, 0, "-05")
     }
    } else {
     if i < 3 {
      Table::row(722926800, -18000, 3600, "-04")
     } else {
      if i < 4 {
       Table::row(728884800, -18000, 0, "-05")
      } else {
       Table::row(2147483647, -18000, 0, "-05")
      }
     }
    }
}

/// The rows of the table of the zone `America/Guayaquil`.
pub open spec fn guayaquil_rows() -> spec_fn(int) -> (i64, FixedTimespan) {
    |i: int| guayaquil_row(i)
}

/// The table of the zone `America/Guayaquil`.
pub open spec fn guayaquil() -> Table {
    Table::listed(Table::row(0, -19160, 0, "LMT").1, 5, guayaquil_rows())
}

/// Row `i` of the table of the zone `America/Guyana`.
pub open spec fn guyana_row(i: int) -> (i64, FixedTimespan) {
    if i < 2 {
     if i < 1 {
      Table::row(-1843589241, -14400, 0, "-04")
     } else {
      Table::row(-1730577600, -13500, 0, "-0345")
     }
    } else {
     if i < 3 {
      Table::row(176096700, -10800, 0, "-03")
     } else {
      if i < 4 {
       Table::row(701841600, -14400, 0, "-04")
      } else {
       Table::row(2147483647, -14400, 0, "-04")
      }
     }
    }
}

/// The rows of the table of the zone `America/Guyana`.
pub open spec fn guyana_rows() -> spec_fn(int) -> (i64, FixedTimespan) {
    |i: int| guyana_row(i)
}

/// The table of the zone `America/Guyana`.
pub open spec fn guyana() -> Table {
    Table::listed(Table::row(0, -13959, 0, "LMT").1, 5, guyana_rows())
}

/// Row `i` of the table of the zone `America/Halifax`.
pub open spec fn halifax_row(i: int) -> (i64, FixedTimespan) {
    if i < 114 {
     if i < 57 {
      if i < 28 {
       if i < 14 {
        if i < 7 {
         if i < 3 {
          if i < 1 {
           Table::row(-2131645536, -14400, 0, "AST")
          } else {
           if i < 2 {
            Table::row(-1696276800, -14400, 3600, "ADT")
           } else {
            Table::row(-1680469200, -14400, 0, "AST")
           }
          }
         } else {
          if i < 5 {
           if i < 4 {
            Table::row(-1632074400, -14400, 3600, "ADT")
           } else {
            Table::row(-1615143600, -14400, 0, "AST")
           }
          } else {
           if i < 6 {
            Table::row(-1566763200, -14400, 3600, "ADT")
           } else {
            Table::row(-1557090000, -14400, 0, "AST")
           }
          }
         }
        } else {
         if i < 10 {
          if i < 8 {
           Table::row(-1535486400, -14400, 3600, "ADT")
          } else {
           if i < 9 {
            Table::row(-1524949200, -14400, 0, "AST")
           } else {
            Table::row(-1504468800, -14400, 3600, "ADT")
           }
          }
         } else {
          if i < 12 {
           if i < 11 {
            Table::row(-1493413200, -14400, 0, "AST")
           } else {
            Table::row(-1472414400, -14400, 3600, "ADT")
           }
          } else {
           if i < 13 {
            Table::row(-1461963600, -14400, 0, "AST")
           } else {
            Table::row(-1440964800, -14400, 3600, "ADT")
           }
          }
         }
        }
       } else {
        if i < 21 {
         if i < 17 {
          if i < 15 {
           Table::row(-1429390800, -14400, 0, "AST")
          } else {
           if i < 16 {
            Table::row(-1409515200, -14400, 3600, "ADT")
           } else {
            Table::row(-1396731600, -14400, 0, "AST")
           }
          }
         } else {
          if i < 19 {
           if i < 18 {
            Table::row(-1376856000, -14400, 3600, "ADT")
           } else {
            Table::row(-1366491600, -14400, 0, "AST")
           }
          } else {
           if i < 20 {
            Table::row(-1346616000, -14400, 3600, "ADT")
           } else {
            Table::row(-1333832400, -14400, 0, "AST")
           }
          }
         }
        } else {
         if i < 24 {
          if i < 22 {
           Table::row(-1313956800, -14400, 3600, "ADT")
          } else {
           if i < 23 {
            Table::row(-1303678800, -14400, 0, "AST")
           } else {
            Table::row(-1282507200, -14400, 3600, "ADT")
           }
          }
         } else {
          if i < 26 {
           if i < 25 {
            Table::row(-1272661200, -14400, 0, "AST")
           } else {
            Table::row(-1251057600, -14400, 3600, "ADT")
           }
          } else {
           if i < 27 {
            Table::row(-1240088400, -14400, 0, "AST")
           } else {
            Table::row(-1219608000, -14400, 3600, "ADT")
           }
          }
         }
        }
       }
      } else {
       if i < 42 {
        if i < 35 {
         if i < 31 {
          if i < 29 {
           Table::row(-1207429200, -14400, 0, "AST")
          } else {
           if i < 30 {
            Table::row(-1188763200, -14400, 3600, "ADT")
           } else {
            Table::row(-1175979600, -14400, 0, "AST")
           }
          }
         } else {
          if i < 33 {
           if i < 32 {
            Table::row(-1157313600, -14400, 3600, "ADT")
           } else {
            Table::row(-1143925200, -14400, 0, "AST")
           }
          } else {
           if i < 34 {
            Table::row(-1124049600, -14400, 3600, "ADT")
           } else {
            Table::row(-1113771600, -14400, 0, "AST")
           }
          }
         }
        } else {
         if i < 38 {
          if i < 36 {
           Table::row(-1091390400, -14400, 3600, "ADT")
          } else {
           if i < 37 {
            Table::row(-1081026000, -14400, 0, "AST")
           } else {
            Table::row(-1059854400, -14400, 3600, "ADT")
           }
          }
         } else {
          if i < 40 {
           if i < 39 {
            Table::row(-1050786000, -14400, 0, "AST")
           } else {
            Table::row(-1030910400, -14400, 3600, "ADT")
           }
          } else {
           if i < 41 {
            Table::row(-1018126800, -14400, 0, "AST")
           } else {
            Table::row(-999460800, -14400, 3600, "ADT")
           }
          }
         }
        }
       } else {
        if i < 49 {
         if i < 45 {
          if i < 43 {
           Table::row(-986677200, -14400, 0, "AST")
          } else {
           if i < 44 {
            Table::row(-965592000, -14400, 3600, "ADT")
           } else {
            Table::row(-955227600, -14400, 0, "AST")
           }
          }
         } else {
          if i < 47 {
           if i < 46 {
            Table::row(-935956800, -14400, 3600, "ADT")
           } else {
            Table::row(-923173200, -14400, 0, "AST")
           }
          } else {
           if i < 48 {
            Table::row(-904507200, -14400, 3600, "ADT")
           } else {
            Table::row(-891723600, -14400, 0, "AST")
           }
          }
         }
        } else {
         if i < 53 {
          if i < 51 {
           if i < 50 {
            Table::row(-880221600, -14400, 3600, "AWT")
           } else {
            Table::row(-769395600, -14400, 3600, "APT")
           }
          } else {
           if i < 52 {
            Table::row(-765399600, -14400, 0, "AST")
           } else {
            Table::row(-747252000, -14400, 3600, "ADT")
           }
          }
         } else {
          if i < 55 {
           if i < 54 {
            Table::row(-733950000, -14400, 0, "AST")
           } else {
            Table::row(-715802400, -14400, 3600, "ADT")
           }
          } else {
           if i < 56 {
            Table::row(-702500400, -14400, 0, "AST")
           } else {
            Table::row(-684352800, -14400, 3600, "ADT")
           }
          }
         }
        }
       }
      }
     } else {
      if i < 85 {
       if i < 71 {
        if i < 64 {
         if i < 60 {
          if i < 58 {
           Table::row(-671050800, -14400, 0, "AST")
          } else {
           if i < 59 {
            Table::row(-652903200, -14400, 3600, "ADT")
           } else {
            Table::row(-639601200, -14400, 0, "AST")
           }
          }
         } else {
          if i < 62 {
           if i < 61 {
            Table::row(-589399200, -14400, 3600, "ADT")
           } else {
            Table::row(-576097200, -14400, 0, "AST")
           }
          } else {
           if i < 63 {
            Table::row(-557949600, -14400, 3600, "ADT")
           } else {
            Table::row(-544647600, -14400, 0, "AST")
           }
          }
         }
        } else {
         if i < 67 {
          if i < 65 {
           Table::row(-526500000, -14400, 3600, "ADT")
          } else {
           if i < 66 {
            Table::row(-513198000, -14400, 0, "AST")
           } else {
            Table::row(-495050400, -14400, 3600, "ADT")
           }
          }
         } else {
          if i < 69 {
           if i < 68 {
            Table::row(-481748400, -14400, 0, "AST")
           } else {
            Table::row(-431546400, -14400, 3600, "ADT")
           }
          } else {
           if i < 70 {
            Table::row(-418244400, -14400, 0, "AST")
           } else {
            Table::row(-400096800, -14400, 3600, "ADT")
           }
          }
         }
        }
       } else {
        if i < 78 {
         if i < 74 {
          if i < 72 {
           Table::row(-386794800, -14400, 0, "AST")
          } else {
           if i < 73 {
            Table::row(-368647200, -14400, 3600, "ADT")
           } else {
            Table::row(-355345200, -14400, 0, "AST")
           }
          }
         } else {
          if i < 76 {
           if i < 75 {
            Table::row(-337197600, -14400, 3600, "ADT")
           } else {
            Table::row(-323895600, -14400, 0, "AST")
           }
          } else {
           if i < 77 {
            Table::row(-242244000, -14400, 3600, "ADT")
           } else {
            Table::row(-226522800, -14400, 0, "AST")
           }
          }
         }
        } else {
         if i < 81 {
          if i < 79 {
           Table::row(-210794400, -14400, 3600, "ADT")
          } else {
           if i < 80 {
            Table::row(-195073200, -14400, 0, "AST")
           } else {
            Table::row(-179344800, -14400, 3600, "ADT")
           }
          }
         } else {
          if i < 83 {
           if i < 82 {
            Table::row(-163623600, -14400, 0, "AST")
           } else {
            Table::row(-147895200, -14400, 3600, "ADT")
           }
          } else {
           if i < 84 {
            Table::row(-131569200, -14400, 0, "AST")
           } else {
            Table::row(-116445600, -14400, 3600, "ADT")
           }
          }
         }
        }
       }
      } else {
       if i < 99 {
        if i < 92 {
         if i < 88 {
          if i < 86 {
           Table::row(-100119600, -14400, 0, "AST")
          } else {
           if i < 87 {
            Table::row(-84391200, -14400, 3600, "ADT")
           } else {
            Table::row(-68670000, -14400, 0, "AST")
           }
          }
         } else {
          if i < 90 {
           if i < 89 {
            Table::row(-52941600, -14400, 3600, "ADT")
           } else {
            Table::row(-37220400, -14400, 0, "AST")
           }
          } else {
           if i < 91 {
            Table::row(-21492000, -14400, 3600, "ADT")
           } else {
            Table::row(-5770800, -14400, 0, "AST")
           }
          }
         }
        } else {
         if i < 95 {
          if i < 93 {
           Table::row(9957600, -14400, 3600, "ADT")
          } else {
           if i < 94 {
            Table::row(25678800, -14400, 0, "AST")
           } else {
            Table::row(41407200, -14400, 3600, "ADT")
           }
          }
         } else {
          if i < 97 {
           if i < 96 {
            Table::row(57733200, -14400, 0, "AST")
           } else {
            Table::row(73461600, -14400, 3600, "ADT")
           }
          } else {
           if i < 98 {
            Table::row(89182800, -14400, 0, "AST")
           } else {
            Table::row(104911200, -14400, 3600, "ADT")
           }
          }
         }
        }
       } else {
        if i < 106 {
         if i < 102 {
          if i < 100 {
           Table::row(120632400, -14400, 0, "AST")
          } else {
           if i < 101 {
            Table::row(136360800, -14400, 3600, "ADT")
           } else {
            Table::row(152082000, -14400, 0, "AST")
           }
          }
         } else {
          if i < 104 {
           if i < 103 {
            Table::row(167810400, -14400, 3600, "ADT")
           } else {
            Table::row(183531600, -14400, 0, "AST")
           }
          } else {
           if i < 105 {
            Table::row(199260000, -14400, 3600, "ADT")
           } else {
            Table::row(215586000, -14400, 0, "AST")
           }
          }
         }
        } else {
         if i < 110 {
          if i < 108 {
           if i < 107 {
            Table::row(230709600, -14400, 3600, "ADT")
           } else {
            Table::row(247035600, -14400, 0, "AST")
           }
          } else {
           if i < 109 {
            Table::row(262764000, -14400, 3600, "ADT")
           } else {
            Table::row(278485200, -14400, 0, "AST")
           }
          }
         } else {
          if i < 112 {
           if i < 111 {
            Table::row(294213600, -14400, 3600, "ADT")
           } else {
            Table::row(309934800, -14400, 0, "AST")
           }
          } else {
           if i < 113 {
            Table::row(325663200, -14400, 3600, "ADT")
           } else {
            Table::row(341384400, -14400, 0, "AST")
           }
          }
         }
        }
       }
      }
     }
    } else {
     if i < 171 {
      if i < 142 {
       if i < 128 {
        if i < 121 {
         if i < 117 {
          if i < 115 {
           Table::row(357112800, -14400, 3600, "ADT")
          } else {
           if i < 116 {
            Table::row(372834000, -14400, 0, "AST")
           } else {
            Table::row(388562400, -14400, 3600, "ADT")
           }
          }
         } else {
          if i < 119 {
           if i < 118 {
            Table::row(404888400, -14400, 0, "AST")
           } else {
            Table::row(420012000, -14400, 3600, "ADT")
           }
          } else {
           if i < 120 {
            Table::row(436338000, -14400, 0, "AST")
           } else {
            Table::row(452066400, -14400, 3600, "ADT")
           }
          }
         }
        } else {
         if i < 124 {
          if i < 122 {
           Table::row(467787600, -14400, 0, "AST")
          } else {
           if i < 123 {
            Table::row(483516000, -14400, 3600, "ADT")
           } else {
            Table::row(499237200, -14400, 0, "AST")
           }
          }
         } else {
          if i < 126 {
           if i < 125 {
            Table::row(514965600, -14400, 3600, "ADT")
           } else {
            Table::row(530686800, -14400, 0, "AST")
           }
          } else {
           if i < 127 {
            Table::row(544600800, -14400, 3600, "ADT")
           } else {
            Table::row(562136400, -14400, 0, "AST")
           }
          }
         }
        }
       } else {
        if i < 135 {
         if i < 131 {
          if i < 129 {
           Table::row(576050400, -14400, 3600, "ADT")
          } else {
           if i < 130 {
            Table::row(594190800, -14400, 0, "AST")
           } else {
            Table::row(607500000, -14400, 3600, "ADT")
           }
          }
         } else {
          if i < 133 {
           if i < 132 {
            Table::row(625640400, -14400, 0, "AST")
           } else {
            Table::row(638949600, -14400, 3600, "ADT")
           }
          } else {
           if i < 134 {
            Table::row(657090000, -14400, 0, "AST")
           } else {
            Table::row(671004000, -14400, 3600, "ADT")
           }
          }
         }
        } else {
         if i < 138 {
          if i < 136 {
           Table::row(688539600, -14400, 0, "AST")
          } else {
           if i < 137 {
            Table::row(702453600, -14400, 3600, "ADT")
           } else {
            Table::row(719989200, -14400, 0, "AST")
           }
          }
         } else {
          if i < 140 {
           if i < 139 {
            Table::row(733903200, -14400, 3600, "ADT")
           } else {
            Table::row(752043600, -14400, 0, "AST")
           }
          } else {
           if i < 141 {
            Table::row(765352800, -14400, 3600, "ADT")
           } else {
            Table::row(783493200, -14400, 0, "AST")
           }
          }
         }
        }
       }
      } else {
       if i < 156 {
        if i < 149 {
         if i < 145 {
          if i < 143 {
           Table::row(796802400, -14400, 3600, "ADT")
          } else {
           if i < 144 {
            Table::row(814942800, -14400, 0, "AST")
           } else {
            Table::row(828856800, -14400, 3600, "ADT")
           }
          }
         } else {
          if i < 147 {
           if i < 146 {
            Table::row(846392400, -14400, 0, "AST")
           } else {
            Table::row(860306400, -14400, 3600, "ADT")
           }
          } else {
           if i < 148 {
            Table::row(877842000, -14400, 0, "AST")
           } else {
            Table::row(891756000, -14400, 3600, "ADT")
           }
          }
         }
        } else {
         if i < 152 {
          if i < 150 {
           Table::row(909291600, -14400, 0, "AST")
          } else {
           if i < 151 {
            Table::row(923205600, -14400, 3600, "ADT")
           } else {
            Table::row(941346000, -14400, 0, "AST")
           }
          }
         } else {
          if i < 154 {
           if i < 153 {
            Table::row(954655200, -14400, 3600, "ADT")
           } else {
            Table::row(972795600, -14400, 0, "AST")
           }
          } else {
           if i < 155 {
            Table::row(986104800, -14400, 3600, "ADT")
           } else {
            Table::row(1004245200, -14400, 0, "AST")
           }
          }
         }
        }
       } else {
        if i < 163 {
         if i < 159 {
          if i < 157 {
           Table::row(1018159200, -14400, 3600, "ADT")
          } else {
           if i < 158 {
            Table::row(1035694800, -14400, 0, "AST")
           } else {
            Table::row(1049608800, -14400, 3600, "ADT")
           }
          }
         } else {
          if i < 161 {
           if i < 160 {
            Table::row(1067144400, -14400, 0, "AST")
           } else {
            Table::row(1081058400, -14400, 3600, "ADT")
           }
          } else {
           if i < 162 {
            Table::row(1099198800, -14400, 0, "AST")
           } else {
            Table::row(1112508000, -14400, 3600, "ADT")
           }
          }
         }
        } else {
         if i < 167 {
          if i < 165 {
           if i < 164 {
            Table::row(1130648400, -14400, 0, "AST")
           } else {
            Table::row(1143957600, -14400, 3600, "ADT")
           }
          } else {
           if i < 166 {
            Table::row(1162098000, -14400, 0, "AST")
           } else {
            Table::row(1173592800, -14400, 3600, "ADT")
           }
          }
         } else {
          if i < 169 {
           if i < 168 {
            Table::row(1194152400, -14400, 0, "AST")
           } else {
            Table::row(1205042400, -14400, 3600, "ADT")
           }
          } else {
           if i < 170 {
            Table::row(1225602000, -14400, 0, "AST")
           } else {
            Table::row(1236492000, -14400, 3600, "ADT")
           }
          }
         }
        }
       }
      }
     } else {
      if i < 199 {
       if i < 185 {
        if i < 178 {
         if i < 174 {
          if i < 172 {
           Table::row(1257051600, -14400, 0, "AST")
          } else {
           if i < 173 {
            Table::row(1268546400, -14400, 3600, "ADT")
           } else {
            Table::row(1289106000, -14400, 0, "AST")
           }
          }
         } else {
          if i < 176 {
           if i < 175 {
            Table::row(1299996000, -14400, 3600, "ADT")
           } else {
            Table::row(1320555600, -14400, 0, "AST")
           }
          } else {
           if i < 177 {
            Table::row(1331445600, -14400, 3600, "ADT")
           } else {
            Table::row(1352005200, -14400, 0, "AST")
           }
          }
         }
        } else {
         if i < 181 {
          if i < 179 {
           Table::row(1362895200, -14400, 3600, "ADT")
          } else {
           if i < 180 {
            Table::row(1383454800, -14400, 0, "AST")
           } else {
            Table::row(1394344800, -14400, 3600, "ADT")
           }
          }
         } else {
          if i < 183 {
           if i < 182 {
            Table::row(1414904400, -14400, 0, "AST")
           } else {
            Table::row(1425794400, -14400, 3600, "ADT")
           }
          } else {
           if i < 184 {
            Table::row(1446354000, -14400, 0, "AST")
           } else {
            Table::row(1457848800, -14400, 3600, "ADT")
           }
          }
         }
        }
       } else {
        if i < 192 {
         if i < 188 {
          if i < 186 {
           Table::row(1478408400, -14400, 0, "AST")
          } else {
           if i < 187 {
            Table::row(1489298400, -14400, 3600, "ADT")
           } else {
            Table::row(1509858000, -14400, 0, "AST")
           }
          }
         } else {
          if i < 190 {
           if i < 189 {
            Table::row(1520748000, -14400, 3600, "ADT")
           } else {
            Table::row(1541307600, -14400, 0, "AST")
           }
          } else {
           if i < 191 {
            Table::row(1552197600, -14400, 3600, "ADT")
           } else {
            Table::row(1572757200, -14400, 0, "AST")
           }
          }
         }
        } else {
         if i < 195 {
          if i < 193 {
           Table::row(1583647200, -14400, 3600, "ADT")
          } else {
           if i < 194 {
            Table::row(1604206800, -14400, 0, "AST")
           } else {
            Table::row(1615701600, -14400, 3600, "ADT")
           }
          }
         } else {
          if i < 197 {
           if i < 196 {
            Table::row(1636261200, -14400, 0, "AST")
           } else {
            Table::row(1647151200, -14400, 3600, "ADT")
           }
          } else {
           if i < 198 {
            Table::row(1667710800, -14400, 0, "AST")
           } else {
            Table::row(1678600800, -14400, 3600, "ADT")
           }
          }
         }
        }
       }
      } else {
       if i < 213 {
        if i < 206 {
         if i < 202 {
          if i < 200 {
           Table::row(1699160400, -14400, 0, "AST")
          } else {
           if i < 201 {
            Table::row(1710050400, -14400, 3600, "ADT")
           } else {
            Table::row(1730610000, -14400, 0, "AST")
           }
          }
         } else {
          if i < 204 {
           if i < 203 {
            Table::row(1741500000, -14400, 3600, "ADT")
           } else {
            Table::row(1762059600, -14400, 0, "AST")
           }
          } else {
           if i < 205 {
            Table::row(1772949600, -14400, 3600, "ADT")
           } else {
            Table::row(1793509200, -14400, 0, "AST")
           }
          }
         }
        } else {
         if i < 209 {
          if i < 207 {
           Table::row(1805004000, -14400, 3600, "ADT")
          } else {
           if i < 208 {
            Table::row(1825563600, -14400, 0, "AST")
           } else {
            Table::row(1836453600, -14400, 3600, "ADT")
           }
          }
         } else {
          if i < 211 {
           if i < 210 {
            Table::row(1857013200, -14400, 0, "AST")
           } else {
            Table::row(1867903200, -14400, 3600, "ADT")
           }
          } else {
           if i < 212 {
            Table::row(1888462800, -14400, 0, "AST")
           } else {
            Table::row(1899352800, -14400, 3600, "ADT")
           }
          }
         }
        }
       } else {
        if i < 220 {
         if i < 216 {
          if i < 214 {
           Table::row(1919912400, -14400, 0, "AST")
          } else {
           if i < 215 {
            Table::row(1930802400, -14400, 3600, "ADT")
           } else {
            Table::row(1951362000, -14400, 0, "AST")
           }
          }
         } else {
          if i < 218 {
           if i < 217 {
            Table::row(1962856800, -14400, 3600, "ADT")
           } else {
            Table::row(1983416400, -14400, 0, "AST")
           }
          } else {
           if i < 219 {
            Table::row(1994306400, -14400, 3600, "ADT")
           } else {
            Table::row(2014866000, -14400, 0, "AST")
           }
          }
         }
        } else {
         if i < 224 {
          if i < 222 {
           if i < 221 {
            Table::row(2025756000, -14400, 3600, "ADT")
           } else {
            Table::row(2046315600, -14400, 0, "AST")
           }
          } else {
           if i < 223 {
            Table::row(2057205600, -14400, 3600, "ADT")
           } else {
            Table::row(2077765200, -14400, 0, "AST")
           }
          }
         } else {
          if i < 226 {
           if i < 225 {
            Table::row(2088655200, -14400, 3600, "ADT")
           } else {
            Table::row(2109214800, -14400, 0, "AST")
           }
          } else {
           if i < 227 {
            Table::row(2120104800, -14400, 3600, "ADT")
           } else {
            Table::row(2140664400, -14400, 0, "AST")
           }
          }
         }
        }
       }
      }
     }
    }
}

/// The rows of the table of the zone `America/Halifax`.
pub open spec fn halifax_rows() -> spec_fn(int) -> (i64, FixedTimespan) {
    |i: int| halifax_row(i)
}

/// The table of the zone `America/Halifax`.
pub open spec fn halifax() -> Table {
    Table::listed(Table::row(0, -15264, 0, "LMT").1, 228, halifax_rows())
}

/// Row `i` of the table of the zone `America/Havana`.
pub open spec fn havana_row(i: int) -> (i64, FixedTimespan) {
    if i < 78 {
     if i < 39 {
      if i < 19 {
       if i < 9 {
        if i < 4 {
         if i < 2 {
          if i < 1 {
           Table::row(-2524501832, -19776, 0, "HMT")
          } else {
           Table::row(-1402813824, -18000, 0, "CST")
          }
         } else {
          if i < 3 {
           Table::row(-1311534000, -18000, 3600, "CDT")
          } else {
           Table::row(-1300996800, -18000, 0, "CST")
          }
         }
        } else {
         if i < 6 {
          if i < 5 {
           Table::row(-933534000, -18000, 3600, "CDT")
          } else {
           Table::row(-925675200, -18000, 0, "CST")
          }
         } else {
          if i < 7 {
           Table::row(-902084400, -18000, 3600, "CDT")
          } else {
           if i < 8 {
            Table::row(-893620800, -18000, 0, "CST")
           } else {
            Table::row(-870030000, -18000, 3600, "CDT")
           }
          }
         }
        }
       } else {
        if i < 14 {
         if i < 11 {
          if i < 10 {
           Table::row(-862171200, -18000, 0, "CST")
          } else {
           Table::row(-775681200, -18000, 3600, "CDT")
          }
         } else {
          if i < 12 {
           Table::row(-767822400, -18000, 0, "CST")
          } else {
           if i < 13 {
            Table::row(-744231600, -18000, 3600, "CDT")
           } else {
            Table::row(-736372800, -18000, 0, "CST")
           }
          }
         }
        } else {
         if i < 16 {
          if i < 15 {
           Table::row(-144702000, -18000, 3600, "CDT")
          } else {
           Table::row(-134251200, -18000, 0, "CST")
          }
         } else {
          if i < 17 {
           Table::row(-113425200, -18000, 3600, "CDT")
          } else {
           if i < 18 {
            Table::row(-102542400, -18000, 0, "CST")
           } else {
            Table::row(-86295600, -18000, 3600, "CDT")
           }
          }
         }
        }
       }
      } else {
       if i < 29 {
        if i < 24 {
         if i < 21 {
          if i < 20 {
           Table::row(-72907200, -18000, 0, "CST")
          } else {
           Table::row(-54154800, -18000, 3600, "CDT")
          }
         } else {
          if i < 22 {
           Table::row(-41457600, -18000, 0, "CST")
          } else {
           if i < 23 {
            Table::row(-21495600, -18000, 3600, "CDT")
           } else {
            Table::row(-5774400, -18000, 0, "CST")
           }
          }
         }
        } else {
         if i < 26 {
          if i < 25 {
           Table::row(9954000, -18000, 3600, "CDT")
          } else {
           Table::row(25675200, -18000, 0, "CST")
          }
         } else {
          if i < 27 {
           Table::row(41403600, -18000, 3600, "CDT")
          } else {
           if i < 28 {
            Table::row(57729600, -18000, 0, "CST")
           } else {
            Table::row(73458000, -18000, 3600, "CDT")
           }
          }
         }
        }
       } else {
        if i < 34 {
         if i < 31 {
          if i < 30 {
           Table::row(87364800, -18000, 0, "CST")
          } else {
           Table::row(104907600, -18000, 3600, "CDT")
          }
         } else {
          if i < 32 {
           Table::row(118900800, -18000, 0, "CST")
          } else {
           if i < 33 {
            Table::row(136357200, -18000, 3600, "CDT")
           } else {
            Table::row(150436800, -18000, 0, "CST")
           }
          }
         }
        } else {
         if i < 36 {
          if i < 35 {
           Table::row(167806800, -18000, 3600, "CDT")
          } else {
           Table::row(183528000, -18000, 0, "CST")
          }
         } else {
          if i < 37 {
           Table::row(199256400, -18000, 3600, "CDT")
          } else {
           if i < 38 {
            Table::row(215582400, -18000, 0, "CST")
           } else {
            Table::row(230706000, -18000, 3600, "CDT")
           }
          }
         }
        }
       }
      }
     } else {
      if i < 58 {
       if i < 48 {
        if i < 43 {
         if i < 41 {
          if i < 40 {
           Table::row(247032000, -18000, 0, "CST")
          } else {
           Table::row(263365200, -18000, 3600, "CDT")
          }
         } else {
          if i < 42 {
           Table::row(276667200, -18000, 0, "CST")
          } else {
           Table::row(290581200, -18000, 3600, "CDT")
          }
         }
        } else {
         if i < 45 {
          if i < 44 {
           Table::row(308721600, -18000, 0, "CST")
          } else {
           Table::row(322030800, -18000, 3600, "CDT")
          }
         } else {
          if i < 46 {
           Table::row(340171200, -18000, 0, "CST")
          } else {
           if i < 47 {
            Table::row(358318800, -18000, 3600, "CDT")
           } else {
            Table::row(371620800, -18000, 0, "CST")
           }
          }
         }
        }
       } else {
        if i < 53 {
         if i < 50 {
          if i < 49 {
           Table::row(389768400, -18000, 3600, "CDT")
          } else {
           Table::row(403070400, -18000, 0, "CST")
          }
         } else {
          if i < 51 {
           Table::row(421218000, -18000, 3600, "CDT")
          } else {
           if i < 52 {
            Table::row(434520000, -18000, 0, "CST")
           } else {
            Table::row(452667600, -18000, 3600, "CDT")
           }
          }
         }
        } else {
         if i < 55 {
          if i < 54 {
           Table::row(466574400, -18000, 0, "CST")
          } else {
           Table::row(484117200, -18000, 3600, "CDT")
          }
         } else {
          if i < 56 {
           Table::row(498024000, -18000, 0, "CST")
          } else {
           if i < 57 {
            Table::row(511333200, -18000, 3600, "CDT")
           } else {
            Table::row(529473600, -18000, 0, "CST")
           }
          }
         }
        }
       }
      } else {
       if i < 68 {
        if i < 63 {
         if i < 60 {
          if i < 59 {
           Table::row(542782800, -18000, 3600, "CDT")
          } else {
           Table::row(560923200, -18000, 0, "CST")
          }
         } else {
          if i < 61 {
           Table::row(574837200, -18000, 3600, "CDT")
          } else {
           if i < 62 {
            Table::row(592372800, -18000, 0, "CST")
           } else {
            Table::row(606286800, -18000, 3600, "CDT")
           }
          }
         }
        } else {
         if i < 65 {
          if i < 64 {
           Table::row(623822400, -18000, 0, "CST")
          } else {
           Table::row(638946000, -18000, 3600, "CDT")
          }
         } else {
          if i < 66 {
           Table::row(655876800, -18000, 0, "CST")
          } else {
           if i < 67 {
            Table::row(671000400, -18000, 3600, "CDT")
           } else {
            Table::row(687330000, -18000, 0, "CST")
           }
          }
         }
        }
       } else {
        if i < 73 {
         if i < 70 {
          if i < 69 {
           Table::row(702450000, -18000, 3600, "CDT")
          } else {
           Table::row(718779600, -18000, 0, "CST")
          }
         } else {
          if i < 71 {
           Table::row(733899600, -18000, 3600, "CDT")
          } else {
           if i < 72 {
            Table::row(750229200, -18000, 0, "CST")
           } else {
            Table::row(765349200, -18000, 3600, "CDT")
           }
          }
         }
        } else {
         if i < 75 {
          if i < 74 {
           Table::row(781678800, -18000, 0, "CST")
          } else {
           Table::row(796798800, -18000, 3600, "CDT")
          }
         } else {
          if i < 76 {
           Table::row(813128400, -18000, 0, "CST")
          } else {
           if i < 77 {
            Table::row(828853200, -18000, 3600, "CDT")
           } else {
            Table::row(844578000, -18000, 0, "CST")
           }
          }
         }
        }
       }
      }
     }
    } else {
     if i < 117 {
      if i < 97 {
       if i < 87 {
        if i < 82 {
         if i < 80 {
          if i < 79 {
           Table::row(860302800, -18000, 3600, "CDT")
          } else {
           Table::row(876632400, -18000, 0, "CST")
          }
         } else {
          if i < 81 {
           Table::row(891147600, -18000, 3600, "CDT")
          } else {
           Table::row(909291600, -18000, 0, "CST")
          }
         }
        } else {
         if i < 84 {
          if i < 83 {
           Table::row(922597200, -18000, 3600, "CDT")
          } else {
           Table::row(941346000, -18000, 0, "CST")
          }
         } else {
          if i < 85 {
           Table::row(954651600, -18000, 3600, "CDT")
          } else {
           if i < 86 {
            Table::row(972795600, -18000, 0, "CST")
           } else {
            Table::row(986101200, -18000, 3600, "CDT")
           }
          }
         }
        }
       } else {
        if i < 92 {
         if i < 89 {
          if i < 88 {
           Table::row(1004245200, -18000, 0, "CST")
          } else {
           Table::row(1018155600, -18000, 3600, "CDT")
          }
         } else {
          if i < 90 {
           Table::row(1035694800, -18000, 0, "CST")
          } else {
           if i < 91 {
            Table::row(1049605200, -18000, 3600, "CDT")
           } else {
            Table::row(1067144400, -18000, 0, "CST")
           }
          }
         }
        } else {
         if i < 94 {
          if i < 93 {
           Table::row(1080450000, -18000, 3600, "CDT")
          } else {
           Table::row(1162098000, -18000, 0, "CST")
          }
         } else {
          if i < 95 {
           Table::row(1173589200, -18000, 3600, "CDT")
          } else {
           if i < 96 {
            Table::row(1193547600, -18000, 0, "CST")
           } else {
            Table::row(1205643600, -18000, 3600, "CDT")
           }
          }
         }
        }
       }
      } else {
       if i < 107 {
        if i < 102 {
         if i < 99 {
          if i < 98 {
           Table::row(1224997200, -18000, 0, "CST")
          } else {
           Table::row(1236488400, -18000, 3600, "CDT")
          }
         } else {
          if i < 100 {
           Table::row(1256446800, -18000, 0, "CST")
          } else {
           if i < 101 {
            Table::row(1268542800, -18000, 3600, "CDT")
           } else {
            Table::row(1288501200, -18000, 0, "CST")
           }
          }
         }
        } else {
         if i < 104 {
          if i < 103 {
           Table::row(1300597200, -18000, 3600, "CDT")
          } else {
           Table::row(1321160400, -18000, 0, "CST")
          }
         } else {
          if i < 105 {
           Table::row(1333256400, -18000, 3600, "CDT")
          } else {
           if i < 106 {
            Table::row(1352005200, -18000, 0, "CST")
           } else {
            Table::row(1362891600, -18000, 3600, "CDT")
           }
          }
         }
        }
       } else {
        if i < 112 {
         if i < 109 {
          if i < 108 {
           Table::row(1383454800, -18000, 0, "CST")
          } else {
           Table::row(1394341200, -18000, 3600, "CDT")
          }
         } else {
          if i < 110 {
           Table::row(1414904400, -18000, 0, "CST")
          } else {
           if i < 111 {
            Table::row(1425790800, -18000, 3600, "CDT")
           } else {
            Table::row(1446354000, -18000, 0, "CST")
           }
          }
         }
        } else {
         if i < 114 {
          if i < 113 {
           Table::row(1457845200, -18000, 3600, "CDT")
          } else {
           Table::row(1478408400, -18000, 0, "CST")
          }
         } else {
          if i < 115 {
           Table::row(1489294800, -18000, 3600, "CDT")
          } else {
           if i < 116 {
            Table::row(1509858000, -18000, 0, "CST")
           } else {
            Table::row(1520744400, -18000, 3600, "CDT")
           }
          }
         }
        }
       }
      }
     } else {
      if i < 136 {
       if i < 126 {
        if i < 121 {
         if i < 119 {
          if i < 118 {
           Table::row(1541307600, -18000, 0, "CST")
          } else {
           Table::row(1552194000, -18000, 3600, "CDT")
          }
         } else {
          if i < 120 {
           Table::row(1572757200, -18000, 0, "CST")
          } else {
           Table::row(1583643600, -18000, 3600, "CDT")
          }
         }
        } else {
         if i < 123 {
          if i < 122 {
           Table::row(1604206800, -18000, 0, "CST")
          } else {
           Table::row(1615698000, -18000, 3600, "CDT")
          }
         } else {
          if i < 124 {
           Table::row(1636261200, -18000, 0, "CST")
          } else {
           if i < 125 {
            Table::row(1647147600, -18000, 3600, "CDT")
           } else {
            Table::row(1667710800, -18000, 0, "CST")
           }
          }
         }
        }
       } else {
        if i < 131 {
         if i < 128 {
          if i < 127 {
           Table::row(1678597200, -18000, 3600, "CDT")
          } else {
           Table::row(1699160400, -18000, 0, "CST")
          }
         } else {
          if i < 129 {
           Table::row(1710046800, -18000, 3600, "CDT")
          } else {
           if i < 130 {
            Table::row(1730610000, -18000, 0, "CST")
           } else {
            Table::row(1741496400, -18000, 3600, "CDT")
           }
          }
         }
        } else {
         if i < 133 {
          if i < 132 {
           Table::row(1762059600, -18000, 0, "CST")
          } else {
           Table::row(1772946000, -18000, 3600, "CDT")
          }
         } else {
          if i < 134 {
           Table::row(1793509200, -18000, 0, "CST")
          } else {
           if i < 135 {
            Table::row(1805000400, -18000, 3600, "CDT")
           } else {
            Table::row(1825563600, -18000, 0, "CST")
           }
          }
         }
        }
       }
      } else {
       if i < 146 {
        if i < 141 {
         if i < 138 {
          if i < 137 {
           Table::row(1836450000, -18000, 3600, "CDT")
          } else {
           Table::row(1857013200, -18000, 0, "CST")
          }
         } else {
          if i < 139 {
           Table::row(1867899600, -18000, 3600, "CDT")
          } else {
           if i < 140 {
            Table::row(1888462800, -18000, 0, "CST")
           } else {
            Table::row(1899349200, -18000, 3600, "CDT")
           }
          }
         }
        } else {
         if i < 143 {
          if i < 142 {
           Table::row(1919912400, -18000, 0, "CST")
          } else {
           Table::row(1930798800, -18000, 3600, "CDT")
          }
         } else {
          if i < 144 {
           Table::row(1951362000, -18000, 0, "CST")
          } else {
           if i < 145 {
            Table::row(1962853200, -18000, 3600, "CDT")
           } else {
            Table::row(1983416400, -18000, 0, "CST")
           }
          }
         }
        }
       } else {
        if i < 151 {
         if i < 148 {
          if i < 147 {
           Table::row(1994302800, -18000, 3600, "CDT")
          } else {
           Table::row(2014866000, -18000, 0, "CST")
          }
         } else {
          if i < 149 {
           Table::row(2025752400, -18000, 3600, "CDT")
          } else {
           if i < 150 {
            Table::row(2046315600, -18000, 0, "CST")
           } else {
            Table::row(2057202000, -18000, 3600, "CDT")
           }
          }
         }
        } else {
         if i < 153 {
          if i < 152 {
           Table::row(2077765200, -18000, 0, "CST")
          } else {
           Table::row(2088651600, -18000, 3600, "CDT")
          }
         } else {
          if i < 154 {
           Table::row(2109214800, -18000, 0, "CST")
          } else {
           if i < 155 {
            Table::row(2120101200, -18000, 3600, "CDT")
           } else {
            Table::row(2140664400, -18000, 0, "CST")
           }
          }
         }
        }
       }
      }
     }
    }
}

/// The rows of the table of the zone `America/Havana`.
pub open spec fn havana_rows() -> spec_fn(int) -> (i64, FixedTimespan) {
    |i: int| havana_row(i)
}

/// The table of the zone `America/Havana`.
pub open spec fn havana() -> Table {
    Table::listed(Table::row(0, -19768, 0, "LMT").1, 156, havana_rows())
}

/// Row `i` of the table of the zone `America/Hermosillo`.
pub open spec fn hermosillo_row(i: int) -> (i64, FixedTimespan) {
    if i < 6 {
     if i < 3 {
      if i < 1 {
       Table::row(-1514739600, -25200, 0, "MST")
      } else {
       if i < 2 {
        Table::row(-1343149200, -21600, 0, "CST")
       } else {
        Table::row(-1234807200, -25200, 0, "MST")
       }
      }
     } else {
      if i < 4 {
       Table::row(-1220461200, -25200, 3600, "MDT")
      } else {
       if i < 5 {
        Table::row(-1207159200, -25200, 0, "MST")
       } else {
        Table::row(-1191344400, -21600, 0, "CST")
       }
      }
     }
    } else {
     if i < 9 {
      if i < 7 {
       Table::row(-873828000, -25200, 0, "MST")
      } else {
       if i < 8 {
        Table::row(828867600, -25200, 3600, "MDT")
       } else {
        Table::row(846403200, -25200, 0, "MST")
       }
      }
     } else {
      if i < 11 {
       if i < 10 {
        Table::row(860317200, -25200, 3600, "MDT")
       } else {
        Table::row(877852800, -25200, 0, "MST")
       }
      } else {
       if i < 12 {
        Table::row(891766800, -25200, 3600, "MDT")
       } else {
        Table::row(909302400, -25200, 0, "MST")
       }
      }
     }
    }
}

/// The rows of the table of the zone `America/Hermosillo`.
pub open spec fn hermosillo_rows() -> spec_fn(int) -> (i64, FixedTimespan) {
    |i: int| hermosillo_row(i)
}

/// The table of the zone `America/Hermosillo`.
pub open spec fn hermosillo() -> Table {
    Table::listed(Table::row(0, -26632, 0, "LMT").1, 13, hermosillo_rows())
}

/// Row `i` of the table of the zone `America/Indiana/Indianapolis`.
pub open spec fn indiana_indianapolis_row(i: int) -> (i64, FixedTimespan) {
    if i < 49 {
     if i < 24 {
      if i < 12 {
       if i < 6 {
        if i < 3 {
         if i < 1 {
          Table::row(-2717647200, -21600, 0, "CST")
         } else {
          if i < 2 {
           Table::row(-1633276800, -21600, 3600, "CDT")
          } else {
           Table::row(-1615136400, -21600, 0, "CST")
          }
         }
        } else {
         if i < 4 {
          Table::row(-1601827200, -21600, 3600, "CDT")
         } else {
          if i < 5 {
           Table::row(-1583686800, -21600, 0, "CST")
          } else {
           Table::row(-900259200, -21600, 3600, "CDT")
          }
         }
        }
       } else {
        if i < 9 {
         if i < 7 {
          Table::row(-891795600, -21600, 0, "CST")
         } else {
          if i < 8 {
           Table::row(-880214400, -21600, 3600, "CWT")
          } else {
           Table::row(-769395600, -21600, 3600, "CPT")
          }
         }
        } else {
         if i < 10 {
          Table::row(-765392400, -21600, 0, "CST")
         } else {
          if i < 11 {
           Table::row(-747244800, -21600, 3600, "CDT")
          } else {
           Table::row(-733942800, -21600, 0, "CST")
          }
         }
        }
       }
      } else {
       if i < 18 {
        if i < 15 {
         if i < 13 {
          Table::row(-715795200, -21600, 3600, "CDT")
         } else {
          if i < 14 {
           Table::row(-702493200, -21600, 0, "CST")
          } else {
           Table::row(-684345600, -21600, 3600, "CDT")
          }
         }
        } else {
         if i < 16 {
          Table::row(-671043600, -21600, 0, "CST")
         } else {
          if i < 17 {
           Table::row(-652896000, -21600, 3600, "CDT")
          } else {
           Table::row(-639594000, -21600, 0, "CST")
          }
         }
        }
       } else {
        if i < 21 {
         if i < 19 {
          Table::row(-620841600, -21600, 3600, "CDT")
         } else {
          if i < 20 {
           Table::row(-608144400, -21600, 0, "CST")
          } else {
           Table::row(-589392000, -21600, 3600, "CDT")
          }
         }
        } else {
         if i < 22 {
          Table::row(-576090000, -21600, 0, "CST")
         } else {
          if i < 23 {
           Table::row(-557942400, -21600, 3600, "CDT")
          } else {
           Table::row(-544640400, -21600, 0, "CST")
          }
         }
        }
       }
      }
     } else {
      if i < 36 {
       if i < 30 {
        if i < 27 {
         if i < 25 {
          Table::row(-526492800, -21600, 3600, "CDT")
         } else {
          if i < 26 {
           Table::row(-513190800, -21600, 0, "CST")
          } else {
           Table::row(-495043200, -21600, 3600, "CDT")
          }
         }
        } else {
         if i < 28 {
          Table::row(-481741200, -21600, 0, "CST")
         } else {
          if i < 29 {
           Table::row(-463593600, -18000, 0, "EST")
          } else {
           Table::row(-386787600, -21600, 0, "CST")
          }
         }
        }
       } else {
        if i < 33 {
         if i < 31 {
          Table::row(-368640000, -18000, 0, "EST")
         } else {
          if i < 32 {
           Table::row(-21488400, -18000, 3600, "EDT")
          } else {
           Table::row(-5767200, -18000, 0, "EST")
          }
         }
        } else {
         if i < 34 {
          Table::row(9961200, -18000, 3600, "EDT")
         } else {
          if i < 35 {
           Table::row(25682400, -18000, 0, "EST")
          } else {
           Table::row(1143961200, -18000, 3600, "EDT")
          }
         }
        }
       }
      } else {
       if i < 42 {
        if i < 39 {
         if i < 37 {
          Table::row(1162101600, -18000, 0, "EST")
         } else {
          if i < 38 {
           Table::row(1173596400, -18000, 3600, "EDT")
          } else {
           Table::row(1194156000, -18000, 0, "EST")
          }
         }
        } else {
         if i < 40 {
          Table::row(1205046000, -18000, 3600, "EDT")
         } else {
          if i < 41 {
           Table::row(1225605600, -18000, 0, "EST")
          } else {
           Table::row(1236495600, -18000, 3600, "EDT")
          }
         }
        }
       } else {
        if i < 45 {
         if i < 43 {
          Table::row(1257055200, -18000, 0, "EST")
         } else {
          if i < 44 {
           Table::row(1268550000, -18000, 3600, "EDT")
          } else {
           Table::row(1289109600, -18000, 0, "EST")
          }
         }
        } else {
         if i < 47 {
          if i < 46 {
           Table::row(1299999600, -18000, 3600, "EDT")
          } else {
           Table::row(1320559200, -18000, 0, "EST")
          }
         } else {
          if i < 48 {
           Table::row(1331449200, -18000, 3600, "EDT")
          } else {
           Table::row(1352008800, -18000, 0, "EST")
          }
         }
        }
       }
      }
     }
    } else {
     if i < 74 {
      if i < 61 {
       if i < 55 {
        if i < 52 {
         if i < 50 {
          Table::row(1362898800, -18000, 3600, "EDT")
         } else {
          if i < 51 {
           Table::row(1383458400, -18000, 0, "EST")
          } else {
           Table::row(1394348400, -18000, 3600, "EDT")
          }
         }
        } else {
         if i < 53 {
          Table::row(1414908000, -18000, 0, "EST")
         } else {
          if i < 54 {
           Table::row(1425798000, -18000, 3600, "EDT")
          } else {
           Table::row(1446357600, -18000, 0, "EST")
          }
         }
        }
       } else {
        if i < 58 {
         if i < 56 {
          Table::row(1457852400, -18000, 3600, "EDT")
         } else {
          if i < 57 {
           Table::row(1478412000, -18000, 0, "EST")
          } else {
           Table::row(1489302000, -18000, 3600, "EDT")
          }
         }
        } else {
         if i < 59 {
          Table::row(1509861600, -18000, 0, "EST")
         } else {
          if i < 60 {
           Table::row(1520751600, -18000, 3600, "EDT")
          } else {
           Table::row(1541311200, -18000, 0, "EST")
          }
         }
        }
       }
      } else {
       if i < 67 {
        if i < 64 {
         if i < 62 {
          Table::row(1552201200, -18000, 3600, "EDT")
         } else {
          if i < 63 {
           Table::row(1572760800, -18000, 0, "EST")
          } else {
           Table::row(1583650800, -18000, 3600, "EDT")
          }
         }
        } else {
         if i < 65 {
          Table::row(1604210400, -18000, 0, "EST")
         } else {
          if i < 66 {
           Table::row(1615705200, -18000, 3600, "EDT")
          } else {
           Table::row(1636264800, -18000, 0, "EST")
          }
         }
        }
       } else {
        if i < 70 {
         if i < 68 {
          Table::row(1647154800, -18000, 3600, "EDT")
         } else {
          if i < 69 {
           Table::row(1667714400, -18000, 0, "EST")
          } else {
           Table::row(1678604400, -18000, 3600, "EDT")
          }
         }
        } else {
         if i < 72 {
          if i < 71 {
           Table::row(1699164000, -18000, 0, "EST")
          } else {
           Table::row(1710054000, -18000, 3600, "EDT")
          }
         } else {
          if i < 73 {
           Table::row(1730613600, -18000, 0, "EST")
          } else {
           Table::row(1741503600, -18000, 3600, "EDT")
          }
         }
        }
       }
      }
     } else {
      if i < 86 {
       if i < 80 {
        if i < 77 {
         if i < 75 {
          Table::row(1762063200, -18000, 0, "EST")
         } else {
          if i < 76 {
           Table::row(1772953200, -18000, 3600, "EDT")
          } else {
           Table::row(1793512800, -18000, 0, "EST")
          }
         }
        } else {
         if i < 78 {
          Table::row(1805007600, -18000, 3600, "EDT")
         } else {
          if i < 79 {
           Table::row(1825567200, -18000, 0, "EST")
          } else {
           Table::row(1836457200, -18000, 3600, "EDT")
          }
         }
        }
       } else {
        if i < 83 {
         if i < 81 {
          Table::row(1857016800, -18000, 0, "EST")
         } else {
          if i < 82 {
           Table::row(1867906800, -18000, 3600, "EDT")
          } else {
           Table::row(1888466400, -18000, 0, "EST")
          }
         }
        } else {
         if i < 84 {
          Table::row(1899356400, -18000, 3600, "EDT")
         } else {
          if i < 85 {
           Table::row(1919916000, -18000, 0, "EST")
          } else {
           Table::row(1930806000, -18000, 3600, "EDT")
          }
         }
        }
       }
      } else {
       if i < 92 {
        if i < 89 {
         if i < 87 {
          Table::row(1951365600, -18000, 0, "EST")
         } else {
          if i < 88 {
           Table::row(1962860400, -18000, 3600, "EDT")
          } else {
           Table::row(1983420000, -18000, 0, "EST")
          }
         }
        } else {
         if i < 90 {
          Table::row(1994310000, -18000, 3600, "EDT")
         } else {
          if i < 91 {
           Table::row(2014869600, -18000, 0, "EST")
          } else {
           Table::row(2025759600, -18000, 3600, "EDT")
          }
         }
        }
       } else {
        if i < 95 {
         if i < 93 {
          Table::row(2046319200, -18000, 0, "EST")
         } else {
          if i < 94 {
           Table::row(2057209200, -18000, 3600, "EDT")
          } else {
           Table::row(2077768800, -18000, 0, "EST")
          }
         }
        } else {
         if i < 97 {
          if i < 96 {
           Table::row(2088658800, -18000, 3600, "EDT")
          } else {
           Table::row(2109218400, -18000, 0, "EST")
          }
         } else {
          if i < 98 {
           Table::row(2120108400, -18000, 3600, "EDT")
          } else {
           Table::row(2140668000, -18000, 0, "EST")
          }
         }
        }
       }
      }
     }
    }
}

/// The rows of the table of the zone `America/Indiana/Indianapolis`.
pub open spec fn indiana_indianapolis_rows() -> spec_fn(int) -> (i64, FixedTimespan) {
    |i: int| indiana_indianapolis_row(i)
}

/// The table of the zone `America/Indiana/Indianapolis`.
pub open spec fn indiana_indianapolis() -> Table {
    Table::listed(Table::row(0, -20678, 0, "LMT").1, 99, indiana_indianapolis_rows())
}

/// Row `i` of the table of the zone `America/Indiana/Knox`.
pub open spec fn indiana_knox_row(i: int) -> (i64, FixedTimespan) {
    if i < 77 {
     if i < 38 {
      if i < 19 {
       if i < 9 {
        if i < 4 {
         if i < 2 {
          if i < 1 {
           Table::row(-2717647200, -21600, 0, "CST")
          } else {
           Table::row(-1633276800, -21600, 3600, "CDT")
          }
         } else {
          if i < 3 {
           Table::row(-1615136400, -21600, 0, "CST")
          } else {
           Table::row(-1601827200, -21600, 3600, "CDT")
          }
         }
        } else {
         if i < 6 {
          if i < 5 {
           Table::row(-1583686800, -21600, 0, "CST")
          } else {
           Table::row(-880214400, -21600, 3600, "CWT")
          }
         } else {
          if i < 7 {
           Table::row(-769395600, -21600, 3600, "CPT")
          } else {
           if i < 8 {
            Table::row(-765392400, -21600, 0, "CST")
           } else {
            Table::row(-715795200, -21600, 3600, "CDT")
           }
          }
         }
        }
       } else {
        if i < 14 {
         if i < 11 {
          if i < 10 {
           Table::row(-702493200, -21600, 0, "CST")
          } else {
           Table::row(-684345600, -21600, 3600, "CDT")
          }
         } else {
          if i < 12 {
           Table::row(-671043600, -21600, 0, "CST")
          } else {
           if i < 13 {
            Table::row(-652896000, -21600, 3600, "CDT")
           } else {
            Table::row(-639594000, -21600, 0, "CST")
           }
          }
         }
        } else {
         if i < 16 {
          if i < 15 {
           Table::row(-620841600, -21600, 3600, "CDT")
          } else {
           Table::row(-608144400, -21600, 0, "CST")
          }
         } else {
          if i < 17 {
           Table::row(-589392000, -21600, 3600, "CDT")
          } else {
           if i < 18 {
            Table::row(-576090000, -21600, 0, "CST")
           } else {
            Table::row(-557942400, -21600, 3600, "CDT")
           }
          }
         }
        }
       }
      } else {
       if i < 28 {
        if i < 23 {
         if i < 21 {
          if i < 20 {
           Table::row(-544640400, -21600, 0, "CST")
          } else {
           Table::row(-526492800, -21600, 3600, "CDT")
          }
         } else {
          if i < 22 {
           Table::row(-513190800, -21600, 0, "CST")
          } else {
           Table::row(-495043200, -21600, 3600, "CDT")
          }
         }
        } else {
         if i < 25 {
          if i < 24 {
           Table::row(-481741200, -21600, 0, "CST")
          } else {
           Table::row(-463593600, -21600, 3600, "CDT")
          }
         } else {
          if i < 26 {
           Table::row(-447267600, -21600, 0, "CST")
          } else {
           if i < 27 {
            Table::row(-431539200, -21600, 3600, "CDT")
           } else {
            Table::row(-415818000, -21600, 0, "CST")
           }
          }
         }
        }
       } else {
        if i < 33 {
         if i < 30 {
          if i < 29 {
           Table::row(-400089600, -21600, 3600, "CDT")
          } else {
           Table::row(-386787600, -21600, 0, "CST")
          }
         } else {
          if i < 31 {
           Table::row(-368640000, -21600, 3600, "CDT")
          } else {
           if i < 32 {
            Table::row(-355338000, -21600, 0, "CST")
           } else {
            Table::row(-337190400, -21600, 3600, "CDT")
           }
          }
         }
        } else {
         if i < 35 {
          if i < 34 {
           Table::row(-321469200, -21600, 0, "CST")
          } else {
           Table::row(-305740800, -21600, 3600, "CDT")
          }
         } else {
          if i < 36 {
           Table::row(-289414800, -21600, 0, "CST")
          } else {
           if i < 37 {
            Table::row(-273686400, -21600, 3600, "CDT")
           } else {
            Table::row(-257965200, -21600, 0, "CST")
           }
          }
         }
        }
       }
      }
     } else {
      if i < 57 {
       if i < 47 {
        if i < 42 {
         if i < 40 {
          if i < 39 {
           Table::row(-242236800, -18000, 0, "EST")
          } else {
           Table::row(-195066000, -21600, 0, "CST")
          }
         } else {
          if i < 41 {
           Table::row(-84384000, -21600, 3600, "CDT")
          } else {
           Table::row(-68662800, -21600, 0, "CST")
          }
         }
        } else {
         if i < 44 {
          if i < 43 {
           Table::row(-52934400, -21600, 3600, "CDT")
          } else {
           Table::row(-37213200, -21600, 0, "CST")
          }
         } else {
          if i < 45 {
           Table::row(-21484800, -21600, 3600, "CDT")
          } else {
           if i < 46 {
            Table::row(-5763600, -21600, 0, "CST")
           } else {
            Table::row(9964800, -21600, 3600, "CDT")
           }
          }
         }
        }
       } else {
        if i < 52 {
         if i < 49 {
          if i < 48 {
           Table::row(25686000, -21600, 0, "CST")
          } else {
           Table::row(41414400, -21600, 3600, "CDT")
          }
         } else {
          if i < 50 {
           Table::row(57740400, -21600, 0, "CST")
          } else {
           if i < 51 {
            Table::row(73468800, -21600, 3600, "CDT")
           } else {
            Table::row(89190000, -21600, 0, "CST")
           }
          }
         }
        } else {
         if i < 54 {
          if i < 53 {
           Table::row(104918400, -21600, 3600, "CDT")
          } else {
           Table::row(120639600, -21600, 0, "CST")
          }
         } else {
          if i < 55 {
           Table::row(126691200, -21600, 3600, "CDT")
          } else {
           if i < 56 {
            Table::row(152089200, -21600, 0, "CST")
           } else {
            Table::row(162374400, -21600, 3600, "CDT")
           }
          }
         }
        }
       }
      } else {
       if i < 67 {
        if i < 62 {
         if i < 59 {
          if i < 58 {
           Table::row(183538800, -21600, 0, "CST")
          } else {
           Table::row(199267200, -21600, 3600, "CDT")
          }
         } else {
          if i < 60 {
           Table::row(215593200, -21600, 0, "CST")
          } else {
           if i < 61 {
            Table::row(230716800, -21600, 3600, "CDT")
           } else {
            Table::row(247042800, -21600, 0, "CST")
           }
          }
         }
        } else {
         if i < 64 {
          if i < 63 {
           Table::row(262771200, -21600, 3600, "CDT")
          } else {
           Table::row(278492400, -21600, 0, "CST")
          }
         } else {
          if i < 65 {
           Table::row(294220800, -21600, 3600, "CDT")
          } else {
           if i < 66 {
            Table::row(309942000, -21600, 0, "CST")
           } else {
            Table::row(325670400, -21600, 3600, "CDT")
           }
          }
         }
        }
       } else {
        if i < 72 {
         if i < 69 {
          if i < 68 {
           Table::row(341391600, -21600, 0, "CST")
          } else {
           Table::row(357120000, -21600, 3600, "CDT")
          }
         } else {
          if i < 70 {
           Table::row(372841200, -21600, 0, "CST")
          } else {
           if i < 71 {
            Table::row(388569600, -21600, 3600, "CDT")
           } else {
            Table::row(404895600, -21600, 0, "CST")
           }
          }
         }
        } else {
         if i < 74 {
          if i < 73 {
           Table::row(420019200, -21600, 3600, "CDT")
          } else {
           Table::row(436345200, -21600, 0, "CST")
          }
         } else {
          if i < 75 {
           Table::row(452073600, -21600, 3600, "CDT")
          } else {
           if i < 76 {
            Table::row(467794800, -21600, 0, "CST")
           } else {
            Table::row(483523200, -21600, 3600, "CDT")
           }
          }
         }
        }
       }
      }
     }
    } else {
     if i < 115 {
      if i < 96 {
       if i < 86 {
        if i < 81 {
         if i < 79 {
          if i < 78 {
           Table::row(499244400, -21600, 0, "CST")
          } else {
           Table::row(514972800, -21600, 3600, "CDT")
          }
         } else {
          if i < 80 {
           Table::row(530694000, -21600, 0, "CST")
          } else {
           Table::row(544608000, -21600, 3600, "CDT")
          }
         }
        } else {
         if i < 83 {
          if i < 82 {
           Table::row(562143600, -21600, 0, "CST")
          } else {
           Table::row(576057600, -21600, 3600, "CDT")
          }
         } else {
          if i < 84 {
           Table::row(594198000, -21600, 0, "CST")
          } else {
           if i < 85 {
            Table::row(607507200, -21600, 3600, "CDT")
           } else {
            Table::row(625647600, -21600, 0, "CST")
           }
          }
         }
        }
       } else {
        if i < 91 {
         if i < 88 {
          if i < 87 {
           Table::row(638956800, -21600, 3600, "CDT")
          } else {
           Table::row(657097200, -21600, 0, "CST")
          }
         } else {
          if i < 89 {
           Table::row(671011200, -21600, 3600, "CDT")
          } else {
           if i < 90 {
            Table::row(688546800, -18000, 0, "EST")
           } else {
            Table::row(1143961200, -21600, 3600, "CDT")
           }
          }
         }
        } else {
         if i < 93 {
          if i < 92 {
           Table::row(1162105200, -21600, 0, "CST")
          } else {
           Table::row(1173600000, -21600, 3600, "CDT")
          }
         } else {
          if i < 94 {
           Table::row(1194159600, -21600, 0, "CST")
          } else {
           if i < 95 {
            Table::row(1205049600, -21600, 3600, "CDT")
           } else {
            Table::row(1225609200, -21600, 0, "CST")
           }
          }
         }
        }
       }
      } else {
       if i < 105 {
        if i < 100 {
         if i < 98 {
          if i < 97 {
           Table::row(1236499200, -21600, 3600, "CDT")
          } else {
           Table::row(1257058800, -21600, 0, "CST")
          }
         } else {
          if i < 99 {
           Table::row(1268553600, -21600, 3600, "CDT")
          } else {
           Table::row(1289113200, -21600, 0, "CST")
          }
         }
        } else {
         if i < 102 {
          if i < 101 {
           Table::row(1300003200, -21600, 3600, "CDT")
          } else {
           Table::row(1320562800, -21600, 0, "CST")
          }
         } else {
          if i < 103 {
           Table::row(1331452800, -21600, 3600, "CDT")
          } else {
           if i < 104 {
            Table::row(1352012400, -21600, 0, "CST")
           } else {
            Table::row(1362902400, -21600, 3600, "CDT")
           }
          }
         }
        }
       } else {
        if i < 110 {
         if i < 107 {
          if i < 106 {
           Table::row(1383462000, -21600, 0, "CST")
          } else {
           Table::row(1394352000, -21600, 3600, "CDT")
          }
         } else {
          if i < 108 {
           Table::row(1414911600, -21600, 0, "CST")
          } else {
           if i < 109 {
            Table::row(1425801600, -21600, 3600, "CDT")
           } else {
            Table::row(1446361200, -21600, 0, "CST")
           }
          }
         }
        } else {
         if i < 112 {
          if i < 111 {
           Table::row(1457856000, -21600, 3600, "CDT")
          } else {
           Table::row(1478415600, -21600, 0, "CST")
          }
         } else {
          if i < 113 {
           Table::row(1489305600, -21600, 3600, "CDT")
          } else {
           if i < 114 {
            Table::row(1509865200, -21600, 0, "CST")
           } else {
            Table::row(1520755200, -21600, 3600, "CDT")
           }
          }
         }
        }
       }
      }
     } else {
      if i < 134 {
       if i < 124 {
        if i < 119 {
         if i < 117 {
          if i < 116 {
           Table::row(1541314800, -21600, 0, "CST")
          } else {
           Table::row(1552204800, -21600, 3600, "CDT")
          }
         } else {
          if i < 118 {
           Table::row(1572764400, -21600, 0, "CST")
          } else {
           Table::row(1583654400, -21600, 3600, "CDT")
          }
         }
        } else {
         if i < 121 {
          if i < 120 {
           Table::row(1604214000, -21600, 0, "CST")
          } else {
           Table::row(1615708800, -21600, 3600, "CDT")
          }
         } else {
          if i < 122 {
           Table::row(1636268400, -21600, 0, "CST")
          } else {
           if i < 123 {
            Table::row(1647158400, -21600, 3600, "CDT")
           } else {
            Table::row(1667718000, -21600, 0, "CST")
           }
          }
         }
        }
       } else {
        if i < 129 {
         if i < 126 {
          if i < 125 {
           Table::row(1678608000, -21600, 3600, "CDT")
          } else {
           Table::row(1699167600, -21600, 0, "CST")
          }
         } else {
          if i < 127 {
           Table::row(1710057600, -21600, 3600, "CDT")
          } else {
           if i < 128 {
            Table::row(1730617200, -21600, 0, "CST")
           } else {
            Table::row(1741507200, -21600, 3600, "CDT")
           }
          }
         }
        } else {
         if i < 131 {
          if i < 130 {
           Table::row(1762066800, -21600, 0, "CST")
          } else {
           Table::row(1772956800, -21600, 3600, "CDT")
          }
         } else {
          if i < 132 {
           Table::row(1793516400, -21600, 0, "CST")
          } else {
           if i < 133 {
            Table::row(1805011200, -21600, 3600, "CDT")
           } else {
            Table::row(1825570800, -21600, 0, "CST")
           }
          }
         }
        }
       }
      } else {
       if i < 144 {
        if i < 139 {
         if i < 136 {
          if i < 135 {
           Table::row(1836460800, -21600, 3600, "CDT")
          } else {
           Table::row(1857020400, -21600, 0, "CST")
          }
         } else {
          if i < 137 {
           Table::row(1867910400, -21600, 3600, "CDT")
          } else {
           if i < 138 {
            Table::row(1888470000, -21600, 0, "CST")
           } else {
            Table::row(1899360000, -21600, 3600, "CDT")
           }
          }
         }
        } else {
         if i < 141 {
          if i < 140 {
           Table::row(1919919600, -21600, 0, "CST")
          } else {
           Table::row(1930809600, -21600, 3600, "CDT")
          }
         } else {
          if i < 142 {
           Table::row(1951369200, -21600, 0, "CST")
          } else {
           if i < 143 {
            Table::row(1962864000, -21600, 3600, "CDT")
           } else {
            Table::row(1983423600, -21600, 0, "CST")
           }
          }
         }
        }
       } else {
        if i < 149 {
         if i < 146 {
          if i < 145 {
           Table::row(1994313600, -21600, 3600, "CDT")
          } else {
           Table::row(2014873200, -21600, 0, "CST")
          }
         } else {
          if i < 147 {
           Table::row(2025763200, -21600, 3600, "CDT")
          } else {
           if i < 148 {
            Table::row(2046322800, -21600, 0, "CST")
           } else {
            Table::row(2057212800, -21600, 3600, "CDT")
           }
          }
         }
        } else {
         if i < 151 {
          if i < 150 {
           Table::row(2077772400, -21600, 0, "CST")
          } else {
           Table::row(2088662400, -21600, 3600, "CDT")
          }
         } else {
          if i < 152 {
           Table::row(2109222000, -21600, 0, "CST")
          } else {
           if i < 153 {
            Table::row(2120112000, -21600, 3600, "CDT")
           } else {
            Table::row(2140671600, -21600, 0, "CST")
           }
          }
         }
        }
       }
      }
     }
    }
}

/// The rows of the table of the zone `America/Indiana/Knox`.
pub open spec fn indiana_knox_rows() -> spec_fn(int) -> (i64, FixedTimespan) {
    |i: int| indiana_knox_row(i)
}

/// The table of the zone `America/Indiana/Knox`.
pub open spec fn indiana_knox() -> Table {
    Table::listed(Table::row(0, -20790, 0, "LMT").1, 154, indiana_knox_rows())
}

/// Row `i` of the table of the zone `America/Indiana/Marengo`.
pub open spec fn indiana_marengo_row(i: int) -> (i64, FixedTimespan) {
    if i < 51 {
     if i < 25 {
      if i < 12 {
       if i < 6 {
        if i < 3 {
         if i < 1 {
          Table::row(-2717647200, -21600, 0, "CST")
         } else {
          if i < 2 {
           Table::row(-1633276800, -21600, 3600, "CDT")
          } else {
           Table::row(-1615136400, -21600, 0, "CST")
          }
         }
        } else {
         if i < 4 {
          Table::row(-1601827200, -21600, 3600, "CDT")
         } else {
          if i < 5 {
           Table::row(-1583686800, -21600, 0, "CST")
          } else {
           Table::row(-880214400, -21600, 3600, "CWT")
          }
         }
        }
       } else {
        if i < 9 {
         if i < 7 {
          Table::row(-769395600, -21600, 3600, "CPT")
         } else {
          if i < 8 {
           Table::row(-765392400, -21600, 0, "CST")
          } else {
           Table::row(-589392000, -21600, 3600, "CDT")
          }
         }
        } else {
         if i < 10 {
          Table::row(-576090000, -21600, 0, "CST")
         } else {
          if i < 11 {
           Table::row(-495043200, -21600, 3600, "CDT")
          } else {
           Table::row(-481741200, -21600, 0, "CST")
          }
         }
        }
       }
      } else {
       if i < 18 {
        if i < 15 {
         if i < 13 {
          Table::row(-463593600, -21600, 3600, "CDT")
         } else {
          if i < 14 {
           Table::row(-450291600, -21600, 0, "CST")
          } else {
           Table::row(-431539200, -21600, 3600, "CDT")
          }
         }
        } else {
         if i < 16 {
          Table::row(-418237200, -21600, 0, "CST")
         } else {
          if i < 17 {
           Table::row(-400089600, -21600, 3600, "CDT")
          } else {
           Table::row(-386787600, -21600, 0, "CST")
          }
         }
        }
       } else {
        if i < 21 {
         if i < 19 {
          Table::row(-368640000, -21600, 3600, "CDT")
         } else {
          if i < 20 {
           Table::row(-355338000, -21600, 0, "CST")
          } else {
           Table::row(-337190400, -21600, 3600, "CDT")
          }
         }
        } else {
         if i < 23 {
          if i < 22 {
           Table::row(-323888400, -21600, 0, "CST")
          } else {
           Table::row(-305740800, -21600, 3600, "CDT")
          }
         } else {
          if i < 24 {
           Table::row(-292438800, -21600, 0, "CST")
          } else {
           Table::row(-273686400, -18000, 0, "EST")
          }
         }
        }
       }
      }
     } else {
      if i < 38 {
       if i < 31 {
        if i < 28 {
         if i < 26 {
          Table::row(-21488400, -18000, 3600, "EDT")
         } else {
          if i < 27 {
           Table::row(-5767200, -18000, 0, "EST")
          } else {
           Table::row(9961200, -18000, 3600, "EDT")
          }
         }
        } else {
         if i < 29 {
          Table::row(25682400, -18000, 0, "EST")
         } else {
          if i < 30 {
           Table::row(41410800, -18000, 3600, "EDT")
          } else {
           Table::row(57736800, -18000, 0, "EST")
          }
         }
        }
       } else {
        if i < 34 {
         if i < 32 {
          Table::row(73465200, -18000, 3600, "EDT")
         } else {
          if i < 33 {
           Table::row(89186400, -18000, 0, "EST")
          } else {
           Table::row(104914800, -18000, 3600, "EDT")
          }
         }
        } else {
         if i < 36 {
          if i < 35 {
           Table::row(120636000, -18000, 0, "EST")
          } else {
           Table::row(126687600, -21600, 3600, "CDT")
          }
         } else {
          if i < 37 {
           Table::row(152089200, -18000, 0, "EST")
          } else {
           Table::row(162370800, -18000, 3600, "EDT")
          }
         }
        }
       }
      } else {
       if i < 44 {
        if i < 41 {
         if i < 39 {
          Table::row(183535200, -18000, 0, "EST")
         } else {
          if i < 40 {
           Table::row(1143961200, -18000, 3600, "EDT")
          } else {
           Table::row(1162101600, -18000, 0, "EST")
          }
         }
        } else {
         if i < 42 {
          Table::row(1173596400, -18000, 3600, "EDT")
         } else {
          if i < 43 {
           Table::row(1194156000, -18000, 0, "EST")
          } else {
           Table::row(1205046000, -18000, 3600, "EDT")
          }
         }
        }
       } else {
        if i < 47 {
         if i < 45 {
          Table::row(1225605600, -18000, 0, "EST")
         } else {
          if i < 46 {
           Table::row(1236495600, -18000, 3600, "EDT")
          } else {
           Table::row(1257055200, -18000, 0, "EST")
          }
         }
        } else {
         if i < 49 {
          if i < 48 {
           Table::row(1268550000, -18000, 3600, "EDT")
          } else {
           Table::row(1289109600, -18000, 0, "EST")
          }
         } else {
          if i < 50 {
           Table::row(1299999600, -18000, 3600, "EDT")
          } else {
           Table::row(1320559200, -18000, 0, "EST")
          }
         }
        }
       }
      }
     }
    } else {
     if i < 77 {
      if i < 64 {
       if i < 57 {
        if i < 54 {
         if i < 52 {
          Table::row(1331449200, -18000, 3600, "EDT")
         } else {
          if i < 53 {
           Table::row(1352008800, -18000, 0, "EST")
          } else {
           Table::row(1362898800, -18000, 3600, "EDT")
          }
         }
        } else {
         if i < 55 {
          Table::row(1383458400, -18000, 0, "EST")
         } else {
          if i < 56 {
           Table::row(1394348400, -18000, 3600, "EDT")
          } else {
           Table::row(1414908000, -18000, 0, "EST")
          }
         }
        }
       } else {
        if i < 60 {
         if i < 58 {
          Table::row(1425798000, -18000, 3600, "EDT")
         } else {
          if i < 59 {
           Table::row(1446357600, -18000, 0, "EST")
          } else {
           Table::row(1457852400, -18000, 3600, "EDT")
          }
         }
        } else {
         if i < 62 {
          if i < 61 {
           Table::row(1478412000, -18000, 0, "EST")
          } else {
           Table::row(1489302000, -18000, 3600, "EDT")
          }
         } else {
          if i < 63 {
           Table::row(1509861600, -18000, 0, "EST")
          } else {
           Table::row(1520751600, -18000, 3600, "EDT")
          }
         }
        }
       }
      } else {
       if i < 70 {
        if i < 67 {
         if i < 65 {
          Table::row(1541311200, -18000, 0, "EST")
         } else {
          if i < 66 {
           Table::row(1552201200, -18000, 3600, "EDT")
          } else {
           Table::row(1572760800, -18000, 0, "EST")
          }
         }
        } else {
         if i < 68 {
          Table::row(1583650800, -18000, 3600, "EDT")
         } else {
          if i < 69 {
           Table::row(1604210400, -18000, 0, "EST")
          } else {
           Table::row(1615705200, -18000, 3600, "EDT")
          }
         }
        }
       } else {
        if i < 73 {
         if i < 71 {
          Table::row(1636264800, -18000, 0, "EST")
         } else {
          if i < 72 {
           Table::row(1647154800, -18000, 3600, "EDT")
          } else {
           Table::row(1667714400, -18000, 0, "EST")
          }
         }
        } else {
         if i < 75 {
          if i < 74 {
           Table::row(1678604400, -18000, 3600, "EDT")
          } else {
           Table::row(1699164000, -18000, 0, "EST")
          }
         } else {
          if i < 76 {
           Table::row(1710054000, -18000, 3600, "EDT")
          } else {
           Table::row(1730613600, -18000, 0, "EST")
          }
         }
        }
       }
      }
     } else {
      if i < 90 {
       if i < 83 {
        if i < 80 {
         if i < 78 {
          Table::row(1741503600, -18000, 3600, "EDT")
         } else {
          if i < 79 {
           Table::row(1762063200, -18000, 0, "EST")
          } else {
           Table::row(1772953200, -18000, 3600, "EDT")
          }
         }
        } else {
         if i < 81 {
          Table::row(1793512800, -18000, 0, "EST")
         } else {
          if i < 82 {
           Table::row(1805007600, -18000, 3600, "EDT")
          } else {
           Table::row(1825567200, -18000, 0, "EST")
          }
         }
        }
       } else {
        if i < 86 {
         if i < 84 {
          Table::row(1836457200, -18000, 3600, "EDT")
         } else {
          if i < 85 {
           Table::row(1857016800, -18000, 0, "EST")
          } else {
           Table::row(1867906800, -18000, 3600, "EDT")
          }
         }
        } else {
         if i < 88 {
          if i < 87 {
           Table::row(1888466400, -18000, 0, "EST")
          } else {
           Table::row(1899356400, -18000, 3600, "EDT")
          }
         } else {
          if i < 89 {
           Table::row(1919916000, -18000, 0, "EST")
          } else {
           Table::row(1930806000, -18000, 3600, "EDT")
          }
         }
        }
       }
      } else {
       if i < 96 {
        if i < 93 {
         if i < 91 {
          Table::row(1951365600, -18000, 0, "EST")
         } else {
          if i < 92 {
           Table::row(1962860400, -18000, 3600, "EDT")
          } else {
           Table::row(1983420000, -18000, 0, "EST")
          }
         }
        } else {
         if i < 94 {
          Table::row(1994310000, -18000, 3600, "EDT")
         } else {
          if i < 95 {
           Table::row(2014869600, -18000, 0, "EST")
          } else {
           Table::row(2025759600, -18000, 3600, "EDT")
          }
         }
        }
       } else {
        if i < 99 {
         if i < 97 {
          Table::row(2046319200, -18000, 0, "EST")
         } else {
          if i < 98 {
           Table::row(2057209200, -18000, 3600, "EDT")
          } else {
           Table::row(2077768800, -18000, 0, "EST")
          }
         }
        } else {
         if i < 101 {
          if i < 100 {
           Table::row(2088658800, -18000, 3600, "EDT")
          } else {
           Table::row(2109218400, -18000, 0, "EST")
          }
         } else {
          if i < 102 {
           Table::row(2120108400, -18000, 3600, "EDT")
          } else {
           Table::row(2140668000, -18000, 0, "EST")
          }
         }
        }
       }
      }
     }
    }
}

/// The rows of the table of the zone `America/Indiana/Marengo`.
pub open spec fn indiana_marengo_rows() -> spec_fn(int) -> (i64, FixedTimespan) {
    |i: int| indiana_marengo_row(i)
}

/// The table of the zone `America/Indiana/Marengo`.
pub open spec fn indiana_marengo() -> Table {
    Table::listed(Table::row(0, -20723, 0, "LMT").1, 103, indiana_marengo_rows())
}

/// Row `i` of the table of the zone `America/Indiana/Petersburg`.
pub open spec fn indiana_petersburg_row(i: int) -> (i64, FixedTimespan) {
    if i < 58 {
     if i < 29 {
      if i < 14 {
       if i < 7 {
        if i < 3 {
         if i < 1 {
          Table::row(-2717647200, -21600, 0, "CST")
         } else {
          if i < 2 {
           Table::row(-1633276800, -21600, 3600, "CDT")
          } else {
           Table::row(-1615136400, -21600, 0, "CST")
          }
         }
        } else {
         if i < 5 {
          if i < 4 {
           Table::row(-1601827200, -21600, 3600, "CDT")
          } else {
           Table::row(-1583686800, -21600, 0, "CST")
          }
         } else {
          if i < 6 {
           Table::row(-880214400, -21600, 3600, "CWT")
          } else {
           Table::row(-769395600, -21600, 3600, "CPT")
          }
         }
        }
       } else {
        if i < 10 {
         if i < 8 {
          Table::row(-765392400, -21600, 0, "CST")
         } else {
          if i < 9 {
           Table::row(-462996000, -21600, 3600, "CDT")
          } else {
           Table::row(-450291600, -21600, 0, "CST")
          }
         }
        } else {
         if i < 12 {
          if i < 11 {
           Table::row(-431539200, -21600, 3600, "CDT")
          } else {
           Table::row(-418237200, -21600, 0, "CST")
          }
         } else {
          if i < 13 {
           Table::row(-400089600, -21600, 3600, "CDT")
          } else {
           Table::row(-386787600, -21600, 0, "CST")
          }
         }
        }
       }
      } else {
       if i < 21 {
        if i < 17 {
         if i < 15 {
          Table::row(-368640000, -21600, 3600, "CDT")
         } else {
          if i < 16 {
           Table::row(-355338000, -21600, 0, "CST")
          } else {
           Table::row(-337190400, -21600, 3600, "CDT")
          }
         }
        } else {
         if i < 19 {
          if i < 18 {
           Table::row(-323888400, -21600, 0, "CST")
          } else {
           Table::row(-305740800, -21600, 3600, "CDT")
          }
         } else {
          if i < 20 {
           Table::row(-292438800, -21600, 0, "CST")
          } else {
           Table::row(-273686400, -21600, 3600, "CDT")
          }
         }
        }
       } else {
        if i < 25 {
         if i < 23 {
          if i < 22 {
           Table::row(-257965200, -21600, 0, "CST")
          } else {
           Table::row(-242236800, -21600, 3600, "CDT")
          }
         } else {
          if i < 24 {
           Table::row(-226515600, -21600, 0, "CST")
          } else {
           Table::row(-210787200, -21600, 3600, "CDT")
          }
         }
        } else {
         if i < 27 {
          if i < 26 {
           Table::row(-195066000, -21600, 0, "CST")
          } else {
           Table::row(-179337600, -21600, 3600, "CDT")
          }
         } else {
          if i < 28 {
           Table::row(-163616400, -21600, 0, "CST")
          } else {
           Table::row(-147888000, -18000, 0, "EST")
          }
         }
        }
       }
      }
     } else {
      if i < 43 {
       if i < 36 {
        if i < 32 {
         if i < 30 {
          Table::row(-100112400, -21600, 0, "CST")
         } else {
          if i < 31 {
           Table::row(-84384000, -21600, 3600, "CDT")
          } else {
           Table::row(-68662800, -21600, 0, "CST")
          }
         }
        } else {
         if i < 34 {
          if i < 33 {
           Table::row(-52934400, -21600, 3600, "CDT")
          } else {
           Table::row(-37213200, -21600, 0, "CST")
          }
         } else {
          if i < 35 {
           Table::row(-21484800, -21600, 3600, "CDT")
          } else {
           Table::row(-5763600, -21600, 0, "CST")
          }
         }
        }
       } else {
        if i < 39 {
         if i < 37 {
          Table::row(9964800, -21600, 3600, "CDT")
         } else {
          if i < 38 {
           Table::row(25686000, -21600, 0, "CST")
          } else {
           Table::row(41414400, -21600, 3600, "CDT")
          }
         }
        } else {
         if i < 41 {
          if i < 40 {
           Table::row(57740400, -21600, 0, "CST")
          } else {
           Table::row(73468800, -21600, 3600, "CDT")
          }
         } else {
          if i < 42 {
           Table::row(89190000, -21600, 0, "CST")
          } else {
           Table::row(104918400, -21600, 3600, "CDT")
          }
         }
        }
       }
      } else {
       if i < 50 {
        if i < 46 {
         if i < 44 {
          Table::row(120639600, -21600, 0, "CST")
         } else {
          if i < 45 {
           Table::row(126691200, -21600, 3600, "CDT")
          } else {
           Table::row(152089200, -21600, 0, "CST")
          }
         }
        } else {
         if i < 48 {
          if i < 47 {
           Table::row(162374400, -21600, 3600, "CDT")
          } else {
           Table::row(183538800, -21600, 0, "CST")
          }
         } else {
          if i < 49 {
           Table::row(199267200, -21600, 3600, "CDT")
          } else {
           Table::row(215593200, -21600, 0, "CST")
          }
         }
        }
       } else {
        if i < 54 {
         if i < 52 {
          if i < 51 {
           Table::row(230716800, -21600, 3600, "CDT")
          } else {
           Table::row(247042800, -18000, 0, "EST")
          }
         } else {
          if i < 53 {
           Table::row(1143961200, -21600, 3600, "CDT")
          } else {
           Table::row(1162105200, -21600, 0, "CST")
          }
         }
        } else {
         if i < 56 {
          if i < 55 {
           Table::row(1173600000, -21600, 3600, "CDT")
          } else {
           Table::row(1194159600, -18000, 0, "EST")
          }
         } else {
          if i < 57 {
           Table::row(1205046000, -18000, 3600, "EDT")
          } else {
           Table::row(1225605600, -18000, 0, "EST")
          }
         }
        }
       }
      }
     }
    } else {
     if i < 87 {
      if i < 72 {
       if i < 65 {
        if i < 61 {
         if i < 59 {
          Table::row(1236495600, -18000, 3600, "EDT")
         } else {
          if i < 60 {
           Table::row(1257055200, -18000, 0, "EST")
          } else {
           Table::row(1268550000, -18000, 3600, "EDT")
          }
         }
        } else {
         if i < 63 {
          if i < 62 {
           Table::row(1289109600, -18000, 0, "EST")
          } else {
           Table::row(1299999600, -18000, 3600, "EDT")
          }
         } else {
          if i < 64 {
           Table::row(1320559200, -18000, 0, "EST")
          } else {
           Table::row(1331449200, -18000, 3600, "EDT")
          }
         }
        }
       } else {
        if i < 68 {
         if i < 66 {
          Table::row(1352008800, -18000, 0, "EST")
         } else {
          if i < 67 {
           Table::row(1362898800, -18000, 3600, "EDT")
          } else {
           Table::row(1383458400, -18000, 0, "EST")
          }
         }
        } else {
         if i < 70 {
          if i < 69 {
           Table::row(1394348400, -18000, 3600, "EDT")
          } else {
           Table::row(1414908000, -18000, 0, "EST")
          }
         } else {
          if i < 71 {
           Table::row(1425798000, -18000, 3600, "EDT")
          } else {
           Table::row(1446357600, -18000, 0, "EST")
          }
         }
        }
       }
      } else {
       if i < 79 {
        if i < 75 {
         if i < 73 {
          Table::row(1457852400, -18000, 3600, "EDT")
         } else {
          if i < 74 {
           Table::row(1478412000, -18000, 0, "EST")
          } else {
           Table::row(1489302000, -18000, 3600, "EDT")
          }
         }
        } else {
         if i < 77 {
          if i < 76 {
           Table::row(1509861600, -18000, 0, "EST")
          } else {
           Table::row(1520751600, -18000, 3600, "EDT")
          }
         } else {
          if i < 78 {
           Table::row(1541311200, -18000, 0, "EST")
          } else {
           Table::row(1552201200, -18000, 3600, "EDT")
          }
         }
        }
       } else {
        if i < 83 {
         if i < 81 {
          if i < 80 {
           Table::row(1572760800, -18000, 0, "EST")
          } else {
           Table::row(1583650800, -18000, 3600, "EDT")
          }
         } else {
          if i < 82 {
           Table::row(1604210400, -18000, 0, "EST")
          } else {
           Table::row(1615705200, -18000, 3600, "EDT")
          }
         }
        } else {
         if i < 85 {
          if i < 84 {
           Table::row(1636264800, -18000, 0, "EST")
          } else {
           Table::row(1647154800, -18000, 3600, "EDT")
          }
         } else {
          if i < 86 {
           Table::row(1667714400, -18000, 0, "EST")
          } else {
           Table::row(1678604400, -18000, 3600, "EDT")
          }
         }
        }
       }
      }
     } else {
      if i < 101 {
       if i < 94 {
        if i < 90 {
         if i < 88 {
          Table::row(1699164000, -18000, 0, "EST")
         } else {
          if i < 89 {
           Table::row(1710054000, -18000, 3600, "EDT")
          } else {
           Table::row(1730613600, -18000, 0, "EST")
          }
         }
        } else {
         if i < 92 {
          if i < 91 {
           Table::row(1741503600, -18000, 3600, "EDT")
          } else {
           Table::row(1762063200, -18000, 0, "EST")
          }
         } else {
          if i < 93 {
           Table::row(1772953200, -18000, 3600, "EDT")
          } else {
           Table::row(1793512800, -18000, 0, "EST")
          }
         }
        }
       } else {
        if i < 97 {
         if i < 95 {
          Table::row(1805007600, -18000, 3600, "EDT")
         } else {
          if i < 96 {
           Table::row(1825567200, -18000, 0, "EST")
          } else {
           Table::row(1836457200, -18000, 3600, "EDT")
          }
         }
        } else {
         if i < 99 {
          if i < 98 {
           Table::row(1857016800, -18000, 0, "EST")
          } else {
           Table::row(1867906800, -18000, 3600, "EDT")
          }
         } else {
          if i < 100 {
           Table::row(1888466400, -18000, 0, "EST")
          } else {
           Table::row(1899356400, -18000, 3600, "EDT")
          }
         }
        }
       }
      } else {
       if i < 108 {
        if i < 104 {
         if i < 102 {
          Table::row(1919916000, -18000, 0, "EST")
         } else {
          if i < 103 {
           Table::row(1930806000, -18000, 3600, "EDT")
          } else {
           Table::row(1951365600, -18000, 0, "EST")
          }
         }
        } else {
         if i < 106 {
          if i < 105 {
           Table::row(1962860400, -18000, 3600, "EDT")
          } else {
           Table::row(1983420000, -18000, 0, "EST")
          }
         } else {
          if i < 107 {
           Table::row(1994310000, -18000, 3600, "EDT")
          } else {
           Table::row(2014869600, -18000, 0, "EST")
          }
         }
        }
       } else {
        if i < 112 {
         if i < 110 {
          if i < 109 {
           Table::row(2025759600, -18000, 3600, "EDT")
          } else {
           Table::row(2046319200, -18000, 0, "EST")
          }
         } else {
          if i < 111 {
           Table::row(2057209200, -18000, 3600, "EDT")
          } else {
           Table::row(2077768800, -18000, 0, "EST")
          }
         }
        } else {
         if i < 114 {
          if i < 113 {
           Table::row(2088658800, -18000, 3600, "EDT")
          } else {
           Table::row(2109218400, -18000, 0, "EST")
          }
         } else {
          if i < 115 {
           Table::row(2120108400, -18000, 3600, "EDT")
          } else {
           Table::row(2140668000, -18000, 0, "EST")
          }
         }
        }
       }
      }
     }
    }
}

/// The rows of the table of the zone `America/Indiana/Petersburg`.
pub open spec fn indiana_petersburg_rows() -> spec_fn(int) -> (i64, FixedTimespan) {
    |i: int| indiana_petersburg_row(i)
}

/// The table of the zone `America/Indiana/Petersburg`.
pub open spec fn indiana_petersburg() -> Table {
    Table::listed(Table::row(0, -20947, 0, "LMT").1, 116, indiana_petersburg_rows())
}

/// Row `i` of the table of the zone `America/Indiana/Tell_City`.
pub open spec fn indiana_tell_city_row(i: int) -> (i64, FixedTimespan) {
    if i < 49 {
     if i < 24 {
      if i < 12 {
       if i < 6 {
        if i < 3 {
         if i < 1 {
          Table::row(-2717647200, -21600, 0, "CST")
         } else {
          if i < 2 {
           Table::row(-1633276800, -21600, 3600, "CDT")
          } else {
           Table::row(-1615136400, -21600, 0, "CST")
          }
         }
        } else {
         if i < 4 {
          Table::row(-1601827200, -21600, 3600, "CDT")
         } else {
          if i < 5 {
           Table::row(-1583686800, -21600, 0, "CST")
          } else {
           Table::row(-880214400, -21600, 3600, "CWT")
          }
         }
        }
       } else {
        if i < 9 {
         if i < 7 {
          Table::row(-769395600, -21600, 3600, "CPT")
         } else {
          if i < 8 {
           Table::row(-765392400, -21600, 0, "CST")
          } else {
           Table::row(-462996000, -21600, 3600, "CDT")
          }
         }
        } else {
         if i < 10 {
          Table::row(-450291600, -21600, 0, "CST")
         } else {
          if i < 11 {
           Table::row(-431539200, -21600, 3600, "CDT")
          } else {
           Table::row(-418237200, -21600, 0, "CST")
          }
         }
        }
       }
      } else {
       if i < 18 {
        if i < 15 {
         if i < 13 {
          Table::row(-400089600, -21600, 3600, "CDT")
         } else {
          if i < 14 {
           Table::row(-386787600, -21600, 0, "CST")
          } else {
           Table::row(-368640000, -21600, 3600, "CDT")
          }
         }
        } else {
         if i < 16 {
          Table::row(-355338000, -21600, 0, "CST")
         } else {
          if i < 17 {
           Table::row(-337190400, -21600, 3600, "CDT")
          } else {
           Table::row(-323888400, -21600, 0, "CST")
          }
         }
        }
       } else {
        if i < 21 {
         if i < 19 {
          Table::row(-305740800, -21600, 3600, "CDT")
         } else {
          if i < 20 {
           Table::row(-292438800, -21600, 0, "CST")
          } else {
           Table::row(-273686400, -21600, 3600, "CDT")
          }
         }
        } else {
         if i < 22 {
          Table::row(-257965200, -21600, 0, "CST")
         } else {
          if i < 23 {
           Table::row(-242236800, -21600, 3600, "CDT")
          } else {
           Table::row(-226515600, -21600, 0, "CST")
          }
         }
        }
       }
      }
     } else {
      if i < 36 {
       if i < 30 {
        if i < 27 {
         if i < 25 {
          Table::row(-210787200, -21600, 3600, "CDT")
         } else {
          if i < 26 {
           Table::row(-195066000, -21600, 0, "CST")
          } else {
           Table::row(-179337600, -18000, 0, "EST")
          }
         }
        } else {
         if i < 28 {
          Table::row(-68662800, -21600, 0, "CST")
         } else {
          if i < 29 {
           Table::row(-52934400, -21600, 3600, "CDT")
          } else {
           Table::row(-37213200, -21600, 0, "CST")
          }
         }
        }
       } else {
        if i < 33 {
         if i < 31 {
          Table::row(-21484800, -21600, 7200, "EDT")
         } else {
          if i < 32 {
           Table::row(-5767200, -18000, 0, "EST")
          } else {
           Table::row(9961200, -18000, 3600, "EDT")
          }
         }
        } else {
         if i < 34 {
          Table::row(25682400, -18000, 0, "EST")
         } else {
          if i < 35 {
           Table::row(1143961200, -21600, 3600, "CDT")
          } else {
           Table::row(1162105200, -21600, 0, "CST")
          }
         }
        }
       }
      } else {
       if i < 42 {
        if i < 39 {
         if i < 37 {
          Table::row(1173600000, -21600, 3600, "CDT")
         } else {
          if i < 38 {
           Table::row(1194159600, -21600, 0, "CST")
          } else {
           Table::row(1205049600, -21600, 3600, "CDT")
          }
         }
        } else {
         if i < 40 {
          Table::row(1225609200, -21600, 0, "CST")
         } else {
          if i < 41 {
           Table::row(1236499200, -21600, 3600, "CDT")
          } else {
           Table::row(1257058800, -21600, 0, "CST")
          }
         }
        }
       } else {
        if i < 45 {
         if i < 43 {
          Table::row(1268553600, -21600, 3600, "CDT")
         } else {
          if i < 44 {
           Table::row(1289113200, -21600, 0, "CST")
          } else {
           Table::row(1300003200, -21600, 3600, "CDT")
          }
         }
        } else {
         if i < 47 {
          if i < 46 {
           Table::row(1320562800, -21600, 0, "CST")
          } else {
           Table::row(1331452800, -21600, 3600, "CDT")
          }
         } else {
          if i < 48 {
           Table::row(1352012400, -21600, 0, "CST")
          } else {
           Table::row(1362902400, -21600, 3600, "CDT")
          }
         }
        }
       }
      }
     }
    } else {
     if i < 73 {
      if i < 61 {
       if i < 55 {
        if i < 52 {
         if i < 50 {
          Table::row(1383462000, -21600, 0, "CST")
         } else {
          if i < 51 {
           Table::row(1394352000, -21600, 3600, "CDT")
          } else {
           Table::row(1414911600, -21600, 0, "CST")
          }
         }
        } else {
         if i < 53 {
          Table::row(1425801600, -21600, 3600, "CDT")
         } else {
          if i < 54 {
           Table::row(1446361200, -21600, 0, "CST")
          } else {
           Table::row(1457856000, -21600, 3600, "CDT")
          }
         }
        }
       } else {
        if i < 58 {
         if i < 56 {
          Table::row(1478415600, -21600, 0, "CST")
         } else {
          if i < 57 {
           Table::row(1489305600, -21600, 3600, "CDT")
          } else {
           Table::row(1509865200, -21600, 0, "CST")
          }
         }
        } else {
         if i < 59 {
          Table::row(1520755200, -21600, 3600, "CDT")
         } else {
          if i < 60 {
           Table::row(1541314800, -21600, 0, "CST")
          } else {
           Table::row(1552204800, -21600, 3600, "CDT")
          }
         }
        }
       }
      } else {
       if i < 67 {
        if i < 64 {
         if i < 62 {
          Table::row(1572764400, -21600, 0, "CST")
         } else {
          if i < 63 {
           Table::row(1583654400, -21600, 3600, "CDT")
          } else {
           Table::row(1604214000, -21600, 0, "CST")
          }
         }
        } else {
         if i < 65 {
          Table::row(1615708800, -21600, 3600, "CDT")
         } else {
          if i < 66 {
           Table::row(1636268400, -21600, 0, "CST")
          } else {
           Table::row(1647158400, -21600, 3600, "CDT")
          }
         }
        }
       } else {
        if i < 70 {
         if i < 68 {
          Table::row(1667718000, -21600, 0, "CST")
         } else {
          if i < 69 {
           Table::row(1678608000, -21600, 3600, "CDT")
          } else {
           Table::row(1699167600, -21600, 0, "CST")
          }
         }
        } else {
         if i < 71 {
          Table::row(1710057600, -21600, 3600, "CDT")
         } else {
          if i < 72 {
           Table::row(1730617200, -21600, 0, "CST")
          } else {
           Table::row(1741507200, -21600, 3600, "CDT")
          }
         }
        }
       }
      }
     } else {
      if i < 85 {
       if i < 79 {
        if i < 76 {
         if i < 74 {
          Table::row(1762066800, -21600, 0, "CST")
         } else {
          if i < 75 {
           Table::row(1772956800, -21600, 3600, "CDT")
          } else {
           Table::row(1793516400, -21600, 0, "CST")
          }
         }
        } else {
         if i < 77 {
          Table::row(1805011200, -21600, 3600, "CDT")
         } else {
          if i < 78 {
           Table::row(1825570800, -21600, 0, "CST")
          } else {
           Table::row(1836460800, -21600, 3600, "CDT")
          }
         }
        }
       } else {
        if i < 82 {
         if i < 80 {
          Table::row(1857020400, -21600, 0, "CST")
         } else {
          if i < 81 {
           Table::row(1867910400, -21600, 3600, "CDT")
          } else {
           Table::row(1888470000, -21600, 0, "CST")
          }
         }
        } else {
         if i < 83 {
          Table::row(1899360000, -21600, 3600, "CDT")
         } else {
          if i < 84 {
           Table::row(1919919600, -21600, 0, "CST")
          } else {
           Table::row(1930809600, -21600, 3600, "CDT")
          }
         }
        }
       }
      } else {
       if i < 91 {
        if i < 88 {
         if i < 86 {
          Table::row(1951369200, -21600, 0, "CST")
         } else {
          if i < 87 {
           Table::row(1962864000, -21600, 3600, "CDT")
          } else {
           Table::row(1983423600, -21600, 0, "CST")
          }
         }
        } else {
         if i < 89 {
          Table::row(1994313600, -21600, 3600, "CDT")
         } else {
          if i < 90 {
           Table::row(2014873200, -21600, 0, "CST")
          } else {
           Table::row(2025763200, -21600, 3600, "CDT")
          }
         }
        }
       } else {
        if i < 94 {
         if i < 92 {
          Table::row(2046322800, -21600, 0, "CST")
         } else {
          if i < 93 {
           Table::row(2057212800, -21600, 3600, "CDT")
          } else {
           Table::row(2077772400, -21600, 0, "CST")
          }
         }
        } else {
         if i < 96 {
          if i < 95 {
           Table::row(2088662400, -21600, 3600, "CDT")
          } else {
           Table::row(2109222000, -21600, 0, "CST")
          }
         } else {
          if i < 97 {
           Table::row(2120112000, -21600, 3600, "CDT")
          } else {
           Table::row(2140671600, -21600, 0, "CST")
          }
         }
        }
       }
      }
     }
    }
}

/// The rows of the table of the zone `America/Indiana/Tell_City`.
pub open spec fn indiana_tell_city_rows() -> spec_fn(int) -> (i64, FixedTimespan) {
    |i: int| indiana_tell_city_row(i)
}

/// The table of the zone `America/Indiana/Tell_City`.
pub open spec fn indiana_tell_city() -> Table {
    Table::listed(Table::row(0, -20823, 0, "LMT").1, 98, indiana_tell_city_rows())
}

/// Row `i` of the table of the zone `America/Indiana/Vevay`.
pub open spec fn indiana_vevay_row(i: int) -> (i64, FixedTimespan) {
    if i < 40 {
     if i < 20 {
      if i < 10 {
       if i < 5 {
        if i < 2 {
         if i < 1 {
          Table::row(-2717647200, -21600, 0, "CST")
         } else {
          Table::row(-1633276800, -21600, 3600, "CDT")
         }
        } else {
         if i < 3 {
          Table::row(-1615136400, -21600, 0, "CST")
         } else {
          if i < 4 {
           Table::row(-1601827200, -21600, 3600, "CDT")
          } else {
           Table::row(-1583686800, -21600, 0, "CST")
          }
         }
        }
       } else {
        if i < 7 {
         if i < 6 {
          Table::row(-880214400, -21600, 3600, "CWT")
         } else {
          Table::row(-769395600, -21600, 3600, "CPT")
         }
        } else {
         if i < 8 {
          Table::row(-765392400, -21600, 0, "CST")
         } else {
          if i < 9 {
           Table::row(-495043200, -18000, 0, "EST")
          } else {
           Table::row(-21488400, -18000, 3600, "EDT")
          }
         }
        }
       }
      } else {
       if i < 15 {
        if i < 12 {
         if i < 11 {
          Table::row(-5767200, -18000, 0, "EST")
         } else {
          Table::row(9961200, -18000, 3600, "EDT")
         }
        } else {
         if i < 13 {
          Table::row(25682400, -18000, 0, "EST")
         } else {
          if i < 14 {
           Table::row(41410800, -18000, 3600, "EDT")
          } else {
           Table::row(57736800, -18000, 0, "EST")
          }
         }
        }
       } else {
        if i < 17 {
         if i < 16 {
          Table::row(73465200, -18000, 3600, "EDT")
         } else {
          Table::row(89186400, -18000, 0, "EST")
         }
        } else {
         if i < 18 {
          Table::row(1143961200, -18000, 3600, "EDT")
         } else {
          if i < 19 {
           Table::row(1162101600, -18000, 0, "EST")
          } else {
           Table::row(1173596400, -18000, 3600, "EDT")
          }
         }
        }
       }
      }
     } else {
      if i < 30 {
       if i < 25 {
        if i < 22 {
         if i < 21 {
          Table::row(1194156000, -18000, 0, "EST")
         } else {
          Table::row(1205046000, -18000, 3600, "EDT")
         }
        } else {
         if i < 23 {
          Table::row(1225605600, -18000, 0, "EST")
         } else {
          if i < 24 {
           Table::row(1236495600, -18000, 3600, "EDT")
          } else {
           Table::row(1257055200, -18000, 0, "EST")
          }
         }
        }
       } else {
        if i < 27 {
         if i < 26 {
          Table::row(1268550000, -18000, 3600, "EDT")
         } else {
          Table::row(1289109600, -18000, 0, "EST")
         }
        } else {
         if i < 28 {
          Table::row(1299999600, -18000, 3600, "EDT")
         } else {
          if i < 29 {
           Table::row(1320559200, -18000, 0, "EST")
          } else {
           Table::row(1331449200, -18000, 3600, "EDT")
          }
         }
        }
       }
      } else {
       if i < 35 {
        if i < 32 {
         if i < 31 {
          Table::row(1352008800, -18000, 0, "EST")
         } else {
          Table::row(1362898800, -18000, 3600, "EDT")
         }
        } else {
         if i < 33 {
          Table::row(1383458400, -18000, 0, "EST")
         } else {
          if i < 34 {
           Table::row(1394348400, -18000, 3600, "EDT")
          } else {
           Table::row(1414908000, -18000, 0, "EST")
          }
         }
        }
       } else {
        if i < 37 {
         if i < 36 {
          Table::row(1425798000, -18000, 3600, "EDT")
         } else {
          Table::row(1446357600, -18000, 0, "EST")
         }
        } else {
         if i < 38 {
          Table::row(1457852400, -18000, 3600, "EDT")
         } else {
          if i < 39 {
           Table::row(1478412000, -18000, 0, "EST")
          } else {
           Table::row(1489302000, -18000, 3600, "EDT")
          }
         }
        }
       }
      }
     }
    } else {
     if i < 60 {
      if i < 50 {
       if i < 45 {
        if i < 42 {
         if i < 41 {
          Table::row(1509861600, -18000, 0, "EST")
         } else {
          Table::row(1520751600, -18000, 3600, "EDT")
         }
        } else {
         if i < 43 {
          Table::row(1541311200, -18000, 0, "EST")
         } else {
          if i < 44 {
           Table::row(1552201200, -18000, 3600, "EDT")
          } else {
           Table::row(1572760800, -18000, 0, "EST")
          }
         }
        }
       } else {
        if i < 47 {
         if i < 46 {
          Table::row(1583650800, -18000, 3600, "EDT")
         } else {
          Table::row(1604210400, -18000, 0, "EST")
         }
        } else {
         if i < 48 {
          Table::row(1615705200, -18000, 3600, "EDT")
         } else {
          if i < 49 {
           Table::row(1636264800, -18000, 0, "EST")
          } else {
           Table::row(1647154800, -18000, 3600, "EDT")
          }
         }
        }
       }
      } else {
       if i < 55 {
        if i < 52 {
         if i < 51 {
          Table::row(1667714400, -18000, 0, "EST")
         } else {
          Table::row(1678604400, -18000, 3600, "EDT")
         }
        } else {
         if i < 53 {
          Table::row(1699164000, -18000, 0, "EST")
         } else {
          if i < 54 {
           Table::row(1710054000, -18000, 3600, "EDT")
          } else {
           Table::row(1730613600, -18000, 0, "EST")
          }
         }
        }
       } else {
        if i < 57 {
         if i < 56 {
          Table::row(1741503600, -18000, 3600, "EDT")
         } else {
          Table::row(1762063200, -18000, 0, "EST")
         }
        } else {
         if i < 58 {
          Table::row(1772953200, -18000, 3600, "EDT")
         } else {
          if i < 59 {
           Table::row(1793512800, -18000, 0, "EST")
          } else {
           Table::row(1805007600, -18000, 3600, "EDT")
          }
         }
        }
       }
      }
     } else {
      if i < 70 {
       if i < 65 {
        if i < 62 {
         if i < 61 {
          Table::row(1825567200, -18000, 0, "EST")
         } else {
          Table::row(1836457200, -18000, 3600, "EDT")
         }
        } else {
         if i < 63 {
          Table::row(1857016800, -18000, 0, "EST")
         } else {
          if i < 64 {
           Table::row(1867906800, -18000, 3600, "EDT")
          } else {
           Table::row(1888466400, -18000, 0, "EST")
          }
         }
        }
       } else {
        if i < 67 {
         if i < 66 {
          Table::row(1899356400, -18000, 3600, "EDT")
         } else {
          Table::row(1919916000, -18000, 0, "EST")
         }
        } else {
         if i < 68 {
          Table::row(1930806000, -18000, 3600, "EDT")
         } else {
          if i < 69 {
           Table::row(1951365600, -18000, 0, "EST")
          } else {
           Table::row(1962860400, -18000, 3600, "EDT")
          }
         }
        }
       }
      } else {
       if i < 75 {
        if i < 72 {
         if i < 71 {
          Table::row(1983420000, -18000, 0, "EST")
         } else {
          Table::row(1994310000, -18000, 3600, "EDT")
         }
        } else {
         if i < 73 {
          Table::row(2014869600, -18000, 0, "EST")
         } else {
          if i < 74 {
           Table::row(2025759600, -18000, 3600, "EDT")
          } else {
           Table::row(2046319200, -18000, 0, "EST")
          }
         }
        }
       } else {
        if i < 78 {
         if i < 76 {
          Table::row(2057209200, -18000, 3600, "EDT")
         } else {
          if i < 77 {
           Table::row(2077768800, -18000, 0, "EST")
          } else {
           Table::row(2088658800, -18000, 3600, "EDT")
          }
         }
        } else {
         if i < 79 {
          Table::row(2109218400, -18000, 0, "EST")
         } else {
          if i < 80 {
           Table::row(2120108400, -18000, 3600, "EDT")
          } else {
           Table::row(2140668000, -18000, 0, "EST")
          }
         }
        }
       }
      }
     }
    }
}

/// The rows of the table of the zone `America/Indiana/Vevay`.
pub open spec fn indiana_vevay_rows() -> spec_fn(int) -> (i64, FixedTimespan) {
    |i: int| indiana_vevay_row(i)
}

/// The table of the zone `America/Indiana/Vevay`.
pub open spec fn indiana_vevay() -> Table {
    Table::listed(Table::row(0, -20416, 0, "LMT").1, 81, indiana_vevay_rows())
}

/// Row `i` of the table of the zone `America/Indiana/Vincennes`.
pub open spec fn indiana_vincennes_row(i: int) -> (i64, FixedTimespan) {
    if i < 50 {
     if i < 25 {
      if i < 12 {
       if i < 6 {
        if i < 3 {
         if i < 1 {
          Table::row(-2717647200, -21600, 0, "CST")
         } else {
          if i < 2 {
           Table::row(-1633276800, -21600, 3600, "CDT")
          } else {
           Table::row(-1615136400, -21600, 0, "CST")
          }
         }
        } else {
         if i < 4 {
          Table::row(-1601827200, -21600, 3600, "CDT")
         } else {
          if i < 5 {
           Table::row(-1583686800, -21600, 0, "CST")
          } else {
           Table::row(-880214400, -21600, 3600, "CWT")
          }
         }
        }
       } else {
        if i < 9 {
         if i < 7 {
          Table::row(-769395600, -21600, 3600, "CPT")
         } else {
          if i < 8 {
           Table::row(-765392400, -21600, 0, "CST")
          } else {
           Table::row(-747244800, -21600, 3600, "CDT")
          }
         }
        } else {
         if i < 10 {
          Table::row(-733942800, -21600, 0, "CST")
         } else {
          if i < 11 {
           Table::row(-526492800, -21600, 3600, "CDT")
          } else {
           Table::row(-513190800, -21600, 0, "CST")
          }
         }
        }
       }
      } else {
       if i < 18 {
        if i < 15 {
         if i < 13 {
          Table::row(-495043200, -21600, 3600, "CDT")
         } else {
          if i < 14 {
           Table::row(-481741200, -21600, 0, "CST")
          } else {
           Table::row(-462996000, -21600, 3600, "CDT")
          }
         }
        } else {
         if i < 16 {
          Table::row(-450291600, -21600, 0, "CST")
         } else {
          if i < 17 {
           Table::row(-431539200, -21600, 3600, "CDT")
          } else {
           Table::row(-418237200, -21600, 0, "CST")
          }
         }
        }
       } else {
        if i < 21 {
         if i < 19 {
          Table::row(-400089600, -21600, 3600, "CDT")
         } else {
          if i < 20 {
           Table::row(-386787600, -21600, 0, "CST")
          } else {
           Table::row(-368640000, -21600, 3600, "CDT")
          }
         }
        } else {
         if i < 23 {
          if i < 22 {
           Table::row(-355338000, -21600, 0, "CST")
          } else {
           Table::row(-337190400, -21600, 3600, "CDT")
          }
         } else {
          if i < 24 {
           Table::row(-323888400, -21600, 0, "CST")
          } else {
           Table::row(-305740800, -21600, 3600, "CDT")
          }
         }
        }
       }
      }
     } else {
      if i < 37 {
       if i < 31 {
        if i < 28 {
         if i < 26 {
          Table::row(-289414800, -21600, 0, "CST")
         } else {
          if i < 27 {
           Table::row(-273686400, -21600, 3600, "CDT")
          } else {
           Table::row(-260989200, -21600, 0, "CST")
          }
         }
        } else {
         if i < 29 {
          Table::row(-242236800, -21600, 3600, "CDT")
         } else {
          if i < 30 {
           Table::row(-226515600, -21600, 0, "CST")
          } else {
           Table::row(-210787200, -21600, 3600, "CDT")
          }
         }
        }
       } else {
        if i < 34 {
         if i < 32 {
          Table::row(-195066000, -21600, 0, "CST")
         } else {
          if i < 33 {
           Table::row(-179337600, -18000, 0, "EST")
          } else {
           Table::row(-21488400, -18000, 3600, "EDT")
          }
         }
        } else {
         if i < 35 {
          Table::row(-5767200, -18000, 0, "EST")
         } else {
          if i < 36 {
           Table::row(9961200, -18000, 3600, "EDT")
          } else {
           Table::row(25682400, -18000, 0, "EST")
          }
         }
        }
       }
      } else {
       if i < 43 {
        if i < 40 {
         if i < 38 {
          Table::row(1143961200, -21600, 3600, "CDT")
         } else {
          if i < 39 {
           Table::row(1162105200, -21600, 0, "CST")
          } else {
           Table::row(1173600000, -21600, 3600, "CDT")
          }
         }
        } else {
         if i < 41 {
          Table::row(1194159600, -18000, 0, "EST")
         } else {
          if i < 42 {
           Table::row(1205046000, -18000, 3600, "EDT")
          } else {
           Table::row(1225605600, -18000, 0, "EST")
          }
         }
        }
       } else {
        if i < 46 {
         if i < 44 {
          Table::row(1236495600, -18000, 3600, "EDT")
         } else {
          if i < 45 {
           Table::row(1257055200, -18000, 0, "EST")
          } else {
           Table::row(1268550000, -18000, 3600, "EDT")
          }
         }
        } else {
         if i < 48 {
          if i < 47 {
           Table::row(1289109600, -18000, 0, "EST")
          } else {
           Table::row(1299999600, -18000, 3600, "EDT")
          }
         } else {
          if i < 49 {
           Table::row(1320559200, -18000, 0, "EST")
          } else {
           Table::row(1331449200, -18000, 3600, "EDT")
          }
         }
        }
       }
      }
     }
    } else {
     if i < 75 {
      if i < 62 {
       if i < 56 {
        if i < 53 {
         if i < 51 {
          Table::row(1352008800, -18000, 0, "EST")
         } else {
          if i < 52 {
           Table::row(1362898800, -18000, 3600, "EDT")
          } else {
           Table::row(1383458400, -18000, 0, "EST")
          }
         }
        } else {
         if i < 54 {
          Table::row(1394348400, -18000, 3600, "EDT")
         } else {
          if i < 55 {
           Table::row(1414908000, -18000, 0, "EST")
          } else {
           Table::row(1425798000, -18000, 3600, "EDT")
          }
         }
        }
       } else {
        if i < 59 {
         if i < 57 {
          Table::row(1446357600, -18000, 0, "EST")
         } else {
          if i < 58 {
           Table::row(1457852400, -18000, 3600, "EDT")
          } else {
           Table::row(1478412000, -18000, 0, "EST")
          }
         }
        } else {
         if i < 60 {
          Table::row(1489302000, -18000, 3600, "EDT")
         } else {
          if i < 61 {
           Table::row(1509861600, -18000, 0, "EST")
          } else {
           Table::row(1520751600, -18000, 3600, "EDT")
          }
         }
        }
       }
      } else {
       if i < 68 {
        if i < 65 {
         if i < 63 {
          Table::row(1541311200, -18000, 0, "EST")
         } else {
          if i < 64 {
           Table::row(1552201200, -18000, 3600, "EDT")
          } else {
           Table::row(1572760800, -18000, 0, "EST")
          }
         }
        } else {
         if i < 66 {
          Table::row(1583650800, -18000, 3600, "EDT")
         } else {
          if i < 67 {
           Table::row(1604210400, -18000, 0, "EST")
          } else {
           Table::row(1615705200, -18000, 3600, "EDT")
          }
         }
        }
       } else {
        if i < 71 {
         if i < 69 {
          Table::row(1636264800, -18000, 0, "EST")
         } else {
          if i < 70 {
           Table::row(1647154800, -18000, 3600, "EDT")
          } else {
           Table::row(1667714400, -18000, 0, "EST")
          }
         }
        } else {
         if i < 73 {
          if i < 72 {
           Table::row(1678604400, -18000, 3600, "EDT")
          } else {
           Table::row(1699164000, -18000, 0, "EST")
          }
         } else {
          if i < 74 {
           Table::row(1710054000, -18000, 3600, "EDT")
          } else {
           Table::row(1730613600, -18000, 0, "EST")
          }
         }
        }
       }
      }
     } else {
      if i < 88 {
       if i < 81 {
        if i < 78 {
         if i < 76 {
          Table::row(1741503600, -18000, 3600, "EDT")
         } else {
          if i < 77 {
           Table::row(1762063200, -18000, 0, "EST")
          } else {
           Table::row(1772953200, -18000, 3600, "EDT")
          }
         }
        } else {
         if i < 79 {
          Table::row(1793512800, -18000, 0, "EST")
         } else {
          if i < 80 {
           Table::row(1805007600, -18000, 3600, "EDT")
          } else {
           Table::row(1825567200, -18000, 0, "EST")
          }
         }
        }
       } else {
        if i < 84 {
         if i < 82 {
          Table::row(1836457200, -18000, 3600, "EDT")
         } else {
          if i < 83 {
           Table::row(1857016800, -18000, 0, "EST")
          } else {
           Table::row(1867906800, -18000, 3600, "EDT")
          }
         }
        } else {
         if i < 86 {
          if i < 85 {
           Table::row(1888466400, -18000, 0, "EST")
          } else {
           Table::row(1899356400, -18000, 3600, "EDT")
          }
         } else {
          if i < 87 {
           Table::row(1919916000, -18000, 0, "EST")
          } else {
           Table::row(1930806000, -18000, 3600, "EDT")
          }
         }
        }
       }
      } else {
       if i < 94 {
        if i < 91 {
         if i < 89 {
          Table::row(1951365600, -18000, 0, "EST")
         } else {
          if i < 90 {
           Table::row(1962860400, -18000, 3600, "EDT")
          } else {
           Table::row(1983420000, -18000, 0, "EST")
          }
         }
        } else {
         if i < 92 {
          Table::row(1994310000, -18000, 3600, "EDT")
         } else {
          if i < 93 {
           Table::row(2014869600, -18000, 0, "EST")
          } else {
           Table::row(2025759600, -18000, 3600, "EDT")
          }
         }
        }
       } else {
        if i < 97 {
         if i < 95 {
          Table::row(2046319200, -18000, 0, "EST")
         } else {
          if i < 96 {
           Table::row(2057209200, -18000, 3600, "EDT")
          } else {
           Table::row(2077768800, -18000, 0, "EST")
          }
         }
        } else {
         if i < 99 {
          if i < 98 {
           Table::row(2088658800, -18000, 3600, "EDT")
          } else {
           Table::row(2109218400, -18000, 0, "EST")
          }
         } else {
          if i < 100 {
           Table::row(2120108400, -18000, 3600, "EDT")
          } else {
           Table::row(2140668000, -18000, 0, "EST")
          }
         }
        }
       }
      }
     }
    }
}

/// The rows of the table of the zone `America/Indiana/Vincennes`.
pub open spec fn indiana_vincennes_rows() -> spec_fn(int) -> (i64, FixedTimespan) {
    |i: int| indiana_vincennes_row(i)
}

/// The table of the zone `America/Indiana/Vincennes`.
pub open spec fn indiana_vincennes() -> Table {
    Table::listed(Table::row(0, -21007, 0, "LMT").1, 101, indiana_vincennes_rows())
}

/// Row `i` of the table of the zone `America/Indiana/Winamac`.
pub open spec fn indiana_winamac_row(i: int) -> (i64, FixedTimespan) {
    if i < 53 {
     if i < 26 {
      if i < 13 {
       if i < 6 {
        if i < 3 {
         if i < 1 {
          Table::row(-2717647200, -21600, 0, "CST")
         } else {
          if i < 2 {
           Table::row(-1633276800, -21600, 3600, "CDT")
          } else {
           Table::row(-1615136400, -21600, 0, "CST")
          }
         }
        } else {
         if i < 4 {
          Table::row(-1601827200, -21600, 3600, "CDT")
         } else {
          if i < 5 {
           Table::row(-1583686800, -21600, 0, "CST")
          } else {
           Table::row(-880214400, -21600, 3600, "CWT")
          }
         }
        }
       } else {
        if i < 9 {
         if i < 7 {
          Table::row(-769395600, -21600, 3600, "CPT")
         } else {
          if i < 8 {
           Table::row(-765392400, -21600, 0, "CST")
          } else {
           Table::row(-747244800, -21600, 3600, "CDT")
          }
         }
        } else {
         if i < 11 {
          if i < 10 {
           Table::row(-733942800, -21600, 0, "CST")
          } else {
           Table::row(-715795200, -21600, 3600, "CDT")
          }
         } else {
          if i < 12 {
           Table::row(-702493200, -21600, 0, "CST")
          } else {
           Table::row(-684345600, -21600, 3600, "CDT")
          }
         }
        }
       }
      } else {
       if i < 19 {
        if i < 16 {
         if i < 14 {
          Table::row(-671043600, -21600, 0, "CST")
         } else {
          if i < 15 {
           Table::row(-652896000, -21600, 3600, "CDT")
          } else {
           Table::row(-639594000, -21600, 0, "CST")
          }
         }
        } else {
         if i < 17 {
          Table::row(-620841600, -21600, 3600, "CDT")
         } else {
          if i < 18 {
           Table::row(-608144400, -21600, 0, "CST")
          } else {
           Table::row(-589392000, -21600, 3600, "CDT")
          }
         }
        }
       } else {
        if i < 22 {
         if i < 20 {
          Table::row(-576090000, -21600, 0, "CST")
         } else {
          if i < 21 {
           Table::row(-557942400, -21600, 3600, "CDT")
          } else {
           Table::row(-544640400, -21600, 0, "CST")
          }
         }
        } else {
         if i < 24 {
          if i < 23 {
           Table::row(-526492800, -21600, 3600, "CDT")
          } else {
           Table::row(-513190800, -21600, 0, "CST")
          }
         } else {
          if i < 25 {
           Table::row(-495043200, -21600, 3600, "CDT")
          } else {
           Table::row(-481741200, -21600, 0, "CST")
          }
         }
        }
       }
      }
     } else {
      if i < 39 {
       if i < 32 {
        if i < 29 {
         if i < 27 {
          Table::row(-463593600, -21600, 3600, "CDT")
         } else {
          if i < 28 {
           Table::row(-447267600, -21600, 0, "CST")
          } else {
           Table::row(-431539200, -21600, 3600, "CDT")
          }
         }
        } else {
         if i < 30 {
          Table::row(-415818000, -21600, 0, "CST")
         } else {
          if i < 31 {
           Table::row(-400089600, -21600, 3600, "CDT")
          } else {
           Table::row(-386787600, -21600, 0, "CST")
          }
         }
        }
       } else {
        if i < 35 {
         if i < 33 {
          Table::row(-368640000, -21600, 3600, "CDT")
         } else {
          if i < 34 {
           Table::row(-355338000, -21600, 0, "CST")
          } else {
           Table::row(-337190400, -21600, 3600, "CDT")
          }
         }
        } else {
         if i < 37 {
          if i < 36 {
           Table::row(-323888400, -21600, 0, "CST")
          } else {
           Table::row(-305740800, -21600, 3600, "CDT")
          }
         } else {
          if i < 38 {
           Table::row(-292438800, -21600, 0, "CST")
          } else {
           Table::row(-273686400, -18000, 0, "EST")
          }
         }
        }
       }
      } else {
       if i < 46 {
        if i < 42 {
         if i < 40 {
          Table::row(-21488400, -18000, 3600, "EDT")
         } else {
          if i < 41 {
           Table::row(-5767200, -18000, 0, "EST")
          } else {
           Table::row(9961200, -18000, 3600, "EDT")
          }
         }
        } else {
         if i < 44 {
          if i < 43 {
           Table::row(25682400, -18000, 0, "EST")
          } else {
           Table::row(1143961200, -21600, 3600, "CDT")
          }
         } else {
          if i < 45 {
           Table::row(1162105200, -21600, 0, "CST")
          } else {
           Table::row(1173600000, -21600, 7200, "EDT")
          }
         }
        }
       } else {
        if i < 49 {
         if i < 47 {
          Table::row(1194156000, -18000, 0, "EST")
         } else {
          if i < 48 {
           Table::row(1205046000, -18000, 3600, "EDT")
          } else {
           Table::row(1225605600, -18000, 0, "EST")
          }
         }
        } else {
         if i < 51 {
          if i < 50 {
           Table::row(1236495600, -18000, 3600, "EDT")
          } else {
           Table::row(1257055200, -18000, 0, "EST")
          }
         } else {
          if i < 52 {
           Table::row(1268550000, -18000, 3600, "EDT")
          } else {
           Table::row(1289109600, -18000, 0, "EST")
          }
         }
        }
       }
      }
     }
    } else {
     if i < 80 {
      if i < 66 {
       if i < 59 {
        if i < 56 {
         if i < 54 {
          Table::row(1299999600, -18000, 3600, "EDT")
         } else {
          if i < 55 {
           Table::row(1320559200, -18000, 0, "EST")
          } else {
           Table::row(1331449200, -18000, 3600, "EDT")
          }
         }
        } else {
         if i < 57 {
          Table::row(1352008800, -18000, 0, "EST")
         } else {
          if i < 58 {
           Table::row(1362898800, -18000, 3600, "EDT")
          } else {
           Table::row(1383458400, -18000, 0, "EST")
          }
         }
        }
       } else {
        if i < 62 {
         if i < 60 {
          Table::row(1394348400, -18000, 3600, "EDT")
         } else {
          if i < 61 {
           Table::row(1414908000, -18000, 0, "EST")
          } else {
           Table::row(1425798000, -18000, 3600, "EDT")
          }
         }
        } else {
         if i < 64 {
          if i < 63 {
           Table::row(1446357600, -18000, 0, "EST")
          } else {
           Table::row(1457852400, -18000, 3600, "EDT")
          }
         } else {
          if i < 65 {
           Table::row(1478412000, -18000, 0, "EST")
          } else {
           Table::row(1489302000, -18000, 3600, "EDT")
          }
         }
        }
       }
      } else {
       if i < 73 {
        if i < 69 {
         if i < 67 {
          Table::row(1509861600, -18000, 0, "EST")
         } else {
          if i < 68 {
           Table::row(1520751600, -18000, 3600, "EDT")
          } else {
           Table::row(1541311200, -18000, 0, "EST")
          }
         }
        } else {
         if i < 71 {
          if i < 70 {
           Table::row(1552201200, -18000, 3600, "EDT")
          } else {
           Table::row(1572760800, -18000, 0, "EST")
          }
         } else {
          if i < 72 {
           Table::row(1583650800, -18000, 3600, "EDT")
          } else {
           Table::row(1604210400, -18000, 0, "EST")
          }
         }
        }
       } else {
        if i < 76 {
         if i < 74 {
          Table::row(1615705200, -18000, 3600, "EDT")
         } else {
          if i < 75 {
           Table::row(1636264800, -18000, 0, "EST")
          } else {
           Table::row(1647154800, -18000, 3600, "EDT")
          }
         }
        } else {
         if i < 78 {
          if i < 77 {
           Table::row(1667714400, -18000, 0, "EST")
          } else {
           Table::row(1678604400, -18000, 3600, "EDT")
          }
         } else {
          if i < 79 {
           Table::row(1699164000, -18000, 0, "EST")
          } else {
           Table::row(1710054000, -18000, 3600, "EDT")
          }
         }
        }
       }
      }
     } else {
      if i < 93 {
       if i < 86 {
        if i < 83 {
         if i < 81 {
          Table::row(1730613600, -18000, 0, "EST")
         } else {
          if i < 82 {
           Table::row(1741503600, -18000, 3600, "EDT")
          } else {
           Table::row(1762063200, -18000, 0, "EST")
          }
         }
        } else {
         if i < 84 {
          Table::row(1772953200, -18000, 3600, "EDT")
         } else {
          if i < 85 {
           Table::row(1793512800, -18000, 0, "EST")
          } else {
           Table::row(1805007600, -18000, 3600, "EDT")
          }
         }
        }
       } else {
        if i < 89 {
         if i < 87 {
          Table::row(1825567200, -18000, 0, "EST")
         } else {
          if i < 88 {
           Table::row(1836457200, -18000, 3600, "EDT")
          } else {
           Table::row(1857016800, -18000, 0, "EST")
          }
         }
        } else {
         if i < 91 {
          if i < 90 {
           Table::row(1867906800, -18000, 3600, "EDT")
          } else {
           Table::row(1888466400, -18000, 0, "EST")
          }
         } else {
          if i < 92 {
           Table::row(1899356400, -18000, 3600, "EDT")
          } else {
           Table::row(1919916000, -18000, 0, "EST")
          }
         }
        }
       }
      } else {
       if i < 100 {
        if i < 96 {
         if i < 94 {
          Table::row(1930806000, -18000, 3600, "EDT")
         } else {
          if i < 95 {
           Table::row(1951365600, -18000, 0, "EST")
          } else {
           Table::row(1962860400, -18000, 3600, "EDT")
          }
         }
        } else {
         if i < 98 {
          if i < 97 {
           Table::row(1983420000, -18000, 0, "EST")
          } else {
           Table::row(1994310000, -18000, 3600, "EDT")
          }
         } else {
          if i < 99 {
           Table::row(2014869600, -18000, 0, "EST")
          } else {
           Table::row(2025759600, -18000, 3600, "EDT")
          }
         }
        }
       } else {
        if i < 103 {
         if i < 101 {
          Table::row(2046319200, -18000, 0, "EST")
         } else {
          if i < 102 {
           Table::row(2057209200, -18000, 3600, "EDT")
          } else {
           Table::row(2077768800, -18000, 0, "EST")
          }
         }
        } else {
         if i < 105 {
          if i < 104 {
           Table::row(2088658800, -18000, 3600, "EDT")
          } else {
           Table::row(2109218400, -18000, 0, "EST")
          }
         } else {
          if i < 106 {
           Table::row(2120108400, -18000, 3600, "EDT")
          } else {
           Table::row(2140668000, -18000, 0, "EST")
          }
         }
        }
       }
      }
     }
    }
}

/// The rows of the table of the zone `America/Indiana/Winamac`.
pub open spec fn indiana_winamac_rows() -> spec_fn(int) -> (i64, FixedTimespan) {
    |i: int| indiana_winamac_row(i)
}

/// The table of the zone `America/Indiana/Winamac`.
pub open spec fn indiana_winamac() -> Table {
    Table::listed(Table::row(0, -20785, 0, "LMT").1, 107, indiana_winamac_rows())
}

/// Row `i` of the table of the zone `America/Indianapolis`.
pub open spec fn indianapolis_row(i: int) -> (i64, FixedTimespan) {
    if i < 49 {
     if i < 24 {
      if i < 12 {
       if i < 6 {
        if i < 3 {
         if i < 1 {
          Table::row(-2717647200, -21600, 0, "CST")
         } else {
          if i < 2 {
           Table::row(-1633276800, -21600, 3600, "CDT")
          } else {
           Table::row(-1615136400, -21600, 0, "CST")
          }
         }
        } else {
         if i < 4 {
          Table::row(-1601827200, -21600, 3600, "CDT")
         } else {
          if i < 5 {
           Table::row(-1583686800, -21600, 0, "CST")
          } else {
           Table::row(-900259200, -21600, 3600, "CDT")
          }
         }
        }
       } else {
        if i < 9 {
         if i < 7 {
          Table::row(-891795600, -21600, 0, "CST")
         } else {
          if i < 8 {
           Table::row(-880214400, -21600, 3600, "CWT")
          } else {
           Table::row(-769395600, -21600, 3600, "CPT")
          }
         }
        } else {
         if i < 10 {
          Table::row(-765392400, -21600, 0, "CST")
         } else {
          if i < 11 {
           Table::row(-747244800, -21600, 3600, "CDT")
          } else {
           Table::row(-733942800, -21600, 0, "CST")
          }
         }
        }
       }
      } else {
       if i < 18 {
        if i < 15 {
         if i < 13 {
          Table::row(-715795200, -21600, 3600, "CDT")
         } else {
          if i < 14 {
           Table::row(-702493200, -21600, 0, "CST")
          } else {
           Table::row(-684345600, -21600, 3600, "CDT")
          }
         }
        } else {
         if i < 16 {
          Table::row(-671043600, -21600, 0, "CST")
         } else {
          if i < 17 {
           Table::row(-652896000, -21600, 3600, "CDT")
          } else {
           Table::row(-639594000, -21600, 0, "CST")
          }
         }
        }
       } else {
        if i < 21 {
         if i < 19 {
          Table::row(-620841600, -21600, 3600, "CDT")
         } else {
          if i < 20 {
           Table::row(-608144400, -21600, 0, "CST")
          } else {
           Table::row(-589392000, -21600, 3600, "CDT")
          }
         }
        } else {
         if i < 22 {
          Table::row(-576090000, -21600, 0, "CST")
         } else {
          if i < 23 {
           Table::row(-557942400, -21600, 3600, "CDT")
          } else {
           Table::row(-544640400, -21600, 0, "CST")
          }
         }
        }
       }
      }
     } else {
      if i < 36 {
       if i < 30 {
        if i < 27 {
         if i < 25 {
          Table::row(-526492800, -21600, 3600, "CDT")
         } else {
          if i < 26 {
           Table::row(-513190800, -21600, 0, "CST")
          } else {
           Table::row(-495043200, -21600, 3600, "CDT")
          }
         }
        } else {
         if i < 28 {
          Table::row(-481741200, -21600, 0, "CST")
         } else {
          if i < 29 {
           Table::row(-463593600, -18000, 0, "EST")
          } else {
           Table::row(-386787600, -21600, 0, "CST")
          }
         }
        }
       } else {
        if i < 33 {
         if i < 31 {
          Table::row(-368640000, -18000, 0, "EST")
         } else {
          if i < 32 {
           Table::row(-21488400, -18000, 3600, "EDT")
          } else {
           Table::row(-5767200, -18000, 0, "EST")
          }
         }
        } else {
         if i < 34 {
          Table::row(9961200, -18000, 3600, "EDT")
         } else {
          if i < 35 {
           Table::row(25682400, -18000, 0, "EST")
          } else {
           Table::row(1143961200, -18000, 3600, "EDT")
          }
         }
        }
       }
      } else {
       if i < 42 {
        if i < 39 {
         if i < 37 {
          Table::row(1162101600, -18000, 0, "EST")
         } else {
          if i < 38 {
           Table::row(1173596400, -18000, 3600, "EDT")
          } else {
           Table::row(1194156000, -18000, 0, "EST")
          }
         }
        } else {
         if i < 40 {
          Table::row(1205046000, -18000, 3600, "EDT")
         } else {
          if i < 41 {
           Table::row(1225605600, -18000, 0, "EST")
          } else {
           Table::row(1236495600, -18000, 3600, "EDT")
          }
         }
        }
       } else {
        if i < 45 {
         if i < 43 {
          Table::row(1257055200, -18000, 0, "EST")
         } else {
          if i < 44 {
           Table::row(1268550000, -18000, 3600, "EDT")
          } else {
           Table::row(1289109600, -18000, 0, "EST")
          }
         }
        } else {
         if i < 47 {
          if i < 46 {
           Table::row(1299999600, -18000, 3600, "EDT")
          } else {
           Table::row(1320559200, -18000, 0, "EST")
          }
         } else {
          if i < 48 {
           Table::row(1331449200, -18000, 3600, "EDT")
          } else {
           Table::row(1352008800, -18000, 0, "EST")
          }
         }
        }
       }
      }
     }
    } else {
     if i < 74 {
      if i < 61 {
       if i < 55 {
        if i < 52 {
         if i < 50 {
          Table::row(1362898800, -18000, 3600, "EDT")
         } else {
          if i < 51 {
           Table::row(1383458400, -18000, 0, "EST")
          } else {
           Table::row(1394348400, -18000, 3600, "EDT")
          }
         }
        } else {
         if i < 53 {
          Table::row(1414908000, -18000, 0, "EST")
         } else {
          if i < 54 {
           Table::row(1425798000, -18000, 3600, "EDT")
          } else {
           Table::row(1446357600, -18000, 0, "EST")
          }
         }
        }
       } else {
        if i < 58 {
         if i < 56 {
          Table::row(1457852400, -18000, 3600, "EDT")
         } else {
          if i < 57 {
           Table::row(1478412000, -18000, 0, "EST")
          } else {
           Table::row(1489302000, -18000, 3600, "EDT")
          }
         }
        } else {
         if i < 59 {
          Table::row(1509861600, -18000, 0, "EST")
         } else {
          if i < 60 {
           Table::row(1520751600, -18000, 3600, "EDT")
          } else {
           Table::row(1541311200, -18000, 0, "EST")
          }
         }
        }
       }
      } else {
       if i < 67 {
        if i < 64 {
         if i < 62 {
          Table::row(1552201200, -18000, 3600, "EDT")
         } else {
          if i < 63 {
           Table::row(1572760800, -18000, 0, "EST")
          } else {
           Table::row(1583650800, -18000, 3600, "EDT")
          }
         }
        } else {
         if i < 65 {
          Table::row(1604210400, -18000, 0, "EST")
         } else {
          if i < 66 {
           Table::row(1615705200, -18000, 3600, "EDT")
          } else {
           Table::row(1636264800, -18000, 0, "EST")
          }
         }
        }
       } else {
        if i < 70 {
         if i < 68 {
          Table::row(1647154800, -18000, 3600, "EDT")
         } else {
          if i < 69 {
           Table::row(1667714400, -18000, 0, "EST")
          } else {
           Table::row(1678604400, -18000, 3600, "EDT")
          }
         }
        } else {
         if i < 72 {
          if i < 71 {
           Table::row(1699164000, -18000, 0, "EST")
          } else {
           Table::row(1710054000, -18000, 3600, "EDT")
          }
         } else {
          if i < 73 {
           Table::row(1730613600, -18000, 0, "EST")
          } else {
           Table::row(1741503600, -18000, 3600, "EDT")
          }
         }
        }
       }
      }
     } else {
      if i < 86 {
       if i < 80 {
        if i < 77 {
         if i < 75 {
          Table::row(1762063200, -18000, 0, "EST")
         } else {
          if i < 76 {
           Table::row(1772953200, -18000, 3600, "EDT")
          } else {
           Table::row(1793512800, -18000, 0, "EST")
          }
         }
        } else {
         if i < 78 {
          Table::row(1805007600, -18000, 3600, "EDT")
         } else {
          if i < 79 {
           Table::row(1825567200, -18000, 0, "EST")
          } else {
           Table::row(1836457200, -18000, 3600, "EDT")
          }
         }
        }
       } else {
        if i < 83 {
         if i < 81 {
          Table::row(1857016800, -18000, 0, "EST")
         } else {
          if i < 82 {
           Table::row(1867906800, -18000, 3600, "EDT")
          } else {
           Table::row(1888466400, -18000, 0, "EST")
          }
         }
        } else {
         if i < 84 {
          Table::row(1899356400, -18000, 3600, "EDT")
         } else {
          if i < 85 {
           Table::row(1919916000, -18000, 0, "EST")
          } else {
           Table::row(1930806000, -18000, 3600, "EDT")
          }
         }
        }
       }
      } else {
       if i < 92 {
        if i < 89 {
         if i < 87 {
          Table::row(1951365600, -18000, 0, "EST")
         } else {
          if i < 88 {
           Table::row(1962860400, -18000, 3600, "EDT")
          } else {
           Table::row(1983420000, -18000, 0, "EST")
          }
         }
        } else {
         if i < 90 {
          Table::row(1994310000, -18000, 3600, "EDT")
         } else {
          if i < 91 {
           Table::row(2014869600, -18000, 0, "EST")
          } else {
           Table::row(2025759600, -18000, 3600, "EDT")
          }
         }
        }
       } else {
        if i < 95 {
         if i < 93 {
          Table::row(2046319200, -18000, 0, "EST")
         } else {
          if i < 94 {
           Table::row(2057209200, -18000, 3600, "EDT")
          } else {
           Table::row(2077768800, -18000, 0, "EST")
          }
         }
        } else {
         if i < 97 {
          if i < 96 {
           Table::row(2088658800, -18000, 3600, "EDT")
          } else {
           Table::row(2109218400, -18000, 0, "EST")
          }
         } else {
          if i < 98 {
           Table::row(2120108400, -18000, 3600, "EDT")
          } else {
           Table::row(2140668000, -18000, 0, "EST")
          }
         }
        }
       }
      }
     }
    }
}

/// The rows of the table of the zone `America/Indianapolis`.
pub open spec fn indianapolis_rows() -> spec_fn(int) -> (i64, FixedTimespan) {
    |i: int| indianapolis_row(i)
}

/// The table of the zone `America/Indianapolis`.
pub open spec fn indianapolis() -> Table {
    Table::listed(Table::row(0, -20678, 0, "LMT").1, 99, indianapolis_rows())
}

/// Row `i` of the table of the zone `America/Inuvik`.
pub open spec fn inuvik_row(i: int) -> (i64, FixedTimespan) {
    if i < 66 {
     if i < 33 {
      if i < 16 {
       if i < 8 {
        if i < 4 {
         if i < 2 {
          if i < 1 {
           Table::row(-536457600, -28800, 0, "PST")
          } else {
           Table::row(73476000, -28800, 3600, "PDT")
          }
         } else {
          if i < 3 {
           Table::row(89197200, -28800, 0, "PST")
          } else {
           Table::row(104925600, -28800, 3600, "PDT")
          }
         }
        } else {
         if i < 6 {
          if i < 5 {
           Table::row(120646800, -28800, 0, "PST")
          } else {
           Table::row(136375200, -28800, 3600, "PDT")
          }
         } else {
          if i < 7 {
           Table::row(152096400, -28800, 0, "PST")
          } else {
           Table::row(167824800, -28800, 3600, "PDT")
          }
         }
        }
       } else {
        if i < 12 {
         if i < 10 {
          if i < 9 {
           Table::row(183546000, -28800, 0, "PST")
          } else {
           Table::row(199274400, -28800, 3600, "PDT")
          }
         } else {
          if i < 11 {
           Table::row(215600400, -28800, 0, "PST")
          } else {
           Table::row(230724000, -28800, 3600, "PDT")
          }
         }
        } else {
         if i < 14 {
          if i < 13 {
           Table::row(247050000, -28800, 0, "PST")
          } else {
           Table::row(262778400, -28800, 3600, "PDT")
          }
         } else {
          if i < 15 {
           Table::row(278499600, -28800, 0, "PST")
          } else {
           Table::row(294228000, -28800, 7200, "MDT")
          }
         }
        }
       }
      } else {
       if i < 24 {
        if i < 20 {
         if i < 18 {
          if i < 17 {
           Table::row(309945600, -25200, 0, "MST")
          } else {
           Table::row(325674000, -25200, 3600, "MDT")
          }
         } else {
          if i < 19 {
           Table::row(341395200, -25200, 0, "MST")
          } else {
           Table::row(357123600, -25200, 3600, "MDT")
          }
         }
        } else {
         if i < 22 {
          if i < 21 {
           Table::row(372844800, -25200, 0, "MST")
          } else {
           Table::row(388573200, -25200, 3600, "MDT")
          }
         } else {
          if i < 23 {
           Table::row(404899200, -25200, 0, "MST")
          } else {
           Table::row(420022800, -25200, 3600, "MDT")
          }
         }
        }
       } else {
        if i < 28 {
         if i < 26 {
          if i < 25 {
           Table::row(436348800, -25200, 0, "MST")
          } else {
           Table::row(452077200, -25200, 3600, "MDT")
          }
         } else {
          if i < 27 {
           Table::row(467798400, -25200, 0, "MST")
          } else {
           Table::row(483526800, -25200, 3600, "MDT")
          }
         }
        } else {
         if i < 30 {
          if i < 29 {
           Table::row(499248000, -25200, 0, "MST")
          } else {
           Table::row(514976400, -25200, 3600, "MDT")
          }
         } else {
          if i < 31 {
           Table::row(530697600, -25200, 0, "MST")
          } else {
           if i < 32 {
            Table::row(544611600, -25200, 3600, "MDT")
           } else {
            Table::row(562147200, -25200, 0, "MST")
           }
          }
         }
        }
       }
      }
     } else {
      if i < 49 {
       if i < 41 {
        if i < 37 {
         if i < 35 {
          if i < 34 {
           Table::row(576061200, -25200, 3600, "MDT")
          } else {
           Table::row(594201600, -25200, 0, "MST")
          }
         } else {
          if i < 36 {
           Table::row(607510800, -25200, 3600, "MDT")
          } else {
           Table::row(625651200, -25200, 0, "MST")
          }
         }
        } else {
         if i < 39 {
          if i < 38 {
           Table::row(638960400, -25200, 3600, "MDT")
          } else {
           Table::row(657100800, -25200, 0, "MST")
          }
         } else {
          if i < 40 {
           Table::row(671014800, -25200, 3600, "MDT")
          } else {
           Table::row(688550400, -25200, 0, "MST")
          }
         }
        }
       } else {
        if i < 45 {
         if i < 43 {
          if i < 42 {
           Table::row(702464400, -25200, 3600, "MDT")
          } else {
           Table::row(720000000, -25200, 0, "MST")
          }
         } else {
          if i < 44 {
           Table::row(733914000, -25200, 3600, "MDT")
          } else {
           Table::row(752054400, -25200, 0, "MST")
          }
         }
        } else {
         if i < 47 {
          if i < 46 {
           Table::row(765363600, -25200, 3600, "MDT")
          } else {
           Table::row(783504000, -25200, 0, "MST")
          }
         } else {
          if i < 48 {
           Table::row(796813200, -25200, 3600, "MDT")
          } else {
           Table::row(814953600, -25200, 0, "MST")
          }
         }
        }
       }
      } else {
       if i < 57 {
        if i < 53 {
         if i < 51 {
          if i < 50 {
           Table::row(828867600, -25200, 3600, "MDT")
          } else {
           Table::row(846403200, -25200, 0, "MST")
          }
         } else {
          if i < 52 {
           Table::row(860317200, -25200, 3600, "MDT")
          } else {
           Table::row(877852800, -25200, 0, "MST")
          }
         }
        } else {
         if i < 55 {
          if i < 54 {
           Table::row(891766800, -25200, 3600, "MDT")
          } else {
           Table::row(909302400, -25200, 0, "MST")
          }
         } else {
          if i < 56 {
           Table::row(923216400, -25200, 3600, "MDT")
          } else {
           Table::row(941356800, -25200, 0, "MST")
          }
         }
        }
       } else {
        if i < 61 {
         if i < 59 {
          if i < 58 {
           Table::row(954666000, -25200, 3600, "MDT")
          } else {
           Table::row(972806400, -25200, 0, "MST")
          }
         } else {
          if i < 60 {
           Table::row(986115600, -25200, 3600, "MDT")
          } else {
           Table::row(1004256000, -25200, 0, "MST")
          }
         }
        } else {
         if i < 63 {
          if i < 62 {
           Table::row(1018170000, -25200, 3600, "MDT")
          } else {
           Table::row(1035705600, -25200, 0, "MST")
          }
         } else {
          if i < 64 {
           Table::row(1049619600, -25200, 3600, "MDT")
          } else {
           if i < 65 {
            Table::row(1067155200, -25200, 0, "MST")
           } else {
            Table::row(1081069200, -25200, 3600, "MDT")
           }
          }
         }
        }
       }
      }
     }
    } else {
     if i < 99 {
      if i < 82 {
       if i < 74 {
        if i < 70 {
         if i < 68 {
          if i < 67 {
           Table::row(1099209600, -25200, 0, "MST")
          } else {
           Table::row(1112518800, -25200, 3600, "MDT")
          }
         } else {
          if i < 69 {
           Table::row(1130659200, -25200, 0, "MST")
          } else {
           Table::row(1143968400, -25200, 3600, "MDT")
          }
         }
        } else {
         if i < 72 {
          if i < 71 {
           Table::row(1162108800, -25200, 0, "MST")
          } else {
           Table::row(1173603600, -25200, 3600, "MDT")
          }
         } else {
          if i < 73 {
           Table::row(1194163200, -25200, 0, "MST")
          } else {
           Table::row(1205053200, -25200, 3600, "MDT")
          }
         }
        }
       } else {
        if i < 78 {
         if i < 76 {
          if i < 75 {
           Table::row(1225612800, -25200, 0, "MST")
          } else {
           Table::row(1236502800, -25200, 3600, "MDT")
          }
         } else {
          if i < 77 {
           Table::row(1257062400, -25200, 0, "MST")
          } else {
           Table::row(1268557200, -25200, 3600, "MDT")
          }
         }
        } else {
         if i < 80 {
          if i < 79 {
           Table::row(1289116800, -25200, 0, "MST")
          } else {
           Table::row(1300006800, -25200, 3600, "MDT")
          }
         } else {
          if i < 81 {
           Table::row(1320566400, -25200, 0, "MST")
          } else {
           Table::row(1331456400, -25200, 3600, "MDT")
          }
         }
        }
       }
      } else {
       if i < 90 {
        if i < 86 {
         if i < 84 {
          if i < 83 {
           Table::row(1352016000, -25200, 0, "MST")
          } else {
           Table::row(1362906000, -25200, 3600, "MDT")
          }
         } else {
          if i < 85 {
           Table::row(1383465600, -25200, 0, "MST")
          } else {
           Table::row(1394355600, -25200, 3600, "MDT")
          }
         }
        } else {
         if i < 88 {
          if i < 87 {
           Table::row(1414915200, -25200, 0, "MST")
          } else {
           Table::row(1425805200, -25200, 3600, "MDT")
          }
         } else {
          if i < 89 {
           Table::row(1446364800, -25200, 0, "MST")
          } else {
           Table::row(1457859600, -25200, 3600, "MDT")
          }
         }
        }
       } else {
        if i < 94 {
         if i < 92 {
          if i < 91 {
           Table::row(1478419200, -25200, 0, "MST")
          } else {
           Table::row(1489309200, -25200, 3600, "MDT")
          }
         } else {
          if i < 93 {
           Table::row(1509868800, -25200, 0, "MST")
          } else {
           Table::row(1520758800, -25200, 3600, "MDT")
          }
         }
        } else {
         if i < 96 {
          if i < 95 {
           Table::row(1541318400, -25200, 0, "MST")
          } else {
           Table::row(1552208400, -25200, 3600, "MDT")
          }
         } else {
          if i < 97 {
           Table::row(1572768000, -25200, 0, "MST")
          } else {
           if i < 98 {
            Table::row(1583658000, -25200, 3600, "MDT")
           } else {
            Table::row(1604217600, -25200, 0, "MST")
           }
          }
         }
        }
       }
      }
     } else {
      if i < 116 {
       if i < 107 {
        if i < 103 {
         if i < 101 {
          if i < 100 {
           Table::row(1615712400, -25200, 3600, "MDT")
          } else {
           Table::row(1636272000, -25200, 0, "MST")
          }
         } else {
          if i < 102 {
           Table::row(1647162000, -25200, 3600, "MDT")
          } else {
           Table::row(1667721600, -25200, 0, "MST")
          }
         }
        } else {
         if i < 105 {
          if i < 104 {
           Table::row(1678611600, -25200, 3600, "MDT")
          } else {
           Table::row(1699171200, -25200, 0, "MST")
          }
         } else {
          if i < 106 {
           Table::row(1710061200, -25200, 3600, "MDT")
          } else {
           Table::row(1730620800, -25200, 0, "MST")
          }
         }
        }
       } else {
        if i < 111 {
         if i < 109 {
          if i < 108 {
           Table::row(1741510800, -25200, 3600, "MDT")
          } else {
           Table::row(1762070400, -25200, 0, "MST")
          }
         } else {
          if i < 110 {
           Table::row(1772960400, -25200, 3600, "MDT")
          } else {
           Table::row(1793520000, -25200, 0, "MST")
          }
         }
        } else {
         if i < 113 {
          if i < 112 {
           Table::row(1805014800, -25200, 3600, "MDT")
          } else {
           Table::row(1825574400, -25200, 0, "MST")
          }
         } else {
          if i < 114 {
           Table::row(1836464400, -25200, 3600, "MDT")
          } else {
           if i < 115 {
            Table::row(1857024000, -25200, 0, "MST")
           } else {
            Table::row(1867914000, -25200, 3600, "MDT")
           }
          }
         }
        }
       }
      } else {
       if i < 124 {
        if i < 120 {
         if i < 118 {
          if i < 117 {
           Table::row(1888473600, -25200, 0, "MST")
          } else {
           Table::row(1899363600, -25200, 3600, "MDT")
          }
         } else {
          if i < 119 {
           Table::row(1919923200, -25200, 0, "MST")
          } else {
           Table::row(1930813200, -25200, 3600, "MDT")
          }
         }
        } else {
         if i < 122 {
          if i < 121 {
           Table::row(1951372800, -25200, 0, "MST")
          } else {
           Table::row(1962867600, -25200, 3600, "MDT")
          }
         } else {
          if i < 123 {
           Table::row(1983427200, -25200, 0, "MST")
          } else {
           Table::row(1994317200, -25200, 3600, "MDT")
          }
         }
        }
       } else {
        if i < 128 {
         if i < 126 {
          if i < 125 {
           Table::row(2014876800, -25200, 0, "MST")
          } else {
           Table::row(2025766800, -25200, 3600, "MDT")
          }
         } else {
          if i < 127 {
           Table::row(2046326400, -25200, 0, "MST")
          } else {
           Table::row(2057216400, -25200, 3600, "MDT")
          }
         }
        } else {
         if i < 130 {
          if i < 129 {
           Table::row(2077776000, -25200, 0, "MST")
          } else {
           Table::row(2088666000, -25200, 3600, "MDT")
          }
         } else {
          if i < 131 {
           Table::row(2109225600, -25200, 0, "MST")
          } else {
           if i < 132 {
            Table::row(2120115600, -25200, 3600, "MDT")
           } else {
            Table::row(2140675200, -25200, 0, "MST")
           }
          }
         }
        }
       }
      }
     }
    }
}

/// The rows of the table of the zone `America/Inuvik`.
pub open spec fn inuvik_rows() -> spec_fn(int) -> (i64, FixedTimespan) {
    |i: int| inuvik_row(i)
}

/// The table of the zone `America/Inuvik`.
pub open spec fn inuvik() -> Table {
    Table::listed(Table::row(0, 0, 0, "-00").1, 133, inuvik_rows())
}

/// Row `i` of the table of the zone `America/Iqaluit`.
pub open spec fn iqaluit_row(i: int) -> (i64, FixedTimespan) {
    if i < 67 {
     if i < 33 {
      if i < 16 {
       if i < 8 {
        if i < 4 {
         if i < 2 {
          if i < 1 {
           Table::row(-865296000, -18000, 3600, "EWT")
          } else {
           Table::row(-769395600, -18000, 3600, "EPT")
          }
         } else {
          if i < 3 {
           Table::row(-765396000, -18000, 0, "EST")
          } else {
           Table::row(73465200, -18000, 3600, "EDT")
          }
         }
        } else {
         if i < 6 {
          if i < 5 {
           Table::row(89186400, -18000, 0, "EST")
          } else {
           Table::row(104914800, -18000, 3600, "EDT")
          }
         } else {
          if i < 7 {
           Table::row(120636000, -18000, 0, "EST")
          } else {
           Table::row(136364400, -18000, 3600, "EDT")
          }
         }
        }
       } else {
        if i < 12 {
         if i < 10 {
          if i < 9 {
           Table::row(152085600, -18000, 0, "EST")
          } else {
           Table::row(167814000, -18000, 3600, "EDT")
          }
         } else {
          if i < 11 {
           Table::row(183535200, -18000, 0, "EST")
          } else {
           Table::row(199263600, -18000, 3600, "EDT")
          }
         }
        } else {
         if i < 14 {
          if i < 13 {
           Table::row(215589600, -18000, 0, "EST")
          } else {
           Table::row(230713200, -18000, 3600, "EDT")
          }
         } else {
          if i < 15 {
           Table::row(247039200, -18000, 0, "EST")
          } else {
           Table::row(262767600, -18000, 3600, "EDT")
          }
         }
        }
       }
      } else {
       if i < 24 {
        if i < 20 {
         if i < 18 {
          if i < 17 {
           Table::row(278488800, -18000, 0, "EST")
          } else {
           Table::row(294217200, -18000, 3600, "EDT")
          }
         } else {
          if i < 19 {
           Table::row(309938400, -18000, 0, "EST")
          } else {
           Table::row(325666800, -18000, 3600, "EDT")
          }
         }
        } else {
         if i < 22 {
          if i < 21 {
           Table::row(341388000, -18000, 0, "EST")
          } else {
           Table::row(357116400, -18000, 3600, "EDT")
          }
         } else {
          if i < 23 {
           Table::row(372837600, -18000, 0, "EST")
          } else {
           Table::row(388566000, -18000, 3600, "EDT")
          }
         }
        }
       } else {
        if i < 28 {
         if i < 26 {
          if i < 25 {
           Table::row(404892000, -18000, 0, "EST")
          } else {
           Table::row(420015600, -18000, 3600, "EDT")
          }
         } else {
          if i < 27 {
           Table::row(436341600, -18000, 0, "EST")
          } else {
           Table::row(452070000, -18000, 3600, "EDT")
          }
         }
        } else {
         if i < 30 {
          if i < 29 {
           Table::row(467791200, -18000, 0, "EST")
          } else {
           Table::row(483519600, -18000, 3600, "EDT")
          }
         } else {
          if i < 31 {
           Table::row(499240800, -18000, 0, "EST")
          } else {
           if i < 32 {
            Table::row(514969200, -18000, 3600, "EDT")
           } else {
            Table::row(530690400, -18000, 0, "EST")
           }
          }
         }
        }
       }
      }
     } else {
      if i < 50 {
       if i < 41 {
        if i < 37 {
         if i < 35 {
          if i < 34 {
           Table::row(544604400, -18000, 3600, "EDT")
          } else {
           Table::row(562140000, -18000, 0, "EST")
          }
         } else {
          if i < 36 {
           Table::row(576054000, -18000, 3600, "EDT")
          } else {
           Table::row(594194400, -18000, 0, "EST")
          }
         }
        } else {
         if i < 39 {
          if i < 38 {
           Table::row(607503600, -18000, 3600, "EDT")
          } else {
           Table::row(625644000, -18000, 0, "EST")
          }
         } else {
          if i < 40 {
           Table::row(638953200, -18000, 3600, "EDT")
          } else {
           Table::row(657093600, -18000, 0, "EST")
          }
         }
        }
       } else {
        if i < 45 {
         if i < 43 {
          if i < 42 {
           Table::row(671007600, -18000, 3600, "EDT")
          } else {
           Table::row(688543200, -18000, 0, "EST")
          }
         } else {
          if i < 44 {
           Table::row(702457200, -18000, 3600, "EDT")
          } else {
           Table::row(719992800, -18000, 0, "EST")
          }
         }
        } else {
         if i < 47 {
          if i < 46 {
           Table::row(733906800, -18000, 3600, "EDT")
          } else {
           Table::row(752047200, -18000, 0, "EST")
          }
         } else {
          if i < 48 {
           Table::row(765356400, -18000, 3600, "EDT")
          } else {
           if i < 49 {
            Table::row(783496800, -18000, 0, "EST")
           } else {
            Table::row(796806000, -18000, 3600, "EDT")
           }
          }
         }
        }
       }
      } else {
       if i < 58 {
        if i < 54 {
         if i < 52 {
          if i < 51 {
           Table::row(814946400, -18000, 0, "EST")
          } else {
           Table::row(828860400, -18000, 3600, "EDT")
          }
         } else {
          if i < 53 {
           Table::row(846396000, -18000, 0, "EST")
          } else {
           Table::row(860310000, -18000, 3600, "EDT")
          }
         }
        } else {
         if i < 56 {
          if i < 55 {
           Table::row(877845600, -18000, 0, "EST")
          } else {
           Table::row(891759600, -18000, 3600, "EDT")
          }
         } else {
          if i < 57 {
           Table::row(909295200, -18000, 0, "EST")
          } else {
           Table::row(923209200, -18000, 3600, "EDT")
          }
         }
        }
       } else {
        if i < 62 {
         if i < 60 {
          if i < 59 {
           Table::row(941349600, -21600, 0, "CST")
          } else {
           Table::row(954662400, -21600, 3600, "CDT")
          }
         } else {
          if i < 61 {
           Table::row(972802800, -18000, 0, "EST")
          } else {
           Table::row(986108400, -18000, 3600, "EDT")
          }
         }
        } else {
         if i < 64 {
          if i < 63 {
           Table::row(1004248800, -18000, 0, "EST")
          } else {
           Table::row(1018162800, -18000, 3600, "EDT")
          }
         } else {
          if i < 65 {
           Table::row(1035698400, -18000, 0, "EST")
          } else {
           if i < 66 {
            Table::row(1049612400, -18000, 3600, "EDT")
           } else {
            Table::row(1067148000, -18000, 0, "EST")
           }
          }
         }
        }
       }
      }
     }
    } else {
     if i < 101 {
      if i < 84 {
       if i < 75 {
        if i < 71 {
         if i < 69 {
          if i < 68 {
           Table::row(1081062000, -18000, 3600, "EDT")
          } else {
           Table::row(1099202400, -18000, 0, "EST")
          }
         } else {
          if i < 70 {
           Table::row(1112511600, -18000, 3600, "EDT")
          } else {
           Table::row(1130652000, -18000, 0, "EST")
          }
         }
        } else {
         if i < 73 {
          if i < 72 {
           Table::row(1143961200, -18000, 3600, "EDT")
          } else {
           Table::row(1162101600, -18000, 0, "EST")
          }
         } else {
          if i < 74 {
           Table::row(1173596400, -18000, 3600, "EDT")
          } else {
           Table::row(1194156000, -18000, 0, "EST")
          }
         }
        }
       } else {
        if i < 79 {
         if i < 77 {
          if i < 76 {
           Table::row(1205046000, -18000, 3600, "EDT")
          } else {
           Table::row(1225605600, -18000, 0, "EST")
          }
         } else {
          if i < 78 {
           Table::row(1236495600, -18000, 3600, "EDT")
          } else {
           Table::row(1257055200, -18000, 0, "EST")
          }
         }
        } else {
         if i < 81 {
          if i < 80 {
           Table::row(1268550000, -18000, 3600, "EDT")
          } else {
           Table::row(1289109600, -18000, 0, "EST")
          }
         } else {
          if i < 82 {
           Table::row(1299999600, -18000, 3600, "EDT")
          } else {
           if i < 83 {
            Table::row(1320559200, -18000, 0, "EST")
           } else {
            Table::row(1331449200, -18000, 3600, "EDT")
           }
          }
         }
        }
       }
      } else {
       if i < 92 {
        if i < 88 {
         if i < 86 {
          if i < 85 {
           Table::row(1352008800, -18000, 0, "EST")
          } else {
           Table::row(1362898800, -18000, 3600, "EDT")
          }
         } else {
          if i < 87 {
           Table::row(1383458400, -18000, 0, "EST")
          } else {
           Table::row(1394348400, -18000, 3600, "EDT")
          }
         }
        } else {
         if i < 90 {
          if i < 89 {
           Table::row(1414908000, -18000, 0, "EST")
          } else {
           Table::row(1425798000, -18000, 3600, "EDT")
          }
         } else {
          if i < 91 {
           Table::row(1446357600, -18000, 0, "EST")
          } else {
           Table::row(1457852400, -18000, 3600, "EDT")
          }
         }
        }
       } else {
        if i < 96 {
         if i < 94 {
          if i < 93 {
           Table::row(1478412000, -18000, 0, "EST")
          } else {
           Table::row(1489302000, -18000, 3600, "EDT")
          }
         } else {
          if i < 95 {
           Table::row(1509861600, -18000, 0, "EST")
          } else {
           Table::row(1520751600, -18000, 3600, "EDT")
          }
         }
        } else {
         if i < 98 {
          if i < 97 {
           Table::row(1541311200, -18000, 0, "EST")
          } else {
           Table::row(1552201200, -18000, 3600, "EDT")
          }
         } else {
          if i < 99 {
           Table::row(1572760800, -18000, 0, "EST")
          } else {
           if i < 100 {
            Table::row(1583650800, -18000, 3600, "EDT")
           } else {
            Table::row(1604210400, -18000, 0, "EST")
           }
          }
         }
        }
       }
      }
     } else {
      if i < 118 {
       if i < 109 {
        if i < 105 {
         if i < 103 {
          if i < 102 {
           Table::row(1615705200, -18000, 3600, "EDT")
          } else {
           Table::row(1636264800, -18000, 0, "EST")
          }
         } else {
          if i < 104 {
           Table::row(1647154800, -18000, 3600, "EDT")
          } else {
           Table::row(1667714400, -18000, 0, "EST")
          }
         }
        } else {
         if i < 107 {
          if i < 106 {
           Table::row(1678604400, -18000, 3600, "EDT")
          } else {
           Table::row(1699164000, -18000, 0, "EST")
          }
         } else {
          if i < 108 {
           Table::row(1710054000, -18000, 3600, "EDT")
          } else {
           Table::row(1730613600, -18000, 0, "EST")
          }
         }
        }
       } else {
        if i < 113 {
         if i < 111 {
          if i < 110 {
           Table::row(1741503600, -18000, 3600, "EDT")
          } else {
           Table::row(1762063200, -18000, 0, "EST")
          }
         } else {
          if i < 112 {
           Table::row(1772953200, -18000, 3600, "EDT")
          } else {
           Table::row(1793512800, -18000, 0, "EST")
          }
         }
        } else {
         if i < 115 {
          if i < 114 {
           Table::row(1805007600, -18000, 3600, "EDT")
          } else {
           Table::row(1825567200, -18000, 0, "EST")
          }
         } else {
          if i < 116 {
           Table::row(1836457200, -18000, 3600, "EDT")
          } else {
           if i < 117 {
            Table::row(1857016800, -18000, 0, "EST")
           } else {
            Table::row(1867906800, -18000, 3600, "EDT")
           }
          }
         }
        }
       }
      } else {
       if i < 126 {
        if i < 122 {
         if i < 120 {
          if i < 119 {
           Table::row(1888466400, -18000, 0, "EST")
          } else {
           Table::row(1899356400, -18000, 3600, "EDT")
          }
         } else {
          if i < 121 {
           Table::row(1919916000, -18000, 0, "EST")
          } else {
           Table::row(1930806000, -18000, 3600, "EDT")
          }
         }
        } else {
         if i < 124 {
          if i < 123 {
           Table::row(1951365600, -18000, 0, "EST")
          } else {
           Table::row(1962860400, -18000, 3600, "EDT")
          }
         } else {
          if i < 125 {
           Table::row(1983420000, -18000, 0, "EST")
          } else {
           Table::row(1994310000, -18000, 3600, "EDT")
          }
         }
        }
       } else {
        if i < 130 {
         if i < 128 {
          if i < 127 {
           Table::row(2014869600, -18000, 0, "EST")
          } else {
           Table::row(2025759600, -18000, 3600, "EDT")
          }
         } else {
          if i < 129 {
           Table::row(2046319200, -18000, 0, "EST")
          } else {
           Table::row(2057209200, -18000, 3600, "EDT")
          }
         }
        } else {
         if i < 132 {
          if i < 131 {
           Table::row(2077768800, -18000, 0, "EST")
          } else {
           Table::row(2088658800, -18000, 3600, "EDT")
          }
         } else {
          if i < 133 {
           Table::row(2109218400, -18000, 0, "EST")
          } else {
           if i < 134 {
            Table::row(2120108400, -18000, 3600, "EDT")
           } else {
            Table::row(2140668000, -18000, 0, "EST")
           }
          }
         }
        }
       }
      }
     }
    }
}

/// The rows of the table of the zone `America/Iqaluit`.
pub open spec fn iqaluit_rows() -> spec_fn(int) -> (i64, FixedTimespan) {
    |i: int| iqaluit_row(i)
}

/// The table of the zone `America/Iqaluit`.
pub open spec fn iqaluit() -> Table {
    Table::listed(Table::row(0, 0, 0, "-00").1, 135, iqaluit_rows())
}

/// Row `i` of the table of the zone `America/Jamaica`.
pub open spec fn jamaica_row(i: int) -> (i64, FixedTimespan) {
    if i < 11 {
     if i < 5 {
      if i < 2 {
       if i < 1 {
        Table::row(-2524503170, -18430, 0, "KMT")
       } else {
        Table::row(-1827687170, -18000, 0, "EST")
       }
      } else {
       if i < 3 {
        Table::row(126687600, -18000, 3600, "EDT")
       } else {
        if i < 4 {
         Table::row(152085600, -18000, 0, "EST")
        } else {
         Table::row(162370800, -18000, 3600, "EDT")
        }
       }
      }
     } else {
      if i < 8 {
       if i < 6 {
        Table::row(183535200, -18000, 0, "EST")
       } else {
        if i < 7 {
         Table::row(199263600, -18000, 3600, "EDT")
        } else {
         Table::row(215589600, -18000, 0, "EST")
        }
       }
      } else {
       if i < 9 {
        Table::row(230713200, -18000, 3600, "EDT")
       } else {
        if i < 10 {
         Table::row(247039200, -18000, 0, "EST")
        } else {
         Table::row(262767600, -18000, 3600, "EDT")
        }
       }
      }
     }
    } else {
     if i < 16 {
      if i < 13 {
       if i < 12 {
        Table::row(278488800, -18000, 0, "EST")
       } else {
        Table::row(294217200, -18000, 3600, "EDT")
       }
      } else {
       if i < 14 {
        Table::row(309938400, -18000, 0, "EST")
       } else {
        if i < 15 {
         Table::row(325666800, -18000, 3600, "EDT")
        } else {
         Table::row(341388000, -18000, 0, "EST")
        }
       }
      }
     } else {
      if i < 19 {
       if i < 17 {
        Table::row(357116400, -18000, 3600, "EDT")
       } else {
        if i < 18 {
         Table::row(372837600, -18000, 0, "EST")
        } else {
         Table::row(388566000, -18000, 3600, "EDT")
        }
       }
      } else {
       if i < 20 {
        Table::row(404892000, -18000, 0, "EST")
       } else {
        if i < 21 {
         Table::row(420015600, -18000, 3600, "EDT")
        } else {
         Table::row(436341600, -18000, 0, "EST")
        }
       }
      }
     }
    }
}

/// The rows of the table of the zone `America/Jamaica`.
pub open spec fn jamaica_rows() -> spec_fn(int) -> (i64, FixedTimespan) {
    |i: int| jamaica_row(i)
}

/// The table of the zone `America/Jamaica`.
pub open spec fn jamaica() -> Table {
    Table::listed(Table::row(0, -18430, 0, "LMT").1, 22, jamaica_rows())
}

/// Row `i` of the table of the zone `America/Jujuy`.
pub open spec fn jujuy_row(i: int) -> (i64, FixedTimespan) {
    if i < 30 {
     if i < 15 {
      if i < 7 {
       if i < 3 {
        if i < 1 {
         Table::row(-2372096328, -15408, 0, "CMT")
        } else {
         if i < 2 {
          Table::row(-1567453392, -14400, 0, "-04")
         } else {
          Table::row(-1233432000, -14400, 3600, "-03")
         }
        }
       } else {
        if i < 5 {
         if i < 4 {
          Table::row(-1222981200, -14400, 0, "-04")
         } else {
          Table::row(-1205956800, -14400, 3600, "-03")
         }
        } else {
         if i < 6 {
          Table::row(-1194037200, -14400, 0, "-04")
         } else {
          Table::row(-1172865600, -14400, 3600, "-03")
         }
        }
       }
      } else {
       if i < 11 {
        if i < 9 {
         if i < 8 {
          Table::row(-1162501200, -14400, 0, "-04")
         } else {
          Table::row(-1141329600, -14400, 3600, "-03")
         }
        } else {
         if i < 10 {
          Table::row(-1130965200, -14400, 0, "-04")
         } else {
          Table::row(-1109793600, -14400, 3600, "-03")
         }
        }
       } else {
        if i < 13 {
         if i < 12 {
          Table::row(-1099429200, -14400, 0, "-04")
         } else {
          Table::row(-1078257600, -14400, 3600, "-03")
         }
        } else {
         if i < 14 {
          Table::row(-1067806800, -14400, 0, "-04")
         } else {
          Table::row(-1046635200, -14400, 3600, "-03")
         }
        }
       }
      }
     } else {
      if i < 22 {
       if i < 18 {
        if i < 16 {
         Table::row(-1036270800, -14400, 0, "-04")
        } else {
         if i < 17 {
          Table::row(-1015099200, -14400, 3600, "-03")
         } else {
          Table::row(-1004734800, -14400, 0, "-04")
         }
        }
       } else {
        if i < 20 {
         if i < 19 {
          Table::row(-983563200, -14400, 3600, "-03")
         } else {
          Table::row(-973198800, -14400, 0, "-04")
         }
        } else {
         if i < 21 {
          Table::row(-952027200, -14400, 3600, "-03")
         } else {
          Table::row(-941576400, -14400, 0, "-04")
         }
        }
       }
      } else {
       if i < 26 {
        if i < 24 {
         if i < 23 {
          Table::row(-931032000, -14400, 3600, "-03")
         } else {
          Table::row(-900882000, -14400, 0, "-04")
         }
        } else {
         if i < 25 {
          Table::row(-890337600, -14400, 3600, "-03")
         } else {
          Table::row(-833749200, -14400, 0, "-04")
         }
        }
       } else {
        if i < 28 {
         if i < 27 {
          Table::row(-827265600, -14400, 3600, "-03")
         } else {
          Table::row(-752274000, -14400, 0, "-04")
         }
        } else {
         if i < 29 {
          Table::row(-733780800, -14400, 3600, "-03")
         } else {
          Table::row(-197326800, -14400, 0, "-04")
         }
        }
       }
      }
     }
    } else {
     if i < 45 {
      if i < 37 {
       if i < 33 {
        if i < 31 {
         Table::row(-190843200, -14400, 3600, "-03")
        } else {
         if i < 32 {
          Table::row(-184194000, -14400, 0, "-04")
         } else {
          Table::row(-164491200, -14400, 3600, "-03")
         }
        }
       } else {
        if i < 35 {
         if i < 34 {
          Table::row(-152658000, -14400, 0, "-04")
         } else {
          Table::row(-132955200, -14400, 3600, "-03")
         }
        } else {
         if i < 36 {
          Table::row(-121122000, -14400, 0, "-04")
         } else {
          Table::row(-101419200, -14400, 3600, "-03")
         }
        }
       }
      } else {
       if i < 41 {
        if i < 39 {
         if i < 38 {
          Table::row(-86821200, -14400, 0, "-04")
         } else {
          Table::row(-71092800, -14400, 3600, "-03")
         }
        } else {
         if i < 40 {
          Table::row(-54766800, -14400, 0, "-04")
         } else {
          Table::row(-39038400, -14400, 3600, "-03")
         }
        }
       } else {
        if i < 43 {
         if i < 42 {
          Table::row(-23317200, -14400, 0, "-04")
         } else {
          Table::row(-7588800, -10800, 0, "-03")
         }
        } else {
         if i < 44 {
          Table::row(128142000, -10800, 3600, "-02")
         } else {
          Table::row(136605600, -10800, 0, "-03")
         }
        }
       }
      }
     } else {
      if i < 52 {
       if i < 48 {
        if i < 46 {
         Table::row(596948400, -10800, 3600, "-02")
        } else {
         if i < 47 {
          Table::row(605066400, -10800, 0, "-03")
         } else {
          Table::row(624423600, -10800, 3600, "-02")
         }
        }
       } else {
        if i < 50 {
         if i < 49 {
          Table::row(636516000, -14400, 0, "-04")
         } else {
          Table::row(657086400, -14400, 3600, "-03")
         }
        } else {
         if i < 51 {
          Table::row(669178800, -14400, 0, "-04")
         } else {
          Table::row(686721600, -14400, 7200, "-02")
         }
        }
       }
      } else {
       if i < 56 {
        if i < 54 {
         if i < 53 {
          Table::row(699415200, -10800, 0, "-03")
         } else {
          Table::row(719377200, -10800, 3600, "-02")
         }
        } else {
         if i < 55 {
          Table::row(731469600, -10800, 0, "-03")
         } else {
          Table::row(938919600, -14400, 3600, "-03")
         }
        }
       } else {
        if i < 58 {
         if i < 57 {
          Table::row(952052400, -10800, 0, "-03")
         } else {
          Table::row(1198983600, -10800, 3600, "-02")
         }
        } else {
         if i < 59 {
          Table::row(1205632800, -10800, 0, "-03")
         } else {
          Table::row(2147483647, -10800, 0, "-03")
         }
        }
       }
      }
     }
    }
}

/// The rows of the table of the zone `America/Jujuy`.
pub open spec fn jujuy_rows() -> spec_fn(int) -> (i64, FixedTimespan) {
    |i: int| jujuy_row(i)
}

/// The table of the zone `America/Jujuy`.
pub open spec fn jujuy() -> Table {
    Table::listed(Table::row(0, -15672, 0, "LMT").1, 60, jujuy_rows())
}

/// Row `i` of the table of the zone `America/Juneau`.
pub open spec fn juneau_row(i: int) -> (i64, FixedTimespan) {
    if i < 72 {
     if i < 36 {
      if i < 18 {
       if i < 9 {
        if i < 4 {
         if i < 2 {
          if i < 1 {
           Table::row(-3225223727, -32261, 0, "LMT")
          } else {
           Table::row(-2188954939, -28800, 0, "PST")
          }
         } else {
          if i < 3 {
           Table::row(-880207200, -28800, 3600, "PWT")
          } else {
           Table::row(-769395600, -28800, 3600, "PPT")
          }
         }
        } else {
         if i < 6 {
          if i < 5 {
           Table::row(-765385200, -28800, 0, "PST")
          } else {
           Table::row(-21477600, -28800, 3600, "PDT")
          }
         } else {
          if i < 7 {
           Table::row(-5756400, -28800, 0, "PST")
          } else {
           if i < 8 {
            Table::row(9972000, -28800, 3600, "PDT")
           } else {
            Table::row(25693200, -28800, 0, "PST")
           }
          }
         }
        }
       } else {
        if i < 13 {
         if i < 11 {
          if i < 10 {
           Table::row(41421600, -28800, 3600, "PDT")
          } else {
           Table::row(57747600, -28800, 0, "PST")
          }
         } else {
          if i < 12 {
           Table::row(73476000, -28800, 3600, "PDT")
          } else {
           Table::row(89197200, -28800, 0, "PST")
          }
         }
        } else {
         if i < 15 {
          if i < 14 {
           Table::row(104925600, -28800, 3600, "PDT")
          } else {
           Table::row(120646800, -28800, 0, "PST")
          }
         } else {
          if i < 16 {
           Table::row(126698400, -28800, 3600, "PDT")
          } else {
           if i < 17 {
            Table::row(152096400, -28800, 0, "PST")
           } else {
            Table::row(162381600, -28800, 3600, "PDT")
           }
          }
         }
        }
       }
      } else {
       if i < 27 {
        if i < 22 {
         if i < 20 {
          if i < 19 {
           Table::row(183546000, -28800, 0, "PST")
          } else {
           Table::row(199274400, -28800, 3600, "PDT")
          }
         } else {
          if i < 21 {
           Table::row(215600400, -28800, 0, "PST")
          } else {
           Table::row(230724000, -28800, 3600, "PDT")
          }
         }
        } else {
         if i < 24 {
          if i < 23 {
           Table::row(247050000, -28800, 0, "PST")
          } else {
           Table::row(262778400, -28800, 3600, "PDT")
          }
         } else {
          if i < 25 {
           Table::row(278499600, -28800, 0, "PST")
          } else {
           if i < 26 {
            Table::row(294228000, -28800, 3600, "PDT")
           } else {
            Table::row(309949200, -28800, 0, "PST")
           }
          }
         }
        }
       } else {
        if i < 31 {
         if i < 29 {
          if i < 28 {
           Table::row(325677600, -32400, 3600, "YDT")
          } else {
           Table::row(341402400, -28800, 0, "PST")
          }
         } else {
          if i < 30 {
           Table::row(357127200, -28800, 3600, "PDT")
          } else {
           Table::row(372848400, -28800, 0, "PST")
          }
         }
        } else {
         if i < 33 {
          if i < 32 {
           Table::row(388576800, -28800, 3600, "PDT")
          } else {
           Table::row(404902800, -28800, 0, "PST")
          }
         } else {
          if i < 34 {
           Table::row(420026400, -28800, 3600, "PDT")
          } else {
           if i < 35 {
            Table::row(436352400, -32400, 0, "YST")
           } else {
            Table::row(439030800, -32400, 0, "AKST")
           }
          }
         }
        }
       }
      }
     } else {
      if i < 54 {
       if i < 45 {
        if i < 40 {
         if i < 38 {
          if i < 37 {
           Table::row(452084400, -32400, 3600, "AKDT")
          } else {
           Table::row(467805600, -32400, 0, "AKST")
          }
         } else {
          if i < 39 {
           Table::row(483534000, -32400, 3600, "AKDT")
          } else {
           Table::row(499255200, -32400, 0, "AKST")
          }
         }
        } else {
         if i < 42 {
          if i < 41 {
           Table::row(514983600, -32400, 3600, "AKDT")
          } else {
           Table::row(530704800, -32400, 0, "AKST")
          }
         } else {
          if i < 43 {
           Table::row(544618800, -32400, 3600, "AKDT")
          } else {
           if i < 44 {
            Table::row(562154400, -32400, 0, "AKST")
           } else {
            Table::row(576068400, -32400, 3600, "AKDT")
           }
          }
         }
        }
       } else {
        if i < 49 {
         if i < 47 {
          if i < 46 {
           Table::row(594208800, -32400, 0, "AKST")
          } else {
           Table::row(607518000, -32400, 3600, "AKDT")
          }
         } else {
          if i < 48 {
           Table::row(625658400, -32400, 0, "AKST")
          } else {
           Table::row(638967600, -32400, 3600, "AKDT")
          }
         }
        } else {
         if i < 51 {
          if i < 50 {
           Table::row(657108000, -32400, 0, "AKST")
          } else {
           Table::row(671022000, -32400, 3600, "AKDT")
          }
         } else {
          if i < 52 {
           Table::row(688557600, -32400, 0, "AKST")
          } else {
           if i < 53 {
            Table::row(702471600, -32400, 3600, "AKDT")
           } else {
            Table::row(720007200, -32400, 0, "AKST")
           }
          }
         }
        }
       }
      } else {
       if i < 63 {
        if i < 58 {
         if i < 56 {
          if i < 55 {
           Table::row(733921200, -32400, 3600, "AKDT")
          } else {
           Table::row(752061600, -32400, 0, "AKST")
          }
         } else {
          if i < 57 {
           Table::row(765370800, -32400, 3600, "AKDT")
          } else {
           Table::row(783511200, -32400, 0, "AKST")
          }
         }
        } else {
         if i < 60 {
          if i < 59 {
           Table::row(796820400, -32400, 3600, "AKDT")
          } else {
           Table::row(814960800, -32400, 0, "AKST")
          }
         } else {
          if i < 61 {
           Table::row(828874800, -32400, 3600, "AKDT")
          } else {
           if i < 62 {
            Table::row(846410400, -32400, 0, "AKST")
           } else {
            Table::row(860324400, -32400, 3600, "AKDT")
           }
          }
         }
        }
       } else {
        if i < 67 {
         if i < 65 {
          if i < 64 {
           Table::row(877860000, -32400, 0, "AKST")
          } else {
           Table::row(891774000, -32400, 3600, "AKDT")
          }
         } else {
          if i < 66 {
           Table::row(909309600, -32400, 0, "AKST")
          } else {
           Table::row(923223600, -32400, 3600, "AKDT")
          }
         }
        } else {
         if i < 69 {
          if i < 68 {
           Table::row(941364000, -32400, 0, "AKST")
          } else {
           Table::row(954673200, -32400, 3600, "AKDT")
          }
         } else {
          if i < 70 {
           Table::row(972813600, -32400, 0, "AKST")
          } else {
           if i < 71 {
            Table::row(986122800, -32400, 3600, "AKDT")
           } else {
            Table::row(1004263200, -32400, 0, "AKST")
           }
          }
         }
        }
       }
      }
     }
    } else {
     if i < 108 {
      if i < 90 {
       if i < 81 {
        if i < 76 {
         if i < 74 {
          if i < 73 {
           Table::row(1018177200, -32400, 3600, "AKDT")
          } else {
           Table::row(1035712800, -32400, 0, "AKST")
          }
         } else {
          if i < 75 {
           Table::row(1049626800, -32400, 3600, "AKDT")
          } else {
           Table::row(1067162400, -32400, 0, "AKST")
          }
         }
        } else {
         if i < 78 {
          if i < 77 {
           Table::row(1081076400, -32400, 3600, "AKDT")
          } else {
           Table::row(1099216800, -32400, 0, "AKST")
          }
         } else {
          if i < 79 {
           Table::row(1112526000, -32400, 3600, "AKDT")
          } else {
           if i < 80 {
            Table::row(1130666400, -32400, 0, "AKST")
           } else {
            Table::row(1143975600, -32400, 3600, "AKDT")
           }
          }
         }
        }
       } else {
        if i < 85 {
         if i < 83 {
          if i < 82 {
           Table::row(1162116000, -32400, 0, "AKST")
          } else {
           Table::row(1173610800, -32400, 3600, "AKDT")
          }
         } else {
          if i < 84 {
           Table::row(1194170400, -32400, 0, "AKST")
          } else {
           Table::row(1205060400, -32400, 3600, "AKDT")
          }
         }
        } else {
         if i < 87 {
          if i < 86 {
           Table::row(1225620000, -32400, 0, "AKST")
          } else {
           Table::row(1236510000, -32400, 3600, "AKDT")
          }
         } else {
          if i < 88 {
           Table::row(1257069600, -32400, 0, "AKST")
          } else {
           if i < 89 {
            Table::row(1268564400, -32400, 3600, "AKDT")
           } else {
            Table::row(1289124000, -32400, 0, "AKST")
           }
          }
         }
        }
       }
      } else {
       if i < 99 {
        if i < 94 {
         if i < 92 {
          if i < 91 {
           Table::row(1300014000, -32400, 3600, "AKDT")
          } else {
           Table::row(1320573600, -32400, 0, "AKST")
          }
         } else {
          if i < 93 {
           Table::row(1331463600, -32400, 3600, "AKDT")
          } else {
           Table::row(1352023200, -32400, 0, "AKST")
          }
         }
        } else {
         if i < 96 {
          if i < 95 {
           Table::row(1362913200, -32400, 3600, "AKDT")
          } else {
           Table::row(1383472800, -32400, 0, "AKST")
          }
         } else {
          if i < 97 {
           Table::row(1394362800, -32400, 3600, "AKDT")
          } else {
           if i < 98 {
            Table::row(1414922400, -32400, 0, "AKST")
           } else {
            Table::row(1425812400, -32400, 3600, "AKDT")
           }
          }
         }
        }
       } else {
        if i < 103 {
         if i < 101 {
          if i < 100 {
           Table::row(1446372000, -32400, 0, "AKST")
          } else {
           Table::row(1457866800, -32400, 3600, "AKDT")
          }
         } else {
          if i < 102 {
           Table::row(1478426400, -32400, 0, "AKST")
          } else {
           Table::row(1489316400, -32400, 3600, "AKDT")
          }
         }
        } else {
         if i < 105 {
          if i < 104 {
           Table::row(1509876000, -32400, 0, "AKST")
          } else {
           Table::row(1520766000, -32400, 3600, "AKDT")
          }
         } else {
          if i < 106 {
           Table::row(1541325600, -32400, 0, "AKST")
          } else {
           if i < 107 {
            Table::row(1552215600, -32400, 3600, "AKDT")
           } else {
            Table::row(1572775200, -32400, 0, "AKST")
           }
          }
         }
        }
       }
      }
     } else {
      if i < 126 {
       if i < 117 {
        if i < 112 {
         if i < 110 {
          if i < 109 {
           Table::row(1583665200, -32400, 3600, "AKDT")
          } else {
           Table::row(1604224800, -32400, 0, "AKST")
          }
         } else {
          if i < 111 {
           Table::row(1615719600, -32400, 3600, "AKDT")
          } else {
           Table::row(1636279200, -32400, 0, "AKST")
          }
         }
        } else {
         if i < 114 {
          if i < 113 {
           Table::row(1647169200, -32400, 3600, "AKDT")
          } else {
           Table::row(1667728800, -32400, 0, "AKST")
          }
         } else {
          if i < 115 {
           Table::row(1678618800, -32400, 3600, "AKDT")
          } else {
           if i < 116 {
            Table::row(1699178400, -32400, 0, "AKST")
           } else {
            Table::row(1710068400, -32400, 3600, "AKDT")
           }
          }
         }
        }
       } else {
        if i < 121 {
         if i < 119 {
          if i < 118 {
           Table::row(1730628000, -32400, 0, "AKST")
          } else {
           Table::row(1741518000, -32400, 3600, "AKDT")
          }
         } else {
          if i < 120 {
           Table::row(1762077600, -32400, 0, "AKST")
          } else {
           Table::row(1772967600, -32400, 3600, "AKDT")
          }
         }
        } else {
         if i < 123 {
          if i < 122 {
           Table::row(1793527200, -32400, 0, "AKST")
          } else {
           Table::row(1805022000, -32400, 3600, "AKDT")
          }
         } else {
          if i < 124 {
           Table::row(1825581600, -32400, 0, "AKST")
          } else {
           if i < 125 {
            Table::row(1836471600, -32400, 3600, "AKDT")
           } else {
            Table::row(1857031200, -32400, 0, "AKST")
           }
          }
         }
        }
       }
      } else {
       if i < 135 {
        if i < 130 {
         if i < 128 {
          if i < 127 {
           Table::row(1867921200, -32400, 3600, "AKDT")
          } else {
           Table::row(1888480800, -32400, 0, "AKST")
          }
         } else {
          if i < 129 {
           Table::row(1899370800, -32400, 3600, "AKDT")
          } else {
           Table::row(1919930400, -32400, 0, "AKST")
          }
         }
        } else {
         if i < 132 {
          if i < 131 {
           Table::row(1930820400, -32400, 3600, "AKDT")
          } else {
           Table::row(1951380000, -32400, 0, "AKST")
          }
         } else {
          if i < 133 {
           Table::row(1962874800, -32400, 3600, "AKDT")
          } else {
           if i < 134 {
            Table::row(1983434400, -32400, 0, "AKST")
           } else {
            Table::row(1994324400, -32400, 3600, "AKDT")
           }
          }
         }
        }
       } else {
        if i < 139 {
         if i < 137 {
          if i < 136 {
           Table::row(2014884000, -32400, 0, "AKST")
          } else {
           Table::row(2025774000, -32400, 3600, "AKDT")
          }
         } else {
          if i < 138 {
           Table::row(2046333600, -32400, 0, "AKST")
          } else {
           Table::row(2057223600, -32400, 3600, "AKDT")
          }
         }
        } else {
         if i < 141 {
          if i < 140 {
           Table::row(2077783200, -32400, 0, "AKST")
          } else {
           Table::row(2088673200, -32400, 3600, "AKDT")
          }
         } else {
          if i < 142 {
           Table::row(2109232800, -32400, 0, "AKST")
          } else {
           if i < 143 {
            Table::row(2120122800, -32400, 3600, "AKDT")
           } else {
            Table::row(2140682400, -32400, 0, "AKST")
           }
          }
         }
        }
       }
      }
     }
    }
}

/// The rows of the table of the zone `America/Juneau`.
pub open spec fn juneau_rows() -> spec_fn(int) -> (i64, FixedTimespan) {
    |i: int| juneau_row(i)
}

/// The table of the zone `America/Juneau`.
pub open spec fn juneau() -> Table {
    Table::listed(Table::row(0, 54139, 0, "LMT").1, 144, juneau_rows())
}

/// Row `i` of the table of the zone `America/Kentucky/Louisville`.
pub open spec fn kentucky_louisville_row(i: int) -> (i64, FixedTimespan) {
    if i < 89 {
     if i < 44 {
      if i < 22 {
       if i < 11 {
        if i < 5 {
         if i < 2 {
          if i < 1 {
           Table::row(-2717647200, -21600, 0, "CST")
          } else {
           Table::row(-1633276800, -21600, 3600, "CDT")
          }
         } else {
          if i < 3 {
           Table::row(-1615136400, -21600, 0, "CST")
          } else {
           if i < 4 {
            Table::row(-1601827200, -21600, 3600, "CDT")
           } else {
            Table::row(-1583686800, -21600, 0, "CST")
           }
          }
         }
        } else {
         if i < 8 {
          if i < 6 {
           Table::row(-1535904000, -21600, 3600, "CDT")
          } else {
           if i < 7 {
            Table::row(-1525280400, -21600, 0, "CST")
           } else {
            Table::row(-905097600, -21600, 3600, "CDT")
           }
          }
         } else {
          if i < 9 {
           Table::row(-891795600, -21600, 0, "CST")
          } else {
           if i < 10 {
            Table::row(-880214400, -21600, 3600, "CWT")
           } else {
            Table::row(-769395600, -21600, 3600, "CPT")
           }
          }
         }
        }
       } else {
        if i < 16 {
         if i < 13 {
          if i < 12 {
           Table::row(-765392400, -21600, 0, "CST")
          } else {
           Table::row(-747251940, -21600, 3600, "CDT")
          }
         } else {
          if i < 14 {
           Table::row(-744224400, -21600, 0, "CST")
          } else {
           if i < 15 {
            Table::row(-620841600, -21600, 3600, "CDT")
           } else {
            Table::row(-608144400, -21600, 0, "CST")
           }
          }
         }
        } else {
         if i < 19 {
          if i < 17 {
           Table::row(-589392000, -21600, 3600, "CDT")
          } else {
           if i < 18 {
            Table::row(-576090000, -21600, 0, "CST")
           } else {
            Table::row(-557942400, -21600, 3600, "CDT")
           }
          }
         } else {
          if i < 20 {
           Table::row(-544640400, -21600, 0, "CST")
          } else {
           if i < 21 {
            Table::row(-526492800, -21600, 3600, "CDT")
           } else {
            Table::row(-513190800, -21600, 0, "CST")
           }
          }
         }
        }
       }
      } else {
       if i < 33 {
        if i < 27 {
         if i < 24 {
          if i < 23 {
           Table::row(-495043200, -21600, 3600, "CDT")
          } else {
           Table::row(-481741200, -21600, 0, "CST")
          }
         } else {
          if i < 25 {
           Table::row(-463593600, -21600, 3600, "CDT")
          } else {
           if i < 26 {
            Table::row(-450291600, -21600, 0, "CST")
           } else {
            Table::row(-431539200, -21600, 3600, "CDT")
           }
          }
         }
        } else {
         if i < 30 {
          if i < 28 {
           Table::row(-415818000, -21600, 0, "CST")
          } else {
           if i < 29 {
            Table::row(-400089600, -21600, 3600, "CDT")
           } else {
            Table::row(-384368400, -21600, 0, "CST")
           }
          }
         } else {
          if i < 31 {
           Table::row(-368640000, -21600, 3600, "CDT")
          } else {
           if i < 32 {
            Table::row(-352918800, -21600, 0, "CST")
           } else {
            Table::row(-337190400, -21600, 3600, "CDT")
           }
          }
         }
        }
       } else {
        if i < 38 {
         if i < 35 {
          if i < 34 {
           Table::row(-321469200, -21600, 0, "CST")
          } else {
           Table::row(-305740800, -21600, 3600, "CDT")
          }
         } else {
          if i < 36 {
           Table::row(-289414800, -21600, 0, "CST")
          } else {
           if i < 37 {
            Table::row(-273686400, -21600, 3600, "CDT")
           } else {
            Table::row(-266432400, -18000, 0, "EST")
           }
          }
         }
        } else {
         if i < 41 {
          if i < 39 {
           Table::row(-52938000, -18000, 3600, "EDT")
          } else {
           if i < 40 {
            Table::row(-37216800, -18000, 0, "EST")
           } else {
            Table::row(-21488400, -18000, 3600, "EDT")
           }
          }
         } else {
          if i < 42 {
           Table::row(-5767200, -18000, 0, "EST")
          } else {
           if i < 43 {
            Table::row(9961200, -18000, 3600, "EDT")
           } else {
            Table::row(25682400, -18000, 0, "EST")
           }
          }
         }
        }
       }
      }
     } else {
      if i < 66 {
       if i < 55 {
        if i < 49 {
         if i < 46 {
          if i < 45 {
           Table::row(41410800, -18000, 3600, "EDT")
          } else {
           Table::row(57736800, -18000, 0, "EST")
          }
         } else {
          if i < 47 {
           Table::row(73465200, -18000, 3600, "EDT")
          } else {
           if i < 48 {
            Table::row(89186400, -18000, 0, "EST")
           } else {
            Table::row(104914800, -18000, 3600, "EDT")
           }
          }
         }
        } else {
         if i < 52 {
          if i < 50 {
           Table::row(120636000, -18000, 0, "EST")
          } else {
           if i < 51 {
            Table::row(126687600, -21600, 3600, "CDT")
           } else {
            Table::row(152089200, -18000, 0, "EST")
           }
          }
         } else {
          if i < 53 {
           Table::row(162370800, -18000, 3600, "EDT")
          } else {
           if i < 54 {
            Table::row(183535200, -18000, 0, "EST")
           } else {
            Table::row(199263600, -18000, 3600, "EDT")
           }
          }
         }
        }
       } else {
        if i < 60 {
         if i < 57 {
          if i < 56 {
           Table::row(215589600, -18000, 0, "EST")
          } else {
           Table::row(230713200, -18000, 3600, "EDT")
          }
         } else {
          if i < 58 {
           Table::row(247039200, -18000, 0, "EST")
          } else {
           if i < 59 {
            Table::row(262767600, -18000, 3600, "EDT")
           } else {
            Table::row(278488800, -18000, 0, "EST")
           }
          }
         }
        } else {
         if i < 63 {
          if i < 61 {
           Table::row(294217200, -18000, 3600, "EDT")
          } else {
           if i < 62 {
            Table::row(309938400, -18000, 0, "EST")
           } else {
            Table::row(325666800, -18000, 3600, "EDT")
           }
          }
         } else {
          if i < 64 {
           Table::row(341388000, -18000, 0, "EST")
          } else {
           if i < 65 {
            Table::row(357116400, -18000, 3600, "EDT")
           } else {
            Table::row(372837600, -18000, 0, "EST")
           }
          }
         }
        }
       }
      } else {
       if i < 77 {
        if i < 71 {
         if i < 68 {
          if i < 67 {
           Table::row(388566000, -18000, 3600, "EDT")
          } else {
           Table::row(404892000, -18000, 0, "EST")
          }
         } else {
          if i < 69 {
           Table::row(420015600, -18000, 3600, "EDT")
          } else {
           if i < 70 {
            Table::row(436341600, -18000, 0, "EST")
           } else {
            Table::row(452070000, -18000, 3600, "EDT")
           }
          }
         }
        } else {
         if i < 74 {
          if i < 72 {
           Table::row(467791200, -18000, 0, "EST")
          } else {
           if i < 73 {
            Table::row(483519600, -18000, 3600, "EDT")
           } else {
            Table::row(499240800, -18000, 0, "EST")
           }
          }
         } else {
          if i < 75 {
           Table::row(514969200, -18000, 3600, "EDT")
          } else {
           if i < 76 {
            Table::row(530690400, -18000, 0, "EST")
           } else {
            Table::row(544604400, -18000, 3600, "EDT")
           }
          }
         }
        }
       } else {
        if i < 83 {
         if i < 80 {
          if i < 78 {
           Table::row(562140000, -18000, 0, "EST")
          } else {
           if i < 79 {
            Table::row(576054000, -18000, 3600, "EDT")
           } else {
            Table::row(594194400, -18000, 0, "EST")
           }
          }
         } else {
          if i < 81 {
           Table::row(607503600, -18000, 3600, "EDT")
          } else {
           if i < 82 {
            Table::row(625644000, -18000, 0, "EST")
           } else {
            Table::row(638953200, -18000, 3600, "EDT")
           }
          }
         }
        } else {
         if i < 86 {
          if i < 84 {
           Table::row(657093600, -18000, 0, "EST")
          } else {
           if i < 85 {
            Table::row(671007600, -18000, 3600, "EDT")
           } else {
            Table::row(688543200, -18000, 0, "EST")
           }
          }
         } else {
          if i < 87 {
           Table::row(702457200, -18000, 3600, "EDT")
          } else {
           if i < 88 {
            Table::row(719992800, -18000, 0, "EST")
           } else {
            Table::row(733906800, -18000, 3600, "EDT")
           }
          }
         }
        }
       }
      }
     }
    } else {
     if i < 133 {
      if i < 111 {
       if i < 100 {
        if i < 94 {
         if i < 91 {
          if i < 90 {
           Table::row(752047200, -18000, 0, "EST")
          } else {
           Table::row(765356400, -18000, 3600, "EDT")
          }
         } else {
          if i < 92 {
           Table::row(783496800, -18000, 0, "EST")
          } else {
           if i < 93 {
            Table::row(796806000, -18000, 3600, "EDT")
           } else {
            Table::row(814946400, -18000, 0, "EST")
           }
          }
         }
        } else {
         if i < 97 {
          if i < 95 {
           Table::row(828860400, -18000, 3600, "EDT")
          } else {
           if i < 96 {
            Table::row(846396000, -18000, 0, "EST")
           } else {
            Table::row(860310000, -18000, 3600, "EDT")
           }
          }
         } else {
          if i < 98 {
           Table::row(877845600, -18000, 0, "EST")
          } else {
           if i < 99 {
            Table::row(891759600, -18000, 3600, "EDT")
           } else {
            Table::row(909295200, -18000, 0, "EST")
           }
          }
         }
        }
       } else {
        if i < 105 {
         if i < 102 {
          if i < 101 {
           Table::row(923209200, -18000, 3600, "EDT")
          } else {
           Table::row(941349600, -18000, 0, "EST")
          }
         } else {
          if i < 103 {
           Table::row(954658800, -18000, 3600, "EDT")
          } else {
           if i < 104 {
            Table::row(972799200, -18000, 0, "EST")
           } else {
            Table::row(986108400, -18000, 3600, "EDT")
           }
          }
         }
        } else {
         if i < 108 {
          if i < 106 {
           Table::row(1004248800, -18000, 0, "EST")
          } else {
           if i < 107 {
            Table::row(1018162800, -18000, 3600, "EDT")
           } else {
            Table::row(1035698400, -18000, 0, "EST")
           }
          }
         } else {
          if i < 109 {
           Table::row(1049612400, -18000, 3600, "EDT")
          } else {
           if i < 110 {
            Table::row(1067148000, -18000, 0, "EST")
           } else {
            Table::row(1081062000, -18000, 3600, "EDT")
           }
          }
         }
        }
       }
      } else {
       if i < 122 {
        if i < 116 {
         if i < 113 {
          if i < 112 {
           Table::row(1099202400, -18000, 0, "EST")
          } else {
           Table::row(1112511600, -18000, 3600, "EDT")
          }
         } else {
          if i < 114 {
           Table::row(1130652000, -18000, 0, "EST")
          } else {
           if i < 115 {
            Table::row(1143961200, -18000, 3600, "EDT")
           } else {
            Table::row(1162101600, -18000, 0, "EST")
           }
          }
         }
        } else {
         if i < 119 {
          if i < 117 {
           Table::row(1173596400, -18000, 3600, "EDT")
          } else {
           if i < 118 {
            Table::row(1194156000, -18000, 0, "EST")
           } else {
            Table::row(1205046000, -18000, 3600, "EDT")
           }
          }
         } else {
          if i < 120 {
           Table::row(1225605600, -18000, 0, "EST")
          } else {
           if i < 121 {
            Table::row(1236495600, -18000, 3600, "EDT")
           } else {
            Table::row(1257055200, -18000, 0, "EST")
           }
          }
         }
        }
       } else {
        if i < 127 {
         if i < 124 {
          if i < 123 {
           Table::row(1268550000, -18000, 3600, "EDT")
          } else {
           Table::row(1289109600, -18000, 0, "EST")
          }
         } else {
          if i < 125 {
           Table::row(1299999600, -18000, 3600, "EDT")
          } else {
           if i < 126 {
            Table::row(1320559200, -18000, 0, "EST")
           } else {
            Table::row(1331449200, -18000, 3600, "EDT")
           }
          }
         }
        } else {
         if i < 130 {
          if i < 128 {
           Table::row(1352008800, -18000, 0, "EST")
          } else {
           if i < 129 {
            Table::row(1362898800, -18000, 3600, "EDT")
           } else {
            Table::row(1383458400, -18000, 0, "EST")
           }
          }
         } else {
          if i < 131 {
           Table::row(1394348400, -18000, 3600, "EDT")
          } else {
           if i < 132 {
            Table::row(1414908000, -18000, 0, "EST")
           } else {
            Table::row(1425798000, -18000, 3600, "EDT")
           }
          }
         }
        }
       }
      }
     } else {
      if i < 155 {
       if i < 144 {
        if i < 138 {
         if i < 135 {
          if i < 134 {
           Table::row(1446357600, -18000, 0, "EST")
          } else {
           Table::row(1457852400, -18000, 3600, "EDT")
          }
         } else {
          if i < 136 {
           Table::row(1478412000, -18000, 0, "EST")
          } else {
           if i < 137 {
            Table::row(1489302000, -18000, 3600, "EDT")
           } else {
            Table::row(1509861600, -18000, 0, "EST")
           }
          }
         }
        } else {
         if i < 141 {
          if i < 139 {
           Table::row(1520751600, -18000, 3600, "EDT")
          } else {
           if i < 140 {
            Table::row(1541311200, -18000, 0, "EST")
           } else {
            Table::row(1552201200, -18000, 3600, "EDT")
           }
          }
         } else {
          if i < 142 {
           Table::row(1572760800, -18000, 0, "EST")
          } else {
           if i < 143 {
            Table::row(1583650800, -18000, 3600, "EDT")
           } else {
            Table::row(1604210400, -18000, 0, "EST")
           }
          }
         }
        }
       } else {
        if i < 149 {
         if i < 146 {
          if i < 145 {
           Table::row(1615705200, -18000, 3600, "EDT")
          } else {
           Table::row(1636264800, -18000, 0, "EST")
          }
         } else {
          if i < 147 {
           Table::row(1647154800, -18000, 3600, "EDT")
          } else {
           if i < 148 {
            Table::row(1667714400, -18000, 0, "EST")
           } else {
            Table::row(1678604400, -18000, 3600, "EDT")
           }
          }
         }
        } else {
         if i < 152 {
          if i < 150 {
           Table::row(1699164000, -18000, 0, "EST")
          } else {
           if i < 151 {
            Table::row(1710054000, -18000, 3600, "EDT")
           } else {
            Table::row(1730613600, -18000, 0, "EST")
           }
          }
         } else {
          if i < 153 {
           Table::row(1741503600, -18000, 3600, "EDT")
          } else {
           if i < 154 {
            Table::row(1762063200, -18000, 0, "EST")
           } else {
            Table::row(1772953200, -18000, 3600, "EDT")
           }
          }
         }
        }
       }
      } else {
       if i < 166 {
        if i < 160 {
         if i < 157 {
          if i < 156 {
           Table::row(1793512800, -18000, 0, "EST")
          } else {
           Table::row(1805007600, -18000, 3600, "EDT")
          }
         } else {
          if i < 158 {
           Table::row(1825567200, -18000, 0, "EST")
          } else {
           if i < 159 {
            Table::row(1836457200, -18000, 3600, "EDT")
           } else {
            Table::row(1857016800, -18000, 0, "EST")
           }
          }
         }
        } else {
         if i < 163 {
          if i < 161 {
           Table::row(1867906800, -18000, 3600, "EDT")
          } else {
           if i < 162 {
            Table::row(1888466400, -18000, 0, "EST")
           } else {
            Table::row(1899356400, -18000, 3600, "EDT")
           }
          }
         } else {
          if i < 164 {
           Table::row(1919916000, -18000, 0, "EST")
          } else {
           if i < 165 {
            Table::row(1930806000, -18000, 3600, "EDT")
           } else {
            Table::row(1951365600, -18000, 0, "EST")
           }
          }
         }
        }
       } else {
        if i < 172 {
         if i < 169 {
          if i < 167 {
           Table::row(1962860400, -18000, 3600, "EDT")
          } else {
           if i < 168 {
            Table::row(1983420000, -18000, 0, "EST")
           } else {
            Table::row(1994310000, -18000, 3600, "EDT")
           }
          }
         } else {
          if i < 170 {
           Table::row(2014869600, -18000, 0, "EST")
          } else {
           if i < 171 {
            Table::row(2025759600, -18000, 3600, "EDT")
           } else {
            Table::row(2046319200, -18000, 0, "EST")
           }
          }
         }
        } else {
         if i < 175 {
          if i < 173 {
           Table::row(2057209200, -18000, 3600, "EDT")
          } else {
           if i < 174 {
            Table::row(2077768800, -18000, 0, "EST")
           } else {
            Table::row(2088658800, -18000, 3600, "EDT")
           }
          }
         } else {
          if i < 176 {
           Table::row(2109218400, -18000, 0, "EST")
          } else {
           if i < 177 {
            Table::row(2120108400, -18000, 3600, "EDT")
           } else {
            Table::row(2140668000, -18000, 0, "EST")
           }
          }
         }
        }
       }
      }
     }
    }
}

/// The rows of the table of the zone `America/Kentucky/Louisville`.
pub open spec fn kentucky_louisville_rows() -> spec_fn(int) -> (i64, FixedTimespan) {
    |i: int| kentucky_louisville_row(i)
}

/// The table of the zone `America/Kentucky/Louisville`.
pub open spec fn kentucky_louisville() -> Table {
    Table::listed(Table::row(0, -20582, 0, "LMT").1, 178, kentucky_louisville_rows())
}

/// Row `i` of the table of the zone `America/Kentucky/Monticello`.
pub open spec fn kentucky_monticello_row(i: int) -> (i64, FixedTimespan) {
    if i < 74 {
     if i < 37 {
      if i < 18 {
       if i < 9 {
        if i < 4 {
         if i < 2 {
          if i < 1 {
           Table::row(-2717647200, -21600, 0, "CST")
          } else {
           Table::row(-1633276800, -21600, 3600, "CDT")
          }
         } else {
          if i < 3 {
           Table::row(-1615136400, -21600, 0, "CST")
          } else {
           Table::row(-1601827200, -21600, 3600, "CDT")
          }
         }
        } else {
         if i < 6 {
          if i < 5 {
           Table::row(-1583686800, -21600, 0, "CST")
          } else {
           Table::row(-880214400, -21600, 3600, "CWT")
          }
         } else {
          if i < 7 {
           Table::row(-769395600, -21600, 3600, "CPT")
          } else {
           if i < 8 {
            Table::row(-765392400, -21600, 0, "CST")
           } else {
            Table::row(-52934400, -21600, 3600, "CDT")
           }
          }
         }
        }
       } else {
        if i < 13 {
         if i < 11 {
          if i < 10 {
           Table::row(-37213200, -21600, 0, "CST")
          } else {
           Table::row(-21484800, -21600, 3600, "CDT")
          }
         } else {
          if i < 12 {
           Table::row(-5763600, -21600, 0, "CST")
          } else {
           Table::row(9964800, -21600, 3600, "CDT")
          }
         }
        } else {
         if i < 15 {
          if i < 14 {
           Table::row(25686000, -21600, 0, "CST")
          } else {
           Table::row(41414400, -21600, 3600, "CDT")
          }
         } else {
          if i < 16 {
           Table::row(57740400, -21600, 0, "CST")
          } else {
           if i < 17 {
            Table::row(73468800, -21600, 3600, "CDT")
           } else {
            Table::row(89190000, -21600, 0, "CST")
           }
          }
         }
        }
       }
      } else {
       if i < 27 {
        if i < 22 {
         if i < 20 {
          if i < 19 {
           Table::row(104918400, -21600, 3600, "CDT")
          } else {
           Table::row(120639600, -21600, 0, "CST")
          }
         } else {
          if i < 21 {
           Table::row(126691200, -21600, 3600, "CDT")
          } else {
           Table::row(152089200, -21600, 0, "CST")
          }
         }
        } else {
         if i < 24 {
          if i < 23 {
           Table::row(162374400, -21600, 3600, "CDT")
          } else {
           Table::row(183538800, -21600, 0, "CST")
          }
         } else {
          if i < 25 {
           Table::row(199267200, -21600, 3600, "CDT")
          } else {
           if i < 26 {
            Table::row(215593200, -21600, 0, "CST")
           } else {
            Table::row(230716800, -21600, 3600, "CDT")
           }
          }
         }
        }
       } else {
        if i < 32 {
         if i < 29 {
          if i < 28 {
           Table::row(247042800, -21600, 0, "CST")
          } else {
           Table::row(262771200, -21600, 3600, "CDT")
          }
         } else {
          if i < 30 {
           Table::row(278492400, -21600, 0, "CST")
          } else {
           if i < 31 {
            Table::row(294220800, -21600, 3600, "CDT")
           } else {
            Table::row(309942000, -21600, 0, "CST")
           }
          }
         }
        } else {
         if i < 34 {
          if i < 33 {
           Table::row(325670400, -21600, 3600, "CDT")
          } else {
           Table::row(341391600, -21600, 0, "CST")
          }
         } else {
          if i < 35 {
           Table::row(357120000, -21600, 3600, "CDT")
          } else {
           if i < 36 {
            Table::row(372841200, -21600, 0, "CST")
           } else {
            Table::row(388569600, -21600, 3600, "CDT")
           }
          }
         }
        }
       }
      }
     } else {
      if i < 55 {
       if i < 46 {
        if i < 41 {
         if i < 39 {
          if i < 38 {
           Table::row(404895600, -21600, 0, "CST")
          } else {
           Table::row(420019200, -21600, 3600, "CDT")
          }
         } else {
          if i < 40 {
           Table::row(436345200, -21600, 0, "CST")
          } else {
           Table::row(452073600, -21600, 3600, "CDT")
          }
         }
        } else {
         if i < 43 {
          if i < 42 {
           Table::row(467794800, -21600, 0, "CST")
          } else {
           Table::row(483523200, -21600, 3600, "CDT")
          }
         } else {
          if i < 44 {
           Table::row(499244400, -21600, 0, "CST")
          } else {
           if i < 45 {
            Table::row(514972800, -21600, 3600, "CDT")
           } else {
            Table::row(530694000, -21600, 0, "CST")
           }
          }
         }
        }
       } else {
        if i < 50 {
         if i < 48 {
          if i < 47 {
           Table::row(544608000, -21600, 3600, "CDT")
          } else {
           Table::row(562143600, -21600, 0, "CST")
          }
         } else {
          if i < 49 {
           Table::row(576057600, -21600, 3600, "CDT")
          } else {
           Table::row(594198000, -21600, 0, "CST")
          }
         }
        } else {
         if i < 52 {
          if i < 51 {
           Table::row(607507200, -21600, 3600, "CDT")
          } else {
           Table::row(625647600, -21600, 0, "CST")
          }
         } else {
          if i < 53 {
           Table::row(638956800, -21600, 3600, "CDT")
          } else {
           if i < 54 {
            Table::row(657097200, -21600, 0, "CST")
           } else {
            Table::row(671011200, -21600, 3600, "CDT")
           }
          }
         }
        }
       }
      } else {
       if i < 64 {
        if i < 59 {
         if i < 57 {
          if i < 56 {
           Table::row(688546800, -21600, 0, "CST")
          } else {
           Table::row(702460800, -21600, 3600, "CDT")
          }
         } else {
          if i < 58 {
           Table::row(719996400, -21600, 0, "CST")
          } else {
           Table::row(733910400, -21600, 3600, "CDT")
          }
         }
        } else {
         if i < 61 {
          if i < 60 {
           Table::row(752050800, -21600, 0, "CST")
          } else {
           Table::row(765360000, -21600, 3600, "CDT")
          }
         } else {
          if i < 62 {
           Table::row(783500400, -21600, 0, "CST")
          } else {
           if i < 63 {
            Table::row(796809600, -21600, 3600, "CDT")
           } else {
            Table::row(814950000, -21600, 0, "CST")
           }
          }
         }
        }
       } else {
        if i < 69 {
         if i < 66 {
          if i < 65 {
           Table::row(828864000, -21600, 3600, "CDT")
          } else {
           Table::row(846399600, -21600, 0, "CST")
          }
         } else {
          if i < 67 {
           Table::row(860313600, -21600, 3600, "CDT")
          } else {
           if i < 68 {
            Table::row(877849200, -21600, 0, "CST")
           } else {
            Table::row(891763200, -21600, 3600, "CDT")
           }
          }
         }
        } else {
         if i < 71 {
          if i < 70 {
           Table::row(909298800, -21600, 0, "CST")
          } else {
           Table::row(923212800, -21600, 3600, "CDT")
          }
         } else {
          if i < 72 {
           Table::row(941353200, -21600, 0, "CST")
          } else {
           if i < 73 {
            Table::row(954662400, -21600, 3600, "CDT")
           } else {
            Table::row(972802800, -18000, 0, "EST")
           }
          }
         }
        }
       }
      }
     }
    } else {
     if i < 111 {
      if i < 92 {
       if i < 83 {
        if i < 78 {
         if i < 76 {
          if i < 75 {
           Table::row(986108400, -18000, 3600, "EDT")
          } else {
           Table::row(1004248800, -18000, 0, "EST")
          }
         } else {
          if i < 77 {
           Table::row(1018162800, -18000, 3600, "EDT")
          } else {
           Table::row(1035698400, -18000, 0, "EST")
          }
         }
        } else {
         if i < 80 {
          if i < 79 {
           Table::row(1049612400, -18000, 3600, "EDT")
          } else {
           Table::row(1067148000, -18000, 0, "EST")
          }
         } else {
          if i < 81 {
           Table::row(1081062000, -18000, 3600, "EDT")
          } else {
           if i < 82 {
            Table::row(1099202400, -18000, 0, "EST")
           } else {
            Table::row(1112511600, -18000, 3600, "EDT")
           }
          }
         }
        }
       } else {
        if i < 87 {
         if i < 85 {
          if i < 84 {
           Table::row(1130652000, -18000, 0, "EST")
          } else {
           Table::row(1143961200, -18000, 3600, "EDT")
          }
         } else {
          if i < 86 {
           Table::row(1162101600, -18000, 0, "EST")
          } else {
           Table::row(1173596400, -18000, 3600, "EDT")
          }
         }
        } else {
         if i < 89 {
          if i < 88 {
           Table::row(1194156000, -18000, 0, "EST")
          } else {
           Table::row(1205046000, -18000, 3600, "EDT")
          }
         } else {
          if i < 90 {
           Table::row(1225605600, -18000, 0, "EST")
          } else {
           if i < 91 {
            Table::row(1236495600, -18000, 3600, "EDT")
           } else {
            Table::row(1257055200, -18000, 0, "EST")
           }
          }
         }
        }
       }
      } else {
       if i < 101 {
        if i < 96 {
         if i < 94 {
          if i < 93 {
           Table::row(1268550000, -18000, 3600, "EDT")
          } else {
           Table::row(1289109600, -18000, 0, "EST")
          }
         } else {
          if i < 95 {
           Table::row(1299999600, -18000, 3600, "EDT")
          } else {
           Table::row(1320559200, -18000, 0, "EST")
          }
         }
        } else {
         if i < 98 {
          if i < 97 {
           Table::row(1331449200, -18000, 3600, "EDT")
          } else {
           Table::row(1352008800, -18000, 0, "EST")
          }
         } else {
          if i < 99 {
           Table::row(1362898800, -18000, 3600, "EDT")
          } else {
           if i < 100 {
            Table::row(1383458400, -18000, 0, "EST")
           } else {
            Table::row(1394348400, -18000, 3600, "EDT")
           }
          }
         }
        }
       } else {
        if i < 106 {
         if i < 103 {
          if i < 102 {
           Table::row(1414908000, -18000, 0, "EST")
          } else {
           Table::row(1425798000, -18000, 3600, "EDT")
          }
         } else {
          if i < 104 {
           Table::row(1446357600, -18000, 0, "EST")
          } else {
           if i < 105 {
            Table::row(1457852400, -18000, 3600, "EDT")
           } else {
            Table::row(1478412000, -18000, 0, "EST")
           }
          }
         }
        } else {
         if i < 108 {
          if i < 107 {
           Table::row(1489302000, -18000, 3600, "EDT")
          } else {
           Table::row(1509861600, -18000, 0, "EST")
          }
         } else {
          if i < 109 {
           Table::row(1520751600, -18000, 3600, "EDT")
          } else {
           if i < 110 {
            Table::row(1541311200, -18000, 0, "EST")
           } else {
            Table::row(1552201200, -18000, 3600, "EDT")
           }
          }
         }
        }
       }
      }
     } else {
      if i < 129 {
       if i < 120 {
        if i < 115 {
         if i < 113 {
          if i < 112 {
           Table::row(1572760800, -18000, 0, "EST")
          } else {
           Table::row(1583650800, -18000, 3600, "EDT")
          }
         } else {
          if i < 114 {
           Table::row(1604210400, -18000, 0, "EST")
          } else {
           Table::row(1615705200, -18000, 3600, "EDT")
          }
         }
        } else {
         if i < 117 {
          if i < 116 {
           Table::row(1636264800, -18000, 0, "EST")
          } else {
           Table::row(1647154800, -18000, 3600, "EDT")
          }
         } else {
          if i < 118 {
           Table::row(1667714400, -18000, 0, "EST")
          } else {
           if i < 119 {
            Table::row(1678604400, -18000, 3600, "EDT")
           } else {
            Table::row(1699164000, -18000, 0, "EST")
           }
          }
         }
        }
       } else {
        if i < 124 {
         if i < 122 {
          if i < 121 {
           Table::row(1710054000, -18000, 3600, "EDT")
          } else {
           Table::row(1730613600, -18000, 0, "EST")
          }
         } else {
          if i < 123 {
           Table::row(1741503600, -18000, 3600, "EDT")
          } else {
           Table::row(1762063200, -18000, 0, "EST")
          }
         }
        } else {
         if i < 126 {
          if i < 125 {
           Table::row(1772953200, -18000, 3600, "EDT")
          } else {
           Table::row(1793512800, -18000, 0, "EST")
          }
         } else {
          if i < 127 {
           Table::row(1805007600, -18000, 3600, "EDT")
          } else {
           if i < 128 {
            Table::row(1825567200, -18000, 0, "EST")
           } else {
            Table::row(1836457200, -18000, 3600, "EDT")
           }
          }
         }
        }
       }
      } else {
       if i < 138 {
        if i < 133 {
         if i < 131 {
          if i < 130 {
           Table::row(1857016800, -18000, 0, "EST")
          } else {
           Table::row(1867906800, -18000, 3600, "EDT")
          }
         } else {
          if i < 132 {
           Table::row(1888466400, -18000, 0, "EST")
          } else {
           Table::row(1899356400, -18000, 3600, "EDT")
          }
         }
        } else {
         if i < 135 {
          if i < 134 {
           Table::row(1919916000, -18000, 0, "EST")
          } else {
           Table::row(1930806000, -18000, 3600, "EDT")
          }
         } else {
          if i < 136 {
           Table::row(1951365600, -18000, 0, "EST")
          } else {
           if i < 137 {
            Table::row(1962860400, -18000, 3600, "EDT")
           } else {
            Table::row(1983420000, -18000, 0, "EST")
           }
          }
         }
        }
       } else {
        if i < 143 {
         if i < 140 {
          if i < 139 {
           Table::row(1994310000, -18000, 3600, "EDT")
          } else {
           Table::row(2014869600, -18000, 0, "EST")
          }
         } else {
          if i < 141 {
           Table::row(2025759600, -18000, 3600, "EDT")
          } else {
           if i < 142 {
            Table::row(2046319200, -18000, 0, "EST")
           } else {
            Table::row(2057209200, -18000, 3600, "EDT")
           }
          }
         }
        } else {
         if i < 145 {
          if i < 144 {
           Table::row(2077768800, -18000, 0, "EST")
          } else {
           Table::row(2088658800, -18000, 3600, "EDT")
          }
         } else {
          if i < 146 {
           Table::row(2109218400, -18000, 0, "EST")
          } else {
           if i < 147 {
            Table::row(2120108400, -18000, 3600, "EDT")
           } else {
            Table::row(2140668000, -18000, 0, "EST")
           }
          }
         }
        }
       }
      }
     }
    }
}

/// The rows of the table of the zone `America/Kentucky/Monticello`.
pub open spec fn kentucky_monticello_rows() -> spec_fn(int) -> (i64, FixedTimespan) {
    |i: int| kentucky_monticello_row(i)
}

/// The table of the zone `America/Kentucky/Monticello`.
pub open spec fn kentucky_monticello() -> Table {
    Table::listed(Table::row(0, -20364, 0, "LMT").1, 148, kentucky_monticello_rows())
}

/// Row `i` of the table of the zone `America/Knox_IN`.
pub open spec fn knox_in_row(i: int) -> (i64, FixedTimespan) {
    if i < 77 {
     if i < 38 {
      if i < 19 {
       if i < 9 {
        if i < 4 {
         if i < 2 {
          if i < 1 {
           Table::row(-2717647200, -21600, 0, "CST")
          } else {
           Table::row(-1633276800, -21600, 3600, "CDT")
          }
         } else {
          if i < 3 {
           Table::row(-1615136400, -21600, 0, "CST")
          } else {
           Table::row(-1601827200, -21600, 3600, "CDT")
          }
         }
        } else {
         if i < 6 {
          if i < 5 {
           Table::row(-1583686800, -21600, 0, "CST")
          } else {
           Table::row(-880214400, -21600, 3600, "CWT")
          }
         } else {
          if i < 7 {
           Table::row(-769395600, -21600, 3600, "CPT")
          } else {
           if i < 8 {
            Table::row(-765392400, -21600, 0, "CST")
           } else {
            Table::row(-715795200, -21600, 3600, "CDT")
           }
          }
         }
        }
       } else {
        if i < 14 {
         if i < 11 {
          if i < 10 {
           Table::row(-702493200, -21600, 0, "CST")
          } else {
           Table::row(-684345600, -21600, 3600, "CDT")
          }
         } else {
          if i < 12 {
           Table::row(-671043600, -21600, 0, "CST")
          } else {
           if i < 13 {
            Table::row(-652896000, -21600, 3600, "CDT")
           } else {
            Table::row(-639594000, -21600, 0, "CST")
           }
          }
         }
        } else {
         if i < 16 {
          if i < 15 {
           Table::row(-620841600, -21600, 3600, "CDT")
          } else {
           Table::row(-608144400, -21600, 0, "CST")
          }
         } else {
          if i < 17 {
           Table::row(-589392000, -21600, 3600, "CDT")
          } else {
           if i < 18 {
            Table::row(-576090000, -21600, 0, "CST")
           } else {
            Table::row(-557942400, -21600, 3600, "CDT")
           }
          }
         }
        }
       }
      } else {
       if i < 28 {
        if i < 23 {
         if i < 21 {
          if i < 20 {
           Table::row(-544640400, -21600, 0, "CST")
          } else {
           Table::row(-526492800, -21600, 3600, "CDT")
          }
         } else {
          if i < 22 {
           Table::row(-513190800, -21600, 0, "CST")
          } else {
           Table::row(-495043200, -21600, 3600, "CDT")
          }
         }
        } else {
         if i < 25 {
          if i < 24 {
           Table::row(-481741200, -21600, 0, "CST")
          } else {
           Table::row(-463593600, -21600, 3600, "CDT")
          }
         } else {
          if i < 26 {
           Table::row(-447267600, -21600, 0, "CST")
          } else {
           if i < 27 {
            Table::row(-431539200, -21600, 3600, "CDT")
           } else {
            Table::row(-415818000, -21600, 0, "CST")
           }
          }
         }
        }
       } else {
        if i < 33 {
         if i < 30 {
          if i < 29 {
           Table::row(-400089600, -21600, 3600, "CDT")
          } else {
           Table::row(-386787600, -21600, 0, "CST")
          }
         } else {
          if i < 31 {
           Table::row(-368640000, -21600, 3600, "CDT")
          } else {
           if i < 32 {
            Table::row(-355338000, -21600, 0, "CST")
           } else {
            Table::row(-337190400, -21600, 3600, "CDT")
           }
          }
         }
        } else {
         if i < 35 {
          if i < 34 {
           Table::row(-321469200, -21600, 0, "CST")
          } else {
           Table::row(-305740800, -21600, 3600, "CDT")
          }
         } else {
          if i < 36 {
           Table::row(-289414800, -21600, 0, "CST")
          } else {
           if i < 37 {
            Table::row(-273686400, -21600, 3600, "CDT")
           } else {
            Table::row(-257965200, -21600, 0, "CST")
           }
          }
         }
        }
       }
      }
     } else {
      if i < 57 {
       if i < 47 {
        if i < 42 {
         if i < 40 {
          if i < 39 {
           Table::row(-242236800, -18000, 0, "EST")
          } else {
           Table::row(-195066000, -21600, 0, "CST")
          }
         } else {
          if i < 41 {
           Table::row(-84384000, -21600, 3600, "CDT")
          } else {
           Table::row(-68662800, -21600, 0, "CST")
          }
         }
        } else {
         if i < 44 {
          if i < 43 {
           Table::row(-52934400, -21600, 3600, "CDT")
          } else {
           Table::row(-37213200, -21600, 0, "CST")
          }
         } else {
          if i < 45 {
           Table::row(-21484800, -21600, 3600, "CDT")
          } else {
           if i < 46 {
            Table::row(-5763600, -21600, 0, "CST")
           } else {
            Table::row(9964800, -21600, 3600, "CDT")
           }
          }
         }
        }
       } else {
        if i < 52 {
         if i < 49 {
          if i < 48 {
           Table::row(25686000, -21600, 0, "CST")
          } else {
           Table::row(41414400, -21600, 3600, "CDT")
          }
         } else {
          if i < 50 {
           Table::row(57740400, -21600, 0, "CST")
          } else {
           if i < 51 {
            Table::row(73468800, -21600, 3600, "CDT")
           } else {
            Table::row(89190000, -21600, 0, "CST")
           }
          }
         }
        } else {
         if i < 54 {
          if i < 53 {
           Table::row(104918400, -21600, 3600, "CDT")
          } else {
           Table::row(120639600, -21600, 0, "CST")
          }
         } else {
          if i < 55 {
           Table::row(126691200, -21600, 3600, "CDT")
          } else {
           if i < 56 {
            Table::row(152089200, -21600, 0, "CST")
           } else {
            Table::row(162374400, -21600, 3600, "CDT")
           }
          }
         }
        }
       }
      } else {
       if i < 67 {
        if i < 62 {
         if i < 59 {
          if i < 58 {
           Table::row(183538800, -21600, 0, "CST")
          } else {
           Table::row(199267200, -21600, 3600, "CDT")
          }
         } else {
          if i < 60 {
           Table::row(215593200, -21600, 0, "CST")
          } else {
           if i < 61 {
            Table::row(230716800, -21600, 3600, "CDT")
           } else {
            Table::row(247042800, -21600, 0, "CST")
           }
          }
         }
        } else {
         if i < 64 {
          if i < 63 {
           Table::row(262771200, -21600, 3600, "CDT")
          } else {
           Table::row(278492400, -21600, 0, "CST")
          }
         } else {
          if i < 65 {
           Table::row(294220800, -21600, 3600, "CDT")
          } else {
           if i < 66 {
            Table::row(309942000, -21600, 0, "CST")
           } else {
            Table::row(325670400, -21600, 3600, "CDT")
           }
          }
         }
        }
       } else {
        if i < 72 {
         if i < 69 {
          if i < 68 {
           Table::row(341391600, -21600, 0, "CST")
          } else {
           Table::row(357120000, -21600, 3600, "CDT")
          }
         } else {
          if i < 70 {
           Table::row(372841200, -21600, 0, "CST")
          } else {
           if i < 71 {
            Table::row(388569600, -21600, 3600, "CDT")
           } else {
            Table::row(404895600, -21600, 0, "CST")
           }
          }
         }
        } else {
         if i < 74 {
          if i < 73 {
           Table::row(420019200, -21600, 3600, "CDT")
          } else {
           Table::row(436345200, -21600, 0, "CST")
          }
         } else {
          if i < 75 {
           Table::row(452073600, -21600, 3600, "CDT")
          } else {
           if i < 76 {
            Table::row(467794800, -21600, 0, "CST")
           } else {
            Table::row(483523200, -21600, 3600, "CDT")
           }
          }
         }
        }
       }
      }
     }
    } else {
     if i < 115 {
      if i < 96 {
       if i < 86 {
        if i < 81 {
         if i < 79 {
          if i < 78 {
           Table::row(499244400, -21600, 0, "CST")
          } else {
           Table::row(514972800, -21600, 3600, "CDT")
          }
         } else {
          if i < 80 {
           Table::row(530694000, -21600, 0, "CST")
          } else {
           Table::row(544608000, -21600, 3600, "CDT")
          }
         }
        } else {
         if i < 83 {
          if i < 82 {
           Table::row(562143600, -21600, 0, "CST")
          } else {
           Table::row(576057600, -21600, 3600, "CDT")
          }
         } else {
          if i < 84 {
           Table::row(594198000, -21600, 0, "CST")
          } else {
           if i < 85 {
            Table::row(607507200, -21600, 3600, "CDT")
           } else {
            Table::row(625647600, -21600, 0, "CST")
           }
          }
         }
        }
       } else {
        if i < 91 {
         if i < 88 {
          if i < 87 {
           Table::row(638956800, -21600, 3600, "CDT")
          } else {
           Table::row(657097200, -21600, 0, "CST")
          }
         } else {
          if i < 89 {
           Table::row(671011200, -21600, 3600, "CDT")
          } else {
           if i < 90 {
            Table::row(688546800, -18000, 0, "EST")
           } else {
            Table::row(1143961200, -21600, 3600, "CDT")
           }
          }
         }
        } else {
         if i < 93 {
          if i < 92 {
           Table::row(1162105200, -21600, 0, "CST")
          } else {
           Table::row(1173600000, -21600, 3600, "CDT")
          }
         } else {
          if i < 94 {
           Table::row(1194159600, -21600, 0, "CST")
          } else {
           if i < 95 {
            Table::row(1205049600, -21600, 3600, "CDT")
           } else {
            Table::row(1225609200, -21600, 0, "CST")
           }
          }
         }
        }
       }
      } else {
       if i < 105 {
        if i < 100 {
         if i < 98 {
          if i < 97 {
           Table::row(1236499200, -21600, 3600, "CDT")
          } else {
           Table::row(1257058800, -21600, 0, "CST")
          }
         } else {
          if i < 99 {
           Table::row(1268553600, -21600, 3600, "CDT")
          } else {
           Table::row(1289113200, -21600, 0, "CST")
          }
         }
        } else {
         if i < 102 {
          if i < 101 {
           Table::row(1300003200, -21600, 3600, "CDT")
          } else {
           Table::row(1320562800, -21600, 0, "CST")
          }
         } else {
          if i < 103 {
           Table::row(1331452800, -21600, 3600, "CDT")
          } else {
           if i < 104 {
            Table::row(1352012400, -21600, 0, "CST")
           } else {
            Table::row(1362902400, -21600, 3600, "CDT")
           }
          }
         }
        }
       } else {
        if i < 110 {
         if i < 107 {
          if i < 106 {
           Table::row(1383462000, -21600, 0, "CST")
          } else {
           Table::row(1394352000, -21600, 3600, "CDT")
          }
         } else {
          if i < 108 {
           Table::row(1414911600, -21600, 0, "CST")
          } else {
           if i < 109 {
            Table::row(1425801600, -21600, 3600, "CDT")
           } else {
            Table::row(1446361200, -21600, 0, "CST")
           }
          }
         }
        } else {
         if i < 112 {
          if i < 111 {
           Table::row(1457856000, -21600, 3600, "CDT")
          } else {
           Table::row(1478415600, -21600, 0, "CST")
          }
         } else {
          if i < 113 {
           Table::row(1489305600, -21600, 3600, "CDT")
          } else {
           if i < 114 {
            Table::row(1509865200, -21600, 0, "CST")
           } else {
            Table::row(1520755200, -21600, 3600, "CDT")
           }
          }
         }
        }
       }
      }
     } else {
      if i < 134 {
       if i < 124 {
        if i < 119 {
         if i < 117 {
          if i < 116 {
           Table::row(1541314800, -21600, 0, "CST")
          } else {
           Table::row(1552204800, -21600, 3600, "CDT")
          }
         } else {
          if i < 118 {
           Table::row(1572764400, -21600, 0, "CST")
          } else {
           Table::row(1583654400, -21600, 3600, "CDT")
          }
         }
        } else {
         if i < 121 {
          if i < 120 {
           Table::row(1604214000, -21600, 0, "CST")
          } else {
           Table::row(1615708800, -21600, 3600, "CDT")
          }
         } else {
          if i < 122 {
           Table::row(1636268400, -21600, 0, "CST")
          } else {
           if i < 123 {
            Table::row(1647158400, -21600, 3600, "CDT")
           } else {
            Table::row(1667718000, -21600, 0, "CST")
           }
          }
         }
        }
       } else {
        if i < 129 {
         if i < 126 {
          if i < 125 {
           Table::row(1678608000, -21600, 3600, "CDT")
          } else {
           Table::row(1699167600, -21600, 0, "CST")
          }
         } else {
          if i < 127 {
           Table::row(1710057600, -21600, 3600, "CDT")
          } else {
           if i < 128 {
            Table::row(1730617200, -21600, 0, "CST")
           } else {
            Table::row(1741507200, -21600, 3600, "CDT")
           }
          }
         }
        } else {
         if i < 131 {
          if i < 130 {
           Table::row(1762066800, -21600, 0, "CST")
          } else {
           Table::row(1772956800, -21600, 3600, "CDT")
          }
         } else {
          if i < 132 {
           Table::row(1793516400, -21600, 0, "CST")
          } else {
           if i < 133 {
            Table::row(1805011200, -21600, 3600, "CDT")
           } else {
            Table::row(1825570800, -21600, 0, "CST")
           }
          }
         }
        }
       }
      } else {
       if i < 144 {
        if i < 139 {
         if i < 136 {
          if i < 135 {
           Table::row(1836460800, -21600, 3600, "CDT")
          } else {
           Table::row(1857020400, -21600, 0, "CST")
          }
         } else {
          if i < 137 {
           Table::row(1867910400, -21600, 3600, "CDT")
          } else {
           if i < 138 {
            Table::row(1888470000, -21600, 0, "CST")
           } else {
            Table::row(1899360000, -21600, 3600, "CDT")
           }
          }
         }
        } else {
         if i < 141 {
          if i < 140 {
           Table::row(1919919600, -21600, 0, "CST")
          } else {
           Table::row(1930809600, -21600, 3600, "CDT")
          }
         } else {
          if i < 142 {
           Table::row(1951369200, -21600, 0, "CST")
          } else {
           if i < 143 {
            Table::row(1962864000, -21600, 3600, "CDT")
           } else {
            Table::row(1983423600, -21600, 0, "CST")
           }
          }
         }
        }
       } else {
        if i < 149 {
         if i < 146 {
          if i < 145 {
           Table::row(1994313600, -21600, 3600, "CDT")
          } else {
           Table::row(2014873200, -21600, 0, "CST")
          }
         } else {
          if i < 147 {
           Table::row(2025763200, -21600, 3600, "CDT")
          } else {
           if i < 148 {
            Table::row(2046322800, -21600, 0, "CST")
           } else {
            Table::row(2057212800, -21600, 3600, "CDT")
           }
          }
         }
        } else {
         if i < 151 {
          if i < 150 {
           Table::row(2077772400, -21600, 0, "CST")
          } else {
           Table::row(2088662400, -21600, 3600, "CDT")
          }
         } else {
          if i < 152 {
           Table::row(2109222000, -21600, 0, "CST")
          } else {
           if i < 153 {
            Table::row(2120112000, -21600, 3600, "CDT")
           } else {
            Table::row(2140671600, -21600, 0, "CST")
           }
          }
         }
        }
       }
      }
     }
    }
}

/// The rows of the table of the zone `America/Knox_IN`.
pub open spec fn knox_in_rows() -> spec_fn(int) -> (i64, FixedTimespan) {
    |i: int| knox_in_row(i)
}

/// The table of the zone `America/Knox_IN`.
pub open spec fn knox_in() -> Table {
    Table::listed(Table::row(0, -20790, 0, "LMT").1, 154, knox_in_rows())
}

/// Row `i` of the table of the zone `America/Kralendijk`.
pub open spec fn kralendijk_row(i: int) -> (i64, FixedTimespan) {
    if i < 2 {
     if i < 1 {
      Table::row(-2233035335, -14400, 0, "AST")
     } else {
      Table::row(-873057600, -14400, 3600, "AWT")
     }
    } else {
     if i < 3 {
      Table::row(-769395600, -14400, 3600, "APT")
     } else {
      Table::row(-765399600, -14400, 0, "AST")
     }
    }
}

/// The rows of the table of the zone `America/Kralendijk`.
pub open spec fn kralendijk_rows() -> spec_fn(int) -> (i64, FixedTimespan) {
    |i: int| kralendijk_row(i)
}

/// The table of the zone `America/Kralendijk`.
pub open spec fn kralendijk() -> Table {
    Table::listed(Table::row(0, -15865, 0, "LMT").1, 4, kralendijk_rows())
}

/// Row `i` of the table of the zone `America/La_Paz`.
pub open spec fn la_paz_row(i: int) -> (i64, FixedTimespan) {
    if i < 2 {
     if i < 1 {
      Table::row(-2524505244, -16356, 0, "CMT")
     } else {
      Table::row(-1205954844, -16356, 3600, "BST")
     }
    } else {
     if i < 3 {
      Table::row(-1192307244, -14400, 0, "-04")
     } else {
      Table::row(2147483647, -14400, 0, "-04")
     }
    }
}

/// The rows of the table of the zone `America/La_Paz`.
pub open spec fn la_paz_rows() -> spec_fn(int) -> (i64, FixedTimespan) {
    |i: int| la_paz_row(i)
}

/// The table of the zone `America/La_Paz`.
pub open spec fn la_paz() -> Table {
    Table::listed(Table::row(0, -16356, 0, "LMT").1, 4, la_paz_rows())
}

/// Row `i` of the table of the zone `America/Lima`.
pub open spec fn lima_row(i: int) -> (i64, FixedTimespan) {
    if i < 8 {
     if i < 4 {
      if i < 2 {
       if i < 1 {
        Table::row(-2524503108, -18516, 0, "LMT")
       } else {
        Table::row(-1938538284, -18000, 0, "-05")
       }
      } else {
       if i < 3 {
        Table::row(-1009825200, -18000, 3600, "-04")
       } else {
        Table::row(-1002052800, -18000, 0, "-05")
       }
      }
     } else {
      if i < 6 {
       if i < 5 {
        Table::row(-986756400, -18000, 3600, "-04")
       } else {
        Table::row(-971035200, -18000, 0, "-05")
       }
      } else {
       if i < 7 {
        Table::row(-955306800, -18000, 3600, "-04")
       } else {
        Table::row(-939585600, -18000, 0, "-05")
       }
      }
     }
    } else {
     if i < 12 {
      if i < 10 {
       if i < 9 {
        Table::row(504939600, -18000, 3600, "-04")
       } else {
        Table::row(512712000, -18000, 0, "-05")
       }
      } else {
       if i < 11 {
        Table::row(536475600, -18000, 3600, "-04")
       } else {
        Table::row(544248000, -18000, 0, "-05")
       }
      }
     } else {
      if i < 14 {
       if i < 13 {
        Table::row(631170000, -18000, 3600, "-04")
       } else {
        Table::row(638942400, -18000, 0, "-05")
       }
      } else {
       if i < 15 {
        Table::row(757400400, -18000, 3600, "-04")
       } else {
        if i < 16 {
         Table::row(765172800, -18000, 0, "-05")
        } else {
         Table::row(2147483647, -18000, 0, "-05")
        }
       }
      }
     }
    }
}

/// The rows of the table of the zone `America/Lima`.
pub open spec fn lima_rows() -> spec_fn(int) -> (i64, FixedTimespan) {
    |i: int| lima_row(i)
}

/// The table of the zone `America/Lima`.
pub open spec fn lima() -> Table {
    Table::listed(Table::row(0, -18492, 0, "LMT").1, 17, lima_rows())
}

/// Row `i` of the table of the zone `America/Los_Angeles`.
pub open spec fn los_angeles_row(i: int) -> (i64, FixedTimespan) {
    if i < 93 {
     if i < 46 {
      if i < 23 {
       if i < 11 {
        if i < 5 {
         if i < 2 {
          if i < 1 {
           Table::row(-2717640000, -28800, 0, "PST")
          } else {
           Table::row(-1633269600, -28800, 3600, "PDT")
          }
         } else {
          if i < 3 {
           Table::row(-1615129200, -28800, 0, "PST")
          } else {
           if i < 4 {
            Table::row(-1601820000, -28800, 3600, "PDT")
           } else {
            Table::row(-1583679600, -28800, 0, "PST")
           }
          }
         }
        } else {
         if i < 8 {
          if i < 6 {
           Table::row(-880207200, -28800, 3600, "PWT")
          } else {
           if i < 7 {
            Table::row(-769395600, -28800, 3600, "PPT")
           } else {
            Table::row(-765385200, -28800, 0, "PST")
           }
          }
         } else {
          if i < 9 {
           Table::row(-687967140, -28800, 3600, "PDT")
          } else {
           if i < 10 {
            Table::row(-662655600, -28800, 0, "PST")
           } else {
            Table::row(-620838000, -28800, 3600, "PDT")
           }
          }
         }
        }
       } else {
        if i < 17 {
         if i < 14 {
          if i < 12 {
           Table::row(-608137200, -28800, 0, "PST")
          } else {
           if i < 13 {
            Table::row(-589388400, -28800, 3600, "PDT")
           } else {
            Table::row(-576082800, -28800, 0, "PST")
           }
          }
         } else {
          if i < 15 {
           Table::row(-557938800, -28800, 3600, "PDT")
          } else {
           if i < 16 {
            Table::row(-544633200, -28800, 0, "PST")
           } else {
            Table::row(-526489200, -28800, 3600, "PDT")
           }
          }
         }
        } else {
         if i < 20 {
          if i < 18 {
           Table::row(-513183600, -28800, 0, "PST")
          } else {
           if i < 19 {
            Table::row(-495039600, -28800, 3600, "PDT")
           } else {
            Table::row(-481734000, -28800, 0, "PST")
           }
          }
         } else {
          if i < 21 {
           Table::row(-463590000, -28800, 3600, "PDT")
          } else {
           if i < 22 {
            Table::row(-450284400, -28800, 0, "PST")
           } else {
            Table::row(-431535600, -28800, 3600, "PDT")
           }
          }
         }
        }
       }
      } else {
       if i < 34 {
        if i < 28 {
         if i < 25 {
          if i < 24 {
           Table::row(-418230000, -28800, 0, "PST")
          } else {
           Table::row(-400086000, -28800, 3600, "PDT")
          }
         } else {
          if i < 26 {
           Table::row(-386780400, -28800, 0, "PST")
          } else {
           if i < 27 {
            Table::row(-368636400, -28800, 3600, "PDT")
           } else {
            Table::row(-355330800, -28800, 0, "PST")
           }
          }
         }
        } else {
         if i < 31 {
          if i < 29 {
           Table::row(-337186800, -28800, 3600, "PDT")
          } else {
           if i < 30 {
            Table::row(-323881200, -28800, 0, "PST")
           } else {
            Table::row(-305737200, -28800, 3600, "PDT")
           }
          }
         } else {
          if i < 32 {
           Table::row(-292431600, -28800, 0, "PST")
          } else {
           if i < 33 {
            Table::row(-273682800, -28800, 3600, "PDT")
           } else {
            Table::row(-260982000, -28800, 0, "PST")
           }
          }
         }
        }
       } else {
        if i < 40 {
         if i < 37 {
          if i < 35 {
           Table::row(-242233200, -28800, 3600, "PDT")
          } else {
           if i < 36 {
            Table::row(-226508400, -28800, 0, "PST")
           } else {
            Table::row(-210783600, -28800, 3600, "PDT")
           }
          }
         } else {
          if i < 38 {
           Table::row(-195058800, -28800, 0, "PST")
          } else {
           if i < 39 {
            Table::row(-179334000, -28800, 3600, "PDT")
           } else {
            Table::row(-163609200, -28800, 0, "PST")
           }
          }
         }
        } else {
         if i < 43 {
          if i < 41 {
           Table::row(-147884400, -28800, 3600, "PDT")
          } else {
           if i < 42 {
            Table::row(-131554800, -28800, 0, "PST")
           } else {
            Table::row(-116434800, -28800, 3600, "PDT")
           }
          }
         } else {
          if i < 44 {
           Table::row(-100105200, -28800, 0, "PST")
          } else {
           if i < 45 {
            Table::row(-84376800, -28800, 3600, "PDT")
           } else {
            Table::row(-68655600, -28800, 0, "PST")
           }
          }
         }
        }
       }
      }
     } else {
      if i < 69 {
       if i < 57 {
        if i < 51 {
         if i < 48 {
          if i < 47 {
           Table::row(-52927200, -28800, 3600, "PDT")
          } else {
           Table::row(-37206000, -28800, 0, "PST")
          }
         } else {
          if i < 49 {
           Table::row(-21477600, -28800, 3600, "PDT")
          } else {
           if i < 50 {
            Table::row(-5756400, -28800, 0, "PST")
           } else {
            Table::row(9972000, -28800, 3600, "PDT")
           }
          }
         }
        } else {
         if i < 54 {
          if i < 52 {
           Table::row(25693200, -28800, 0, "PST")
          } else {
           if i < 53 {
            Table::row(41421600, -28800, 3600, "PDT")
           } else {
            Table::row(57747600, -28800, 0, "PST")
           }
          }
         } else {
          if i < 55 {
           Table::row(73476000, -28800, 3600, "PDT")
          } else {
           if i < 56 {
            Table::row(89197200, -28800, 0, "PST")
           } else {
            Table::row(104925600, -28800, 3600, "PDT")
           }
          }
         }
        }
       } else {
        if i < 63 {
         if i < 60 {
          if i < 58 {
           Table::row(120646800, -28800, 0, "PST")
          } else {
           if i < 59 {
            Table::row(126698400, -28800, 3600, "PDT")
           } else {
            Table::row(152096400, -28800, 0, "PST")
           }
          }
         } else {
          if i < 61 {
           Table::row(162381600, -28800, 3600, "PDT")
          } else {
           if i < 62 {
            Table::row(183546000, -28800, 0, "PST")
           } else {
            Table::row(199274400, -28800, 3600, "PDT")
           }
          }
         }
        } else {
         if i < 66 {
          if i < 64 {
           Table::row(215600400, -28800, 0, "PST")
          } else {
           if i < 65 {
            Table::row(230724000, -28800, 3600, "PDT")
           } else {
            Table::row(247050000, -28800, 0, "PST")
           }
          }
         } else {
          if i < 67 {
           Table::row(262778400, -28800, 3600, "PDT")
          } else {
           if i < 68 {
            Table::row(278499600, -28800, 0, "PST")
           } else {
            Table::row(294228000, -28800, 3600, "PDT")
           }
          }
         }
        }
       }
      } else {
       if i < 81 {
        if i < 75 {
         if i < 72 {
          if i < 70 {
           Table::row(309949200, -28800, 0, "PST")
          } else {
           if i < 71 {
            Table::row(325677600, -28800, 3600, "PDT")
           } else {
            Table::row(341398800, -28800, 0, "PST")
           }
          }
         } else {
          if i < 73 {
           Table::row(357127200, -28800, 3600, "PDT")
          } else {
           if i < 74 {
            Table::row(372848400, -28800, 0, "PST")
           } else {
            Table::row(388576800, -28800, 3600, "PDT")
           }
          }
         }
        } else {
         if i < 78 {
          if i < 76 {
           Table::row(404902800, -28800, 0, "PST")
          } else {
           if i < 77 {
            Table::row(420026400, -28800, 3600, "PDT")
           } else {
            Table::row(436352400, -28800, 0, "PST")
           }
          }
         } else {
          if i < 79 {
           Table::row(452080800, -28800, 3600, "PDT")
          } else {
           if i < 80 {
            Table::row(467802000, -28800, 0, "PST")
           } else {
            Table::row(483530400, -28800, 3600, "PDT")
           }
          }
         }
        }
       } else {
        if i < 87 {
         if i < 84 {
          if i < 82 {
           Table::row(499251600, -28800, 0, "PST")
          } else {
           if i < 83 {
            Table::row(514980000, -28800, 3600, "PDT")
           } else {
            Table::row(530701200, -28800, 0, "PST")
           }
          }
         } else {
          if i < 85 {
           Table::row(544615200, -28800, 3600, "PDT")
          } else {
           if i < 86 {
            Table::row(562150800, -28800, 0, "PST")
           } else {
            Table::row(576064800, -28800, 3600, "PDT")
           }
          }
         }
        } else {
         if i < 90 {
          if i < 88 {
           Table::row(594205200, -28800, 0, "PST")
          } else {
           if i < 89 {
            Table::row(607514400, -28800, 3600, "PDT")
           } else {
            Table::row(625654800, -28800, 0, "PST")
           }
          }
         } else {
          if i < 91 {
           Table::row(638964000, -28800, 3600, "PDT")
          } else {
           if i < 92 {
            Table::row(657104400, -28800, 0, "PST")
           } else {
            Table::row(671018400, -28800, 3600, "PDT")
           }
          }
         }
        }
       }
      }
     }
    } else {
     if i < 139 {
      if i < 116 {
       if i < 104 {
        if i < 98 {
         if i < 95 {
          if i < 94 {
           Table::row(688554000, -28800, 0, "PST")
          } else {
           Table::row(702468000, -28800, 3600, "PDT")
          }
         } else {
          if i < 96 {
           Table::row(720003600, -28800, 0, "PST")
          } else {
           if i < 97 {
            Table::row(733917600, -28800, 3600, "PDT")
           } else {
            Table::row(752058000, -28800, 0, "PST")
           }
          }
         }
        } else {
         if i < 101 {
          if i < 99 {
           Table::row(765367200, -28800, 3600, "PDT")
          } else {
           if i < 100 {
            Table::row(783507600, -28800, 0, "PST")
           } else {
            Table::row(796816800, -28800, 3600, "PDT")
           }
          }
         } else {
          if i < 102 {
           Table::row(814957200, -28800, 0, "PST")
          } else {
           if i < 103 {
            Table::row(828871200, -28800, 3600, "PDT")
           } else {
            Table::row(846406800, -28800, 0, "PST")
           }
          }
         }
        }
       } else {
        if i < 110 {
         if i < 107 {
          if i < 105 {
           Table::row(860320800, -28800, 3600, "PDT")
          } else {
           if i < 106 {
            Table::row(877856400, -28800, 0, "PST")
           } else {
            Table::row(891770400, -28800, 3600, "PDT")
           }
          }
         } else {
          if i < 108 {
           Table::row(909306000, -28800, 0, "PST")
          } else {
           if i < 109 {
            Table::row(923220000, -28800, 3600, "PDT")
           } else {
            Table::row(941360400, -28800, 0, "PST")
           }
          }
         }
        } else {
         if i < 113 {
          if i < 111 {
           Table::row(954669600, -28800, 3600, "PDT")
          } else {
           if i < 112 {
            Table::row(972810000, -28800, 0, "PST")
           } else {
            Table::row(986119200, -28800, 3600, "PDT")
           }
          }
         } else {
          if i < 114 {
           Table::row(1004259600, -28800, 0, "PST")
          } else {
           if i < 115 {
            Table::row(1018173600, -28800, 3600, "PDT")
           } else {
            Table::row(1035709200, -28800, 0, "PST")
           }
          }
         }
        }
       }
      } else {
       if i < 127 {
        if i < 121 {
         if i < 118 {
          if i < 117 {
           Table::row(1049623200, -28800, 3600, "PDT")
          } else {
           Table::row(1067158800, -28800, 0, "PST")
          }
         } else {
          if i < 119 {
           Table::row(1081072800, -28800, 3600, "PDT")
          } else {
           if i < 120 {
            Table::row(1099213200, -28800, 0, "PST")
           } else {
            Table::row(1112522400, -28800, 3600, "PDT")
           }
          }
         }
        } else {
         if i < 124 {
          if i < 122 {
           Table::row(1130662800, -28800, 0, "PST")
          } else {
           if i < 123 {
            Table::row(1143972000, -28800, 3600, "PDT")
           } else {
            Table::row(1162112400, -28800, 0, "PST")
           }
          }
         } else {
          if i < 125 {
           Table::row(1173607200, -28800, 3600, "PDT")
          } else {
           if i < 126 {
            Table::row(1194166800, -28800, 0, "PST")
           } else {
            Table::row(1205056800, -28800, 3600, "PDT")
           }
          }
         }
        }
       } else {
        if i < 133 {
         if i < 130 {
          if i < 128 {
           Table::row(1225616400, -28800, 0, "PST")
          } else {
           if i < 129 {
            Table::row(1236506400, -28800, 3600, "PDT")
           } else {
            Table::row(1257066000, -28800, 0, "PST")
           }
          }
         } else {
          if i < 131 {
           Table::row(1268560800, -28800, 3600, "PDT")
          } else {
           if i < 132 {
            Table::row(1289120400, -28800, 0, "PST")
           } else {
            Table::row(1300010400, -28800, 3600, "PDT")
           }
          }
         }
        } else {
         if i < 136 {
          if i < 134 {
           Table::row(1320570000, -28800, 0, "PST")
          } else {
           if i < 135 {
            Table::row(1331460000, -28800, 3600, "PDT")
           } else {
            Table::row(1352019600, -28800, 0, "PST")
           }
          }
         } else {
          if i < 137 {
           Table::row(1362909600, -28800, 3600, "PDT")
          } else {
           if i < 138 {
            Table::row(1383469200, -28800, 0, "PST")
           } else {
            Table::row(1394359200, -28800, 3600, "PDT")
           }
          }
         }
        }
       }
      }
     } else {
      if i < 162 {
       if i < 150 {
        if i < 144 {
         if i < 141 {
          if i < 140 {
           Table::row(1414918800, -28800, 0, "PST")
          } else {
           Table::row(1425808800, -28800, 3600, "PDT")
          }
         } else {
          if i < 142 {
           Table::row(1446368400, -28800, 0, "PST")
          } else {
           if i < 143 {
            Table::row(1457863200, -28800, 3600, "PDT")
           } else {
            Table::row(1478422800, -28800, 0, "PST")
           }
          }
         }
        } else {
         if i < 147 {
          if i < 145 {
           Table::row(1489312800, -28800, 3600, "PDT")
          } else {
           if i < 146 {
            Table::row(1509872400, -28800, 0, "PST")
           } else {
            Table::row(1520762400, -28800, 3600, "PDT")
           }
          }
         } else {
          if i < 148 {
           Table::row(1541322000, -28800, 0, "PST")
          } else {
           if i < 149 {
            Table::row(1552212000, -28800, 3600, "PDT")
           } else {
            Table::row(1572771600, -28800, 0, "PST")
           }
          }
         }
        }
       } else {
        if i < 156 {
         if i < 153 {
          if i < 151 {
           Table::row(1583661600, -28800, 3600, "PDT")
          } else {
           if i < 152 {
            Table::row(1604221200, -28800, 0, "PST")
           } else {
            Table::row(1615716000, -28800, 3600, "PDT")
           }
          }
         } else {
          if i < 154 {
           Table::row(1636275600, -28800, 0, "PST")
          } else {
           if i < 155 {
            Table::row(1647165600, -28800, 3600, "PDT")
           } else {
            Table::row(1667725200, -28800, 0, "PST")
           }
          }
         }
        } else {
         if i < 159 {
          if i < 157 {
           Table::row(1678615200, -28800, 3600, "PDT")
          } else {
           if i < 158 {
            Table::row(1699174800, -28800, 0, "PST")
           } else {
            Table::row(1710064800, -28800, 3600, "PDT")
           }
          }
         } else {
          if i < 160 {
           Table::row(1730624400, -28800, 0, "PST")
          } else {
           if i < 161 {
            Table::row(1741514400, -28800, 3600, "PDT")
           } else {
            Table::row(1762074000, -28800, 0, "PST")
           }
          }
         }
        }
       }
      } else {
       if i < 174 {
        if i < 168 {
         if i < 165 {
          if i < 163 {
           Table::row(1772964000, -28800, 3600, "PDT")
          } else {
           if i < 164 {
            Table::row(1793523600, -28800, 0, "PST")
           } else {
            Table::row(1805018400, -28800, 3600, "PDT")
           }
          }
         } else {
          if i < 166 {
           Table::row(1825578000, -28800, 0, "PST")
          } else {
           if i < 167 {
            Table::row(1836468000, -28800, 3600, "PDT")
           } else {
            Table::row(1857027600, -28800, 0, "PST")
           }
          }
         }
        } else {
         if i < 171 {
          if i < 169 {
           Table::row(1867917600, -28800, 3600, "PDT")
          } else {
           if i < 170 {
            Table::row(1888477200, -28800, 0, "PST")
           } else {
            Table::row(1899367200, -28800, 3600, "PDT")
           }
          }
         } else {
          if i < 172 {
           Table::row(1919926800, -28800, 0, "PST")
          } else {
           if i < 173 {
            Table::row(1930816800, -28800, 3600, "PDT")
           } else {
            Table::row(1951376400, -28800, 0, "PST")
           }
          }
         }
        }
       } else {
        if i < 180 {
         if i < 177 {
          if i < 175 {
           Table::row(1962871200, -28800, 3600, "PDT")
          } else {
           if i < 176 {
            Table::row(1983430800, -28800, 0, "PST")
           } else {
            Table::row(1994320800, -28800, 3600, "PDT")
           }
          }
         } else {
          if i < 178 {
           Table::row(2014880400, -28800, 0, "PST")
          } else {
           if i < 179 {
            Table::row(2025770400, -28800, 3600, "PDT")
           } else {
            Table::row(2046330000, -28800, 0, "PST")
           }
          }
         }
        } else {
         if i < 183 {
          if i < 181 {
           Table::row(2057220000, -28800, 3600, "PDT")
          } else {
           if i < 182 {
            Table::row(2077779600, -28800, 0, "PST")
           } else {
            Table::row(2088669600, -28800, 3600, "PDT")
           }
          }
         } else {
          if i < 184 {
           Table::row(2109229200, -28800, 0, "PST")
          } else {
           if i < 185 {
            Table::row(2120119200, -28800, 3600, "PDT")
           } else {
            Table::row(2140678800, -28800, 0, "PST")
           }
          }
         }
        }
       }
      }
     }
    }
}

/// The rows of the table of the zone `America/Los_Angeles`.
pub open spec fn los_angeles_rows() -> spec_fn(int) -> (i64, FixedTimespan) {
    |i: int| los_angeles_row(i)
}

/// The table of the zone `America/Los_Angeles`.
pub open spec fn los_angeles() -> Table {
    Table::listed(Table::row(0, -28378, 0, "LMT").1, 186, los_angeles_rows())
}

/// Row `i` of the table of the zone `America/Louisville`.
pub open spec fn louisville_row(i: int) -> (i64, FixedTimespan) {
    if i < 89 {
     if i < 44 {
      if i < 22 {
       if i < 11 {
        if i < 5 {
         if i < 2 {
          if i < 1 {
           Table::row(-2717647200, -21600, 0, "CST")
          } else {
           Table::row(-1633276800, -21600, 3600, "CDT")
          }
         } else {
          if i < 3 {
           Table::row(-1615136400, -21600, 0, "CST")
          } else {
           if i < 4 {
            Table::row(-1601827200, -21600, 3600, "CDT")
           } else {
            Table::row(-1583686800, -21600, 0, "CST")
           }
          }
         }
        } else {
         if i < 8 {
          if i < 6 {
           Table::row(-1535904000, -21600, 3600, "CDT")
          } else {
           if i < 7 {
            Table::row(-1525280400, -21600, 0, "CST")
           } else {
            Table::row(-905097600, -21600, 3600, "CDT")
           }
          }
         } else {
          if i < 9 {
           Table::row(-891795600, -21600, 0, "CST")
          } else {
           if i < 10 {
            Table::row(-880214400, -21600, 3600, "CWT")
           } else {
            Table::row(-769395600, -21600, 3600, "CPT")
           }
          }
         }
        }
       } else {
        if i < 16 {
         if i < 13 {
          if i < 12 {
           Table::row(-765392400, -21600, 0, "CST")
          } else {
           Table::row(-747251940, -21600, 3600, "CDT")
          }
         } else {
          if i < 14 {
           Table::row(-744224400, -21600, 0, "CST")
          } else {
           if i < 15 {
            Table::row(-620841600, -21600, 3600, "CDT")
           } else {
            Table::row(-608144400, -21600, 0, "CST")
           }
          }
         }
        } else {
         if i < 19 {
          if i < 17 {
           Table::row(-589392000, -21600, 3600, "CDT")
          } else {
           if i < 18 {
            Table::row(-576090000, -21600, 0, "CST")
           } else {
            Table::row(-557942400, -21600, 3600, "CDT")
           }
          }
         } else {
          if i < 20 {
           Table::row(-544640400, -21600, 0, "CST")
          } else {
           if i < 21 {
            Table::row(-526492800, -21600, 3600, "CDT")
           } else {
            Table::row(-513190800, -21600, 0, "CST")
           }
          }
         }
        }
       }
      } else {
       if i < 33 {
        if i < 27 {
         if i < 24 {
          if i < 23 {
           Table::row(-495043200, -21600, 3600, "CDT")
          } else {
           Table::row(-481741200, -21600, 0, "CST")
          }
         } else {
          if i < 25 {
           Table::row(-463593600, -21600, 3600, "CDT")
          } else {
           if i < 26 {
            Table::row(-450291600, -21600, 0, "CST")
           } else {
            Table::row(-431539200, -21600, 3600, "CDT")
           }
          }
         }
        } else {
         if i < 30 {
          if i < 28 {
           Table::row(-415818000, -21600, 0, "CST")
          } else {
           if i < 29 {
            Table::row(-400089600, -21600, 3600, "CDT")
           } else {
            Table::row(-384368400, -21600, 0, "CST")
           }
          }
         } else {
          if i < 31 {
           Table::row(-368640000, -21600, 3600, "CDT")
          } else {
           if i < 32 {
            Table::row(-352918800, -21600, 0, "CST")
           } else {
            Table::row(-337190400, -21600, 3600, "CDT")
           }
          }
         }
        }
       } else {
        if i < 38 {
         if i < 35 {
          if i < 34 {
           Table::row(-321469200, -21600, 0, "CST")
          } else {
           Table::row(-305740800, -21600, 3600, "CDT")
          }
         } else {
          if i < 36 {
           Table::row(-289414800, -21600, 0, "CST")
          } else {
           if i < 37 {
            Table::row(-273686400, -21600, 3600, "CDT")
           } else {
            Table::row(-266432400, -18000, 0, "EST")
           }
          }
         }
        } else {
         if i < 41 {
          if i < 39 {
           Table::row(-52938000, -18000, 3600, "EDT")
          } else {
           if i < 40 {
            Table::row(-37216800, -18000, 0, "EST")
           } else {
            Table::row(-21488400, -18000, 3600, "EDT")
           }
          }
         } else {
          if i < 42 {
           Table::row(-5767200, -18000, 0, "EST")
          } else {
           if i < 43 {
            Table::row(9961200, -18000, 3600, "EDT")
           } else {
            Table::row(25682400, -18000, 0, "EST")
           }
          }
         }
        }
       }
      }
     } else {
      if i < 66 {
       if i < 55 {
        if i < 49 {
         if i < 46 {
          if i < 45 {
           Table::row(41410800, -18000, 3600, "EDT")
          } else {
           Table::row(57736800, -18000, 0, "EST")
          }
         } else {
          if i < 47 {
           Table::row(73465200, -18000, 3600, "EDT")
          } else {
           if i < 48 {
            Table::row(89186400, -18000, 0, "EST")
           } else {
            Table::row(104914800, -18000, 3600, "EDT")
           }
          }
         }
        } else {
         if i < 52 {
          if i < 50 {
           Table::row(120636000, -18000, 0, "EST")
          } else {
           if i < 51 {
            Table::row(126687600, -21600, 3600, "CDT")
           } else {
            Table::row(152089200, -18000, 0, "EST")
           }
          }
         } else {
          if i < 53 {
           Table::row(162370800, -18000, 3600, "EDT")
          } else {
           if i < 54 {
            Table::row(183535200, -18000, 0, "EST")
           } else {
            Table::row(199263600, -18000, 3600, "EDT")
           }
          }
         }
        }
       } else {
        if i < 60 {
         if i < 57 {
          if i < 56 {
           Table::row(215589600, -18000, 0, "EST")
          } else {
           Table::row(230713200, -18000, 3600, "EDT")
          }
         } else {
          if i < 58 {
           Table::row(247039200, -18000, 0, "EST")
          } else {
           if i < 59 {
            Table::row(262767600, -18000, 3600, "EDT")
           } else {
            Table::row(278488800, -18000, 0, "EST")
           }
          }
         }
        } else {
         if i < 63 {
          if i < 61 {
           Table::row(294217200, -18000, 3600, "EDT")
          } else {
           if i < 62 {
            Table::row(309938400, -18000, 0, "EST")
           } else {
            Table::row(325666800, -18000, 3600, "EDT")
           }
          }
         } else {
          if i < 64 {
           Table::row(341388000, -18000, 0, "EST")
          } else {
           if i < 65 {
            Table::row(357116400, -18000, 3600, "EDT")
           } else {
            Table::row(372837600, -18000, 0, "EST")
           }
          }
         }
        }
       }
      } else {
       if i < 77 {
        if i < 71 {
         if i < 68 {
          if i < 67 {
           Table::row(388566000, -18000, 3600, "EDT")
          } else {
           Table::row(404892000, -18000, 0, "EST")
          }
         } else {
          if i < 69 {
           Table::row(420015600, -18000, 3600, "EDT")
          } else {
           if i < 70 {
            Table::row(436341600, -18000, 0, "EST")
           } else {
            Table::row(452070000, -18000, 3600, "EDT")
           }
          }
         }
        } else {
         if i < 74 {
          if i < 72 {
           Table::row(467791200, -18000, 0, "EST")
          } else {
           if i < 73 {
            Table::row(483519600, -18000, 3600, "EDT")
           } else {
            Table::row(499240800, -18000, 0, "EST")
           }
          }
         } else {
          if i < 75 {
           Table::row(514969200, -18000, 3600, "EDT")
          } else {
           if i < 76 {
            Table::row(530690400, -18000, 0, "EST")
           } else {
            Table::row(544604400, -18000, 3600, "EDT")
           }
          }
         }
        }
       } else {
        if i < 83 {
         if i < 80 {
          if i < 78 {
           Table::row(562140000, -18000, 0, "EST")
          } else {
           if i < 79 {
            Table::row(576054000, -18000, 3600, "EDT")
           } else {
            Table::row(594194400, -18000, 0, "EST")
           }
          }
         } else {
          if i < 81 {
           Table::row(607503600, -18000, 3600, "EDT")
          } else {
           if i < 82 {
            Table::row(625644000, -18000, 0, "EST")
           } else {
            Table::row(638953200, -18000, 3600, "EDT")
           }
          }
         }
        } else {
         if i < 86 {
          if i < 84 {
           Table::row(657093600, -18000, 0, "EST")
          } else {
           if i < 85 {
            Table::row(671007600, -18000, 3600, "EDT")
           } else {
            Table::row(688543200, -18000, 0, "EST")
           }
          }
         } else {
          if i < 87 {
           Table::row(702457200, -18000, 3600, "EDT")
          } else {
           if i < 88 {
            Table::row(719992800, -18000, 0, "EST")
           } else {
            Table::row(733906800, -18000, 3600, "EDT")
           }
          }
         }
        }
       }
      }
     }
    } else {
     if i < 133 {
      if i < 111 {
       if i < 100 {
        if i < 94 {
         if i < 91 {
          if i < 90 {
           Table::row(752047200, -18000, 0, "EST")
          } else {
           Table::row(765356400, -18000, 3600, "EDT")
          }
         } else {
          if i < 92 {
           Table::row(783496800, -18000, 0, "EST")
          } else {
           if i < 93 {
            Table::row(796806000, -18000, 3600, "EDT")
           } else {
            Table::row(814946400, -18000, 0, "EST")
           }
          }
         }
        } else {
         if i < 97 {
          if i < 95 {
           Table::row(828860400, -18000, 3600, "EDT")
          } else {
           if i < 96 {
            Table::row(846396000, -18000, 0, "EST")
           } else {
            Table::row(860310000, -18000, 3600, "EDT")
           }
          }
         } else {
          if i < 98 {
           Table::row(877845600, -18000, 0, "EST")
          } else {
           if i < 99 {
            Table::row(891759600, -18000, 3600, "EDT")
           } else {
            Table::row(909295200, -18000, 0, "EST")
           }
          }
         }
        }
       } else {
        if i < 105 {
         if i < 102 {
          if i < 101 {
           Table::row(923209200, -18000, 3600, "EDT")
          } else {
           Table::row(941349600, -18000, 0, "EST")
          }
         } else {
          if i < 103 {
           Table::row(954658800, -18000, 3600, "EDT")
          } else {
           if i < 104 {
            Table::row(972799200, -18000, 0, "EST")
           } else {
            Table::row(986108400, -18000, 3600, "EDT")
           }
          }
         }
        } else {
         if i < 108 {
          if i < 106 {
           Table::row(1004248800, -18000, 0, "EST")
          } else {
           if i < 107 {
            Table::row(1018162800, -18000, 3600, "EDT")
           } else {
            Table::row(1035698400, -18000, 0, "EST")
           }
          }
         } else {
          if i < 109 {
           Table::row(1049612400, -18000, 3600, "EDT")
          } else {
           if i < 110 {
            Table::row(1067148000, -18000, 0, "EST")
           } else {
            Table::row(1081062000, -18000, 3600, "EDT")
           }
          }
         }
        }
       }
      } else {
       if i < 122 {
        if i < 116 {
         if i < 113 {
          if i < 112 {
           Table::row(1099202400, -18000, 0, "EST")
          } else {
           Table::row(1112511600, -18000, 3600, "EDT")
          }
         } else {
          if i < 114 {
           Table::row(1130652000, -18000, 0, "EST")
          } else {
           if i < 115 {
            Table::row(1143961200, -18000, 3600, "EDT")
           } else {
            Table::row(1162101600, -18000, 0, "EST")
           }
          }
         }
        } else {
         if i < 119 {
          if i < 117 {
           Table::row(1173596400, -18000, 3600, "EDT")
          } else {
           if i < 118 {
            Table::row(1194156000, -18000, 0, "EST")
           } else {
            Table::row(1205046000, -18000, 3600, "EDT")
           }
          }
         } else {
          if i < 120 {
           Table::row(1225605600, -18000, 0, "EST")
          } else {
           if i < 121 {
            Table::row(1236495600, -18000, 3600, "EDT")
           } else {
            Table::row(1257055200, -18000, 0, "EST")
           }
          }
         }
        }
       } else {
        if i < 127 {
         if i < 124 {
          if i < 123 {
           Table::row(1268550000, -18000, 3600, "EDT")
          } else {
           Table::row(1289109600, -18000, 0, "EST")
          }
         } else {
          if i < 125 {
           Table::row(1299999600, -18000, 3600, "EDT")
          } else {
           if i < 126 {
            Table::row(1320559200, -18000, 0, "EST")
           } else {
            Table::row(1331449200, -18000, 3600, "EDT")
           }
          }
         }
        } else {
         if i < 130 {
          if i < 128 {
           Table::row(1352008800, -18000, 0, "EST")
          } else {
           if i < 129 {
            Table::row(1362898800, -18000, 3600, "EDT")
           } else {
            Table::row(1383458400, -18000, 0, "EST")
           }
          }
         } else {
          if i < 131 {
           Table::row(1394348400, -18000, 3600, "EDT")
          } else {
           if i < 132 {
            Table::row(1414908000, -18000, 0, "EST")
           } else {
            Table::row(1425798000, -18000, 3600, "EDT")
           }
          }
         }
        }
       }
      }
     } else {
      if i < 155 {
       if i < 144 {
        if i < 138 {
         if i < 135 {
          if i < 134 {
           Table::row(1446357600, -18000, 0, "EST")
          } else {
           Table::row(1457852400, -18000, 3600, "EDT")
          }
         } else {
          if i < 136 {
           Table::row(1478412000, -18000, 0, "EST")
          } else {
           if i < 137 {
            Table::row(1489302000, -18000, 3600, "EDT")
           } else {
            Table::row(1509861600, -18000, 0, "EST")
           }
          }
         }
        } else {
         if i < 141 {
          if i < 139 {
           Table::row(1520751600, -18000, 3600, "EDT")
          } else {
           if i < 140 {
            Table::row(1541311200, -18000, 0, "EST")
           } else {
            Table::row(1552201200, -18000, 3600, "EDT")
           }
          }
         } else {
          if i < 142 {
           Table::row(1572760800, -18000, 0, "EST")
          } else {
           if i < 143 {
            Table::row(1583650800, -18000, 3600, "EDT")
           } else {
            Table::row(1604210400, -18000, 0, "EST")
           }
          }
         }
        }
       } else {
        if i < 149 {
         if i < 146 {
          if i < 145 {
           Table::row(1615705200, -18000, 3600, "EDT")
          } else {
           Table::row(1636264800, -18000, 0, "EST")
          }
         } else {
          if i < 147 {
           Table::row(1647154800, -18000, 3600, "EDT")
          } else {
           if i < 148 {
            Table::row(1667714400, -18000, 0, "EST")
           } else {
            Table::row(1678604400, -18000, 3600, "EDT")
           }
          }
         }
        } else {
         if i < 152 {
          if i < 150 {
           Table::row(1699164000, -18000, 0, "EST")
          } else {
           if i < 151 {
            Table::row(1710054000, -18000, 3600, "EDT")
           } else {
            Table::row(1730613600, -18000, 0, "EST")
           }
          }
         } else {
          if i < 153 {
           Table::row(1741503600, -18000, 3600, "EDT")
          } else {
           if i < 154 {
            Table::row(1762063200, -18000, 0, "EST")
           } else {
            Table::row(1772953200, -18000, 3600, "EDT")
           }
          }
         }
        }
       }
      } else {
       if i < 166 {
        if i < 160 {
         if i < 157 {
          if i < 156 {
           Table::row(1793512800, -18000, 0, "EST")
          } else {
           Table::row(1805007600, -18000, 3600, "EDT")
          }
         } else {
          if i < 158 {
           Table::row(1825567200, -18000, 0, "EST")
          } else {
           if i < 159 {
            Table::row(1836457200, -18000, 3600, "EDT")
           } else {
            Table::row(1857016800, -18000, 0, "EST")
           }
          }
         }
        } else {
         if i < 163 {
          if i < 161 {
           Table::row(1867906800, -18000, 3600, "EDT")
          } else {
           if i < 162 {
            Table::row(1888466400, -18000, 0, "EST")
           } else {
            Table::row(1899356400, -18000, 3600, "EDT")
           }
          }
         } else {
          if i < 164 {
           Table::row(1919916000, -18000, 0, "EST")
          } else {
           if i < 165 {
            Table::row(1930806000, -18000, 3600, "EDT")
           } else {
            Table::row(1951365600, -18000, 0, "EST")
           }
          }
         }
        }
       } else {
        if i < 172 {
         if i < 169 {
          if i < 167 {
           Table::row(1962860400, -18000, 3600, "EDT")
          } else {
           if i < 168 {
            Table::row(1983420000, -18000, 0, "EST")
           } else {
            Table::row(1994310000, -18000, 3600, "EDT")
           }
          }
         } else {
          if i < 170 {
           Table::row(2014869600, -18000, 0, "EST")
          } else {
           if i < 171 {
            Table::row(2025759600, -18000, 3600, "EDT")
           } else {
            Table::row(2046319200, -18000, 0, "EST")
           }
          }
         }
        } else {
         if i < 175 {
          if i < 173 {
           Table::row(2057209200, -18000, 3600, "EDT")
          } else {
           if i < 174 {
            Table::row(2077768800, -18000, 0, "EST")
           } else {
            Table::row(2088658800, -18000, 3600, "EDT")
           }
          }
         } else {
          if i < 176 {
           Table::row(2109218400, -18000, 0, "EST")
          } else {
           if i < 177 {
            Table::row(2120108400, -18000, 3600, "EDT")
           } else {
            Table::row(2140668000, -18000, 0, "EST")
           }
          }
         }
        }
       }
      }
     }
    }
}

/// The rows of the table of the zone `America/Louisville`.
pub open spec fn louisville_rows() -> spec_fn(int) -> (i64, FixedTimespan) {
    |i: int| louisville_row(i)
}

/// The table of the zone `America/Louisville`.
pub open spec fn louisville() -> Table {
    Table::listed(Table::row(0, -20582, 0, "LMT").1, 178, louisville_rows())
}

/// Row `i` of the table of the zone `America/Lower_Princes`.
pub open spec fn lower_princes_row(i: int) -> (i64, FixedTimespan) {
    if i < 2 {
     if i < 1 {
      Table::row(-2233035335, -14400, 0, "AST")
     } else {
      Table::row(-873057600, -14400, 3600, "AWT")
     }
    } else {
     if i < 3 {
      Table::row(-769395600, -14400, 3600, "APT")
     } else {
      Table::row(-765399600, -14400, 0, "AST")
     }
    }
}

/// The rows of the table of the zone `America/Lower_Princes`.
pub open spec fn lower_princes_rows() -> spec_fn(int) -> (i64, FixedTimespan) {
    |i: int| lower_princes_row(i)
}

/// The table of the zone `America/Lower_Princes`.
pub open spec fn lower_princes() -> Table {
    Table::listed(Table::row(0, -15865, 0, "LMT").1, 4, lower_princes_rows())
}

/// Row `i` of the table of the zone `America/Maceio`.
pub open spec fn maceio_row(i: int) -> (i64, FixedTimespan) {
    if i < 21 {
     if i < 10 {
      if i < 5 {
       if i < 2 {
        if i < 1 {
         Table::row(-1767217028, -10800, 0, "-03")
        } else {
         Table::row(-1206957600, -10800, 3600, "-02")
        }
       } else {
        if i < 3 {
         Table::row(-1191362400, -10800, 0, "-03")
        } else {
         if i < 4 {
          Table::row(-1175374800, -10800, 3600, "-02")
         } else {
          Table::row(-1159826400, -10800, 0, "-03")
         }
        }
       }
      } else {
       if i < 7 {
        if i < 6 {
         Table::row(-633819600, -10800, 3600, "-02")
        } else {
         Table::row(-622069200, -10800, 0, "-03")
        }
       } else {
        if i < 8 {
         Table::row(-602283600, -10800, 3600, "-02")
        } else {
         if i < 9 {
          Table::row(-591832800, -10800, 0, "-03")
         } else {
          Table::row(-570747600, -10800, 3600, "-02")
         }
        }
       }
      }
     } else {
      if i < 15 {
       if i < 12 {
        if i < 11 {
         Table::row(-560210400, -10800, 0, "-03")
        } else {
         Table::row(-539125200, -10800, 3600, "-02")
        }
       } else {
        if i < 13 {
         Table::row(-531352800, -10800, 0, "-03")
        } else {
         if i < 14 {
          Table::row(-191365200, -10800, 3600, "-02")
         } else {
          Table::row(-184197600, -10800, 0, "-03")
         }
        }
       }
      } else {
       if i < 18 {
        if i < 16 {
         Table::row(-155163600, -10800, 3600, "-02")
        } else {
         if i < 17 {
          Table::row(-150069600, -10800, 0, "-03")
         } else {
          Table::row(-128898000, -10800, 3600, "-02")
         }
        }
       } else {
        if i < 19 {
         Table::row(-121125600, -10800, 0, "-03")
        } else {
         if i < 20 {
          Table::row(-99954000, -10800, 3600, "-02")
         } else {
          Table::row(-89589600, -10800, 0, "-03")
         }
        }
       }
      }
     }
    } else {
     if i < 31 {
      if i < 26 {
       if i < 23 {
        if i < 22 {
         Table::row(-68418000, -10800, 3600, "-02")
        } else {
         Table::row(-57967200, -10800, 0, "-03")
        }
       } else {
        if i < 24 {
         Table::row(499748400, -10800, 3600, "-02")
        } else {
         if i < 25 {
          Table::row(511236000, -10800, 0, "-03")
         } else {
          Table::row(530593200, -10800, 3600, "-02")
         }
        }
       }
      } else {
       if i < 28 {
        if i < 27 {
         Table::row(540266400, -10800, 0, "-03")
        } else {
         Table::row(562129200, -10800, 3600, "-02")
        }
       } else {
        if i < 29 {
         Table::row(571197600, -10800, 0, "-03")
        } else {
         if i < 30 {
          Table::row(592974000, -10800, 3600, "-02")
         } else {
          Table::row(602042400, -10800, 0, "-03")
         }
        }
       }
      }
     } else {
      if i < 36 {
       if i < 33 {
        if i < 32 {
         Table::row(624423600, -10800, 3600, "-02")
        } else {
         Table::row(634701600, -10800, 0, "-03")
        }
       } else {
        if i < 34 {
         Table::row(813726000, -10800, 3600, "-02")
        } else {
         if i < 35 {
          Table::row(824004000, -10800, 0, "-03")
         } else {
          Table::row(938919600, -10800, 3600, "-02")
         }
        }
       }
      } else {
       if i < 39 {
        if i < 37 {
         Table::row(951616800, -10800, 0, "-03")
        } else {
         if i < 38 {
          Table::row(970974000, -10800, 3600, "-02")
         } else {
          Table::row(972180000, -10800, 0, "-03")
         }
        }
       } else {
        if i < 40 {
         Table::row(1003028400, -10800, 3600, "-02")
        } else {
         if i < 41 {
          Table::row(1013911200, -10800, 0, "-03")
         } else {
          Table::row(2147483647, -10800, 0, "-03")
         }
        }
       }
      }
     }
    }
}

/// The rows of the table of the zone `America/Maceio`.
pub open spec fn maceio_rows() -> spec_fn(int) -> (i64, FixedTimespan) {
    |i: int| maceio_row(i)
}

/// The table of the zone `America/Maceio`.
pub open spec fn maceio() -> Table {
    Table::listed(Table::row(0, -8572, 0, "LMT").1, 42, maceio_rows())
}

/// Row `i` of the table of the zone `America/Managua`.
pub open spec fn managua_row(i: int) -> (i64, FixedTimespan) {
    if i < 8 {
     if i < 4 {
      if i < 2 {
       if i < 1 {
        Table::row(-2524500892, -20712, 0, "MMT")
       } else {
        Table::row(-1121105688, -21600, 0, "CST")
       }
      } else {
       if i < 3 {
        Table::row(105084000, -18000, 0, "EST")
       } else {
        Table::row(161758800, -21600, 0, "CST")
       }
      }
     } else {
      if i < 6 {
       if i < 5 {
        Table::row(290584800, -21600, 3600, "CDT")
       } else {
        Table::row(299134800, -21600, 0, "CST")
       }
      } else {
       if i < 7 {
        Table::row(322034400, -21600, 3600, "CDT")
       } else {
        Table::row(330584400, -21600, 0, "CST")
       }
      }
     }
    } else {
     if i < 12 {
      if i < 10 {
       if i < 9 {
        Table::row(694260000, -18000, 0, "EST")
       } else {
        Table::row(717310800, -21600, 0, "CST")
       }
      } else {
       if i < 11 {
        Table::row(725868000, -18000, 0, "EST")
       } else {
        Table::row(852094800, -21600, 0, "CST")
       }
      }
     } else {
      if i < 14 {
       if i < 13 {
        Table::row(1113112800, -21600, 3600, "CDT")
       } else {
        Table::row(1128229200, -21600, 0, "CST")
       }
      } else {
       if i < 15 {
        Table::row(1146384000, -21600, 3600, "CDT")
       } else {
        Table::row(1159682400, -21600, 0, "CST")
       }
      }
     }
    }
}

/// The rows of the table of the zone `America/Managua`.
pub open spec fn managua_rows() -> spec_fn(int) -> (i64, FixedTimespan) {
    |i: int| managua_row(i)
}

/// The table of the zone `America/Managua`.
pub open spec fn managua() -> Table {
    Table::listed(Table::row(0, -20708, 0, "LMT").1, 16, managua_rows())
}

/// Row `i` of the table of the zone `America/Manaus`.
pub open spec fn manaus_row(i: int) -> (i64, FixedTimespan) {
    if i < 16 {
     if i < 8 {
      if i < 4 {
       if i < 2 {
        if i < 1 {
         Table::row(-1767211196, -14400, 0, "-04")
        } else {
         Table::row(-1206954000, -14400, 3600, "-03")
        }
       } else {
        if i < 3 {
         Table::row(-1191358800, -14400, 0, "-04")
        } else {
         Table::row(-1175371200, -14400, 3600, "-03")
        }
       }
      } else {
       if i < 6 {
        if i < 5 {
         Table::row(-1159822800, -14400, 0, "-04")
        } else {
         Table::row(-633816000, -14400, 3600, "-03")
        }
       } else {
        if i < 7 {
         Table::row(-622065600, -14400, 0, "-04")
        } else {
         Table::row(-602280000, -14400, 3600, "-03")
        }
       }
      }
     } else {
      if i < 12 {
       if i < 10 {
        if i < 9 {
         Table::row(-591829200, -14400, 0, "-04")
        } else {
         Table::row(-570744000, -14400, 3600, "-03")
        }
       } else {
        if i < 11 {
         Table::row(-560206800, -14400, 0, "-04")
        } else {
         Table::row(-539121600, -14400, 3600, "-03")
        }
       }
      } else {
       if i < 14 {
        if i < 13 {
         Table::row(-531349200, -14400, 0, "-04")
        } else {
         Table::row(-191361600, -14400, 3600, "-03")
        }
       } else {
        if i < 15 {
         Table::row(-184194000, -14400, 0, "-04")
        } else {
         Table::row(-155160000, -14400, 3600, "-03")
        }
       }
      }
     }
    } else {
     if i < 24 {
      if i < 20 {
       if i < 18 {
        if i < 17 {
         Table::row(-150066000, -14400, 0, "-04")
        } else {
         Table::row(-128894400, -14400, 3600, "-03")
        }
       } else {
        if i < 19 {
         Table::row(-121122000, -14400, 0, "-04")
        } else {
         Table::row(-99950400, -14400, 3600, "-03")
        }
       }
      } else {
       if i < 22 {
        if i < 21 {
         Table::row(-89586000, -14400, 0, "-04")
        } else {
         Table::row(-68414400, -14400, 3600, "-03")
        }
       } else {
        if i < 23 {
         Table::row(-57963600, -14400, 0, "-04")
        } else {
         Table::row(499752000, -14400, 3600, "-03")
        }
       }
      }
     } else {
      if i < 28 {
       if i < 26 {
        if i < 25 {
         Table::row(511239600, -14400, 0, "-04")
        } else {
         Table::row(530596800, -14400, 3600, "-03")
        }
       } else {
        if i < 27 {
         Table::row(540270000, -14400, 0, "-04")
        } else {
         Table::row(562132800, -14400, 3600, "-03")
        }
       }
      } else {
       if i < 30 {
        if i < 29 {
         Table::row(571201200, -14400, 0, "-04")
        } else {
         Table::row(750830400, -14400, 3600, "-03")
        }
       } else {
        if i < 31 {
         Table::row(761713200, -14400, 0, "-04")
        } else {
         Table::row(2147483647, -14400, 0, "-04")
        }
       }
      }
     }
    }
}

/// The rows of the table of the zone `America/Manaus`.
pub open spec fn manaus_rows() -> spec_fn(int) -> (i64, FixedTimespan) {
    |i: int| manaus_row(i)
}

/// The table of the zone `America/Manaus`.
pub open spec fn manaus() -> Table {
    Table::listed(Table::row(0, -14404, 0, "LMT").1, 32, manaus_rows())
}

/// Row `i` of the table of the zone `America/Marigot`.
pub open spec fn marigot_row(i: int) -> (i64, FixedTimespan) {
    if i < 2 {
     if i < 1 {
      Table::row(-2233035335, -14400, 0, "AST")
     } else {
      Table::row(-873057600, -14400, 3600, "AWT")
     }
    } else {
     if i < 3 {
      Table::row(-769395600, -14400, 3600, "APT")
     } else {
      Table::row(-765399600, -14400, 0, "AST")
     }
    }
}

/// The rows of the table of the zone `America/Marigot`.
pub open spec fn marigot_rows() -> spec_fn(int) -> (i64, FixedTimespan) {
    |i: int| marigot_row(i)
}

/// The table of the zone `America/Marigot`.
pub open spec fn marigot() -> Table {
    Table::listed(Table::row(0, -15865, 0, "LMT").1, 4, marigot_rows())
}

/// Row `i` of the table of the zone `America/Martinique`.
pub open spec fn martinique_row(i: int) -> (i64, FixedTimespan) {
    if i < 2 {
     if i < 1 {
      Table::row(-2524506940, -14660, 0, "FFMT")
     } else {
      Table::row(-1851537340, -14400, 0, "AST")
     }
    } else {
     if i < 3 {
      Table::row(323841600, -14400, 3600, "ADT")
     } else {
      Table::row(338958000, -14400, 0, "AST")
     }
    }
}

/// The rows of the table of the zone `America/Martinique`.
pub open spec fn martinique_rows() -> spec_fn(int) -> (i64, FixedTimespan) {
    |i: int| martinique_row(i)
}

/// The table of the zone `America/Martinique`.
pub open spec fn martinique() -> Table {
    Table::listed(Table::row(0, -14660, 0, "LMT").1, 4, martinique_rows())
}

/// Row `i` of the table of the zone `America/Matamoros`.
pub open spec fn matamoros_row(i: int) -> (i64, FixedTimespan) {
    if i < 43 {
     if i < 21 {
      if i < 10 {
       if i < 5 {
        if i < 2 {
         if i < 1 {
          Table::row(-1514743200, -21600, 0, "CST")
         } else {
          Table::row(576057600, -21600, 3600, "CDT")
         }
        } else {
         if i < 3 {
          Table::row(594198000, -21600, 0, "CST")
         } else {
          if i < 4 {
           Table::row(828864000, -21600, 3600, "CDT")
          } else {
           Table::row(846399600, -21600, 0, "CST")
          }
         }
        }
       } else {
        if i < 7 {
         if i < 6 {
          Table::row(860313600, -21600, 3600, "CDT")
         } else {
          Table::row(877849200, -21600, 0, "CST")
         }
        } else {
         if i < 8 {
          Table::row(891763200, -21600, 3600, "CDT")
         } else {
          if i < 9 {
           Table::row(909298800, -21600, 0, "CST")
          } else {
           Table::row(923212800, -21600, 3600, "CDT")
          }
         }
        }
       }
      } else {
       if i < 15 {
        if i < 12 {
         if i < 11 {
          Table::row(941353200, -21600, 0, "CST")
         } else {
          Table::row(954662400, -21600, 3600, "CDT")
         }
        } else {
         if i < 13 {
          Table::row(972802800, -21600, 0, "CST")
         } else {
          if i < 14 {
           Table::row(989136000, -21600, 3600, "CDT")
          } else {
           Table::row(1001833200, -21600, 0, "CST")
          }
         }
        }
       } else {
        if i < 18 {
         if i < 16 {
          Table::row(1018166400, -21600, 3600, "CDT")
         } else {
          if i < 17 {
           Table::row(1035702000, -21600, 0, "CST")
          } else {
           Table::row(1049616000, -21600, 3600, "CDT")
          }
         }
        } else {
         if i < 19 {
          Table::row(1067151600, -21600, 0, "CST")
         } else {
          if i < 20 {
           Table::row(1081065600, -21600, 3600, "CDT")
          } else {
           Table::row(1099206000, -21600, 0, "CST")
          }
         }
        }
       }
      }
     } else {
      if i < 32 {
       if i < 26 {
        if i < 23 {
         if i < 22 {
          Table::row(1112515200, -21600, 3600, "CDT")
         } else {
          Table::row(1130655600, -21600, 0, "CST")
         }
        } else {
         if i < 24 {
          Table::row(1143964800, -21600, 3600, "CDT")
         } else {
          if i < 25 {
           Table::row(1162105200, -21600, 0, "CST")
          } else {
           Table::row(1175414400, -21600, 3600, "CDT")
          }
         }
        }
       } else {
        if i < 29 {
         if i < 27 {
          Table::row(1193554800, -21600, 0, "CST")
         } else {
          if i < 28 {
           Table::row(1207468800, -21600, 3600, "CDT")
          } else {
           Table::row(1225004400, -21600, 0, "CST")
          }
         }
        } else {
         if i < 30 {
          Table::row(1238918400, -21600, 3600, "CDT")
         } else {
          if i < 31 {
           Table::row(1256454000, -21600, 0, "CST")
          } else {
           Table::row(1268553600, -21600, 3600, "CDT")
          }
         }
        }
       }
      } else {
       if i < 37 {
        if i < 34 {
         if i < 33 {
          Table::row(1289113200, -21600, 0, "CST")
         } else {
          Table::row(1300003200, -21600, 3600, "CDT")
         }
        } else {
         if i < 35 {
          Table::row(1320562800, -21600, 0, "CST")
         } else {
          if i < 36 {
           Table::row(1331452800, -21600, 3600, "CDT")
          } else {
           Table::row(1352012400, -21600, 0, "CST")
          }
         }
        }
       } else {
        if i < 40 {
         if i < 38 {
          Table::row(1362902400, -21600, 3600, "CDT")
         } else {
          if i < 39 {
           Table::row(1383462000, -21600, 0, "CST")
          } else {
           Table::row(1394352000, -21600, 3600, "CDT")
          }
         }
        } else {
         if i < 41 {
          Table::row(1414911600, -21600, 0, "CST")
         } else {
          if i < 42 {
           Table::row(1425801600, -21600, 3600, "CDT")
          } else {
           Table::row(1446361200, -21600, 0, "CST")
          }
         }
        }
       }
      }
     }
    } else {
     if i < 65 {
      if i < 54 {
       if i < 48 {
        if i < 45 {
         if i < 44 {
          Table::row(1457856000, -21600, 3600, "CDT")
         } else {
          Table::row(1478415600, -21600, 0, "CST")
         }
        } else {
         if i < 46 {
          Table::row(1489305600, -21600, 3600, "CDT")
         } else {
          if i < 47 {
           Table::row(1509865200, -21600, 0, "CST")
          } else {
           Table::row(1520755200, -21600, 3600, "CDT")
          }
         }
        }
       } else {
        if i < 51 {
         if i < 49 {
          Table::row(1541314800, -21600, 0, "CST")
         } else {
          if i < 50 {
           Table::row(1552204800, -21600, 3600, "CDT")
          } else {
           Table::row(1572764400, -21600, 0, "CST")
          }
         }
        } else {
         if i < 52 {
          Table::row(1583654400, -21600, 3600, "CDT")
         } else {
          if i < 53 {
           Table::row(1604214000, -21600, 0, "CST")
          } else {
           Table::row(1615708800, -21600, 3600, "CDT")
          }
         }
        }
       }
      } else {
       if i < 59 {
        if i < 56 {
         if i < 55 {
          Table::row(1636268400, -21600, 0, "CST")
         } else {
          Table::row(1647158400, -21600, 3600, "CDT")
         }
        } else {
         if i < 57 {
          Table::row(1667718000, -21600, 0, "CST")
         } else {
          if i < 58 {
           Table::row(1678608000, -21600, 3600, "CDT")
          } else {
           Table::row(1699167600, -21600, 0, "CST")
          }
         }
        }
       } else {
        if i < 62 {
         if i < 60 {
          Table::row(1710057600, -21600, 3600, "CDT")
         } else {
          if i < 61 {
           Table::row(1730617200, -21600, 0, "CST")
          } else {
           Table::row(1741507200, -21600, 3600, "CDT")
          }
         }
        } else {
         if i < 63 {
          Table::row(1762066800, -21600, 0, "CST")
         } else {
          if i < 64 {
           Table::row(1772956800, -21600, 3600, "CDT")
          } else {
           Table::row(1793516400, -21600, 0, "CST")
          }
         }
        }
       }
      }
     } else {
      if i < 76 {
       if i < 70 {
        if i < 67 {
         if i < 66 {
          Table::row(1805011200, -21600, 3600, "CDT")
         } else {
          Table::row(1825570800, -21600, 0, "CST")
         }
        } else {
         if i < 68 {
          Table::row(1836460800, -21600, 3600, "CDT")
         } else {
          if i < 69 {
           Table::row(1857020400, -21600, 0, "CST")
          } else {
           Table::row(1867910400, -21600, 3600, "CDT")
          }
         }
        }
       } else {
        if i < 73 {
         if i < 71 {
          Table::row(1888470000, -21600, 0, "CST")
         } else {
          if i < 72 {
           Table::row(1899360000, -21600, 3600, "CDT")
          } else {
           Table::row(1919919600, -21600, 0, "CST")
          }
         }
        } else {
         if i < 74 {
          Table::row(1930809600, -21600, 3600, "CDT")
         } else {
          if i < 75 {
           Table::row(1951369200, -21600, 0, "CST")
          } else {
           Table::row(1962864000, -21600, 3600, "CDT")
          }
         }
        }
       }
      } else {
       if i < 81 {
        if i < 78 {
         if i < 77 {
          Table::row(1983423600, -21600, 0, "CST")
         } else {
          Table::row(1994313600, -21600, 3600, "CDT")
         }
        } else {
         if i < 79 {
          Table::row(2014873200, -21600, 0, "CST")
         } else {
          if i < 80 {
           Table::row(2025763200, -21600, 3600, "CDT")
          } else {
           Table::row(2046322800, -21600, 0, "CST")
          }
         }
        }
       } else {
        if i < 84 {
         if i < 82 {
          Table::row(2057212800, -21600, 3600, "CDT")
         } else {
          if i < 83 {
           Table::row(2077772400, -21600, 0, "CST")
          } else {
           Table::row(2088662400, -21600, 3600, "CDT")
          }
         }
        } else {
         if i < 85 {
          Table::row(2109222000, -21600, 0, "CST")
         } else {
          if i < 86 {
           Table::row(2120112000, -21600, 3600, "CDT")
          } else {
           Table::row(2140671600, -21600, 0, "CST")
          }
         }
        }
       }
      }
     }
    }
}

/// The rows of the table of the zone `America/Matamoros`.
pub open spec fn matamoros_rows() -> spec_fn(int) -> (i64, FixedTimespan) {
    |i: int| matamoros_row(i)
}

/// The table of the zone `America/Matamoros`.
pub open spec fn matamoros() -> Table {
    Table::listed(Table::row(0, -23400, 0, "LMT").1, 87, matamoros_rows())
}

/// Row `i` of the table of the zone `America/Mazatlan`.
pub open spec fn mazatlan_row(i: int) -> (i64, FixedTimespan) {
    if i < 30 {
     if i < 15 {
      if i < 7 {
       if i < 3 {
        if i < 1 {
         Table::row(-1514739600, -25200, 0, "MST")
        } else {
         if i < 2 {
          Table::row(-1343149200, -21600, 0, "CST")
         } else {
          Table::row(-1234807200, -25200, 0, "MST")
         }
        }
       } else {
        if i < 5 {
         if i < 4 {
          Table::row(-1220461200, -25200, 3600, "MDT")
         } else {
          Table::row(-1207159200, -25200, 0, "MST")
         }
        } else {
         if i < 6 {
          Table::row(-1191344400, -21600, 0, "CST")
         } else {
          Table::row(-873828000, -25200, 0, "MST")
         }
        }
       }
      } else {
       if i < 11 {
        if i < 9 {
         if i < 8 {
          Table::row(828867600, -25200, 3600, "MDT")
         } else {
          Table::row(846403200, -25200, 0, "MST")
         }
        } else {
         if i < 10 {
          Table::row(860317200, -25200, 3600, "MDT")
         } else {
          Table::row(877852800, -25200, 0, "MST")
         }
        }
       } else {
        if i < 13 {
         if i < 12 {
          Table::row(891766800, -25200, 3600, "MDT")
         } else {
          Table::row(909302400, -25200, 0, "MST")
         }
        } else {
         if i < 14 {
          Table::row(923216400, -25200, 3600, "MDT")
         } else {
          Table::row(941356800, -25200, 0, "MST")
         }
        }
       }
      }
     } else {
      if i < 22 {
       if i < 18 {
        if i < 16 {
         Table::row(954666000, -25200, 3600, "MDT")
        } else {
         if i < 17 {
          Table::row(972806400, -25200, 0, "MST")
         } else {
          Table::row(989139600, -25200, 3600, "MDT")
         }
        }
       } else {
        if i < 20 {
         if i < 19 {
          Table::row(1001836800, -25200, 0, "MST")
         } else {
          Table::row(1018170000, -25200, 3600, "MDT")
         }
        } else {
         if i < 21 {
          Table::row(1035705600, -25200, 0, "MST")
         } else {
          Table::row(1049619600, -25200, 3600, "MDT")
         }
        }
       }
      } else {
       if i < 26 {
        if i < 24 {
         if i < 23 {
          Table::row(1067155200, -25200, 0, "MST")
         } else {
          Table::row(1081069200, -25200, 3600, "MDT")
         }
        } else {
         if i < 25 {
          Table::row(1099209600, -25200, 0, "MST")
         } else {
          Table::row(1112518800, -25200, 3600, "MDT")
         }
        }
       } else {
        if i < 28 {
         if i < 27 {
          Table::row(1130659200, -25200, 0, "MST")
         } else {
          Table::row(1143968400, -25200, 3600, "MDT")
         }
        } else {
         if i < 29 {
          Table::row(1162108800, -25200, 0, "MST")
         } else {
          Table::row(1175418000, -25200, 3600, "MDT")
         }
        }
       }
      }
     }
    } else {
     if i < 45 {
      if i < 37 {
       if i < 33 {
        if i < 31 {
         Table::row(1193558400, -25200, 0, "MST")
        } else {
         if i < 32 {
          Table::row(1207472400, -25200, 3600, "MDT")
         } else {
          Table::row(1225008000, -25200, 0, "MST")
         }
        }
       } else {
        if i < 35 {
         if i < 34 {
          Table::row(1238922000, -25200, 3600, "MDT")
         } else {
          Table::row(1256457600, -25200, 0, "MST")
         }
        } else {
         if i < 36 {
          Table::row(1270371600, -25200, 3600, "MDT")
         } else {
          Table::row(1288512000, -25200, 0, "MST")
         }
        }
       }
      } else {
       if i < 41 {
        if i < 39 {
         if i < 38 {
          Table::row(1301821200, -25200, 3600, "MDT")
         } else {
          Table::row(1319961600, -25200, 0, "MST")
         }
        } else {
         if i < 40 {
          Table::row(1333270800, -25200, 3600, "MDT")
         } else {
          Table::row(1351411200, -25200, 0, "MST")
         }
        }
       } else {
        if i < 43 {
         if i < 42 {
          Table::row(1365325200, -25200, 3600, "MDT")
         } else {
          Table::row(1382860800, -25200, 0, "MST")
         }
        } else {
         if i < 44 {
          Table::row(1396774800, -25200, 3600, "MDT")
         } else {
          Table::row(1414310400, -25200, 0, "MST")
         }
        }
       }
      }
     } else {
      if i < 53 {
       if i < 49 {
        if i < 47 {
         if i < 46 {
          Table::row(1428224400, -25200, 3600, "MDT")
         } else {
          Table::row(1445760000, -25200, 0, "MST")
         }
        } else {
         if i < 48 {
          Table::row(1459674000, -25200, 3600, "MDT")
         } else {
          Table::row(1477814400, -25200, 0, "MST")
         }
        }
       } else {
        if i < 51 {
         if i < 50 {
          Table::row(1491123600, -25200, 3600, "MDT")
         } else {
          Table::row(1509264000, -25200, 0, "MST")
         }
        } else {
         if i < 52 {
          Table::row(1522573200, -25200, 3600, "MDT")
         } else {
          Table::row(1540713600, -25200, 0, "MST")
         }
        }
       }
      } else {
       if i < 57 {
        if i < 55 {
         if i < 54 {
          Table::row(1554627600, -25200, 3600, "MDT")
         } else {
          Table::row(1572163200, -25200, 0, "MST")
         }
        } else {
         if i < 56 {
          Table::row(1586077200, -25200, 3600, "MDT")
         } else {
          Table::row(1603612800, -25200, 0, "MST")
         }
        }
       } else {
        if i < 59 {
         if i < 58 {
          Table::row(1617526800, -25200, 3600, "MDT")
         } else {
          Table::row(1635667200, -25200, 0, "MST")
         }
        } else {
         if i < 60 {
          Table::row(1648976400, -25200, 3600, "MDT")
         } else {
          Table::row(1667116800, -25200, 0, "MST")
         }
        }
       }
      }
     }
    }
}

/// The rows of the table of the zone `America/Mazatlan`.
pub open spec fn mazatlan_rows() -> spec_fn(int) -> (i64, FixedTimespan) {
    |i: int| mazatlan_row(i)
}

/// The table of the zone `America/Mazatlan`.
pub open spec fn mazatlan() -> Table {
    Table::listed(Table::row(0, -25540, 0, "LMT").1, 61, mazatlan_rows())
}

/// Row `i` of the table of the zone `America/Mendoza`.
pub open spec fn mendoza_row(i: int) -> (i64, FixedTimespan) {
    if i < 31 {
     if i < 15 {
      if i < 7 {
       if i < 3 {
        if i < 1 {
         Table::row(-2372095484, -15408, 0, "CMT")
        } else {
         if i < 2 {
          Table::row(-1567453392, -14400, 0, "-04")
         } else {
          Table::row(-1233432000, -14400, 3600, "-03")
         }
        }
       } else {
        if i < 5 {
         if i < 4 {
          Table::row(-1222981200, -14400, 0, "-04")
         } else {
          Table::row(-1205956800, -14400, 3600, "-03")
         }
        } else {
         if i < 6 {
          Table::row(-1194037200, -14400, 0, "-04")
         } else {
          Table::row(-1172865600, -14400, 3600, "-03")
         }
        }
       }
      } else {
       if i < 11 {
        if i < 9 {
         if i < 8 {
          Table::row(-1162501200, -14400, 0, "-04")
         } else {
          Table::row(-1141329600, -14400, 3600, "-03")
         }
        } else {
         if i < 10 {
          Table::row(-1130965200, -14400, 0, "-04")
         } else {
          Table::row(-1109793600, -14400, 3600, "-03")
         }
        }
       } else {
        if i < 13 {
         if i < 12 {
          Table::row(-1099429200, -14400, 0, "-04")
         } else {
          Table::row(-1078257600, -14400, 3600, "-03")
         }
        } else {
         if i < 14 {
          Table::row(-1067806800, -14400, 0, "-04")
         } else {
          Table::row(-1046635200, -14400, 3600, "-03")
         }
        }
       }
      }
     } else {
      if i < 23 {
       if i < 19 {
        if i < 17 {
         if i < 16 {
          Table::row(-1036270800, -14400, 0, "-04")
         } else {
          Table::row(-1015099200, -14400, 3600, "-03")
         }
        } else {
         if i < 18 {
          Table::row(-1004734800, -14400, 0, "-04")
         } else {
          Table::row(-983563200, -14400, 3600, "-03")
         }
        }
       } else {
        if i < 21 {
         if i < 20 {
          Table::row(-973198800, -14400, 0, "-04")
         } else {
          Table::row(-952027200, -14400, 3600, "-03")
         }
        } else {
         if i < 22 {
          Table::row(-941576400, -14400, 0, "-04")
         } else {
          Table::row(-931032000, -14400, 3600, "-03")
         }
        }
       }
      } else {
       if i < 27 {
        if i < 25 {
         if i < 24 {
          Table::row(-900882000, -14400, 0, "-04")
         } else {
          Table::row(-890337600, -14400, 3600, "-03")
         }
        } else {
         if i < 26 {
          Table::row(-833749200, -14400, 0, "-04")
         } else {
          Table::row(-827265600, -14400, 3600, "-03")
         }
        }
       } else {
        if i < 29 {
         if i < 28 {
          Table::row(-752274000, -14400, 0, "-04")
         } else {
          Table::row(-733780800, -14400, 3600, "-03")
         }
        } else {
         if i < 30 {
          Table::row(-197326800, -14400, 0, "-04")
         } else {
          Table::row(-190843200, -14400, 3600, "-03")
         }
        }
       }
      }
     }
    } else {
     if i < 46 {
      if i < 38 {
       if i < 34 {
        if i < 32 {
         Table::row(-184194000, -14400, 0, "-04")
        } else {
         if i < 33 {
          Table::row(-164491200, -14400, 3600, "-03")
         } else {
          Table::row(-152658000, -14400, 0, "-04")
         }
        }
       } else {
        if i < 36 {
         if i < 35 {
          Table::row(-132955200, -14400, 3600, "-03")
         } else {
          Table::row(-121122000, -14400, 0, "-04")
         }
        } else {
         if i < 37 {
          Table::row(-101419200, -14400, 3600, "-03")
         } else {
          Table::row(-86821200, -14400, 0, "-04")
         }
        }
       }
      } else {
       if i < 42 {
        if i < 40 {
         if i < 39 {
          Table::row(-71092800, -14400, 3600, "-03")
         } else {
          Table::row(-54766800, -14400, 0, "-04")
         }
        } else {
         if i < 41 {
          Table::row(-39038400, -14400, 3600, "-03")
         } else {
          Table::row(-23317200, -14400, 0, "-04")
         }
        }
       } else {
        if i < 44 {
         if i < 43 {
          Table::row(-7588800, -10800, 0, "-03")
         } else {
          Table::row(128142000, -10800, 3600, "-02")
         }
        } else {
         if i < 45 {
          Table::row(136605600, -10800, 0, "-03")
         } else {
          Table::row(596948400, -10800, 3600, "-02")
         }
        }
       }
      }
     } else {
      if i < 54 {
       if i < 50 {
        if i < 48 {
         if i < 47 {
          Table::row(605066400, -10800, 0, "-03")
         } else {
          Table::row(624423600, -10800, 3600, "-02")
         }
        } else {
         if i < 49 {
          Table::row(636516000, -14400, 0, "-04")
         } else {
          Table::row(655963200, -14400, 3600, "-03")
         }
        }
       } else {
        if i < 52 {
         if i < 51 {
          Table::row(667796400, -14400, 0, "-04")
         } else {
          Table::row(687499200, -14400, 3600, "-03")
         }
        } else {
         if i < 53 {
          Table::row(699418800, -14400, 0, "-04")
         } else {
          Table::row(719380800, -14400, 7200, "-02")
         }
        }
       }
      } else {
       if i < 58 {
        if i < 56 {
         if i < 55 {
          Table::row(731469600, -10800, 0, "-03")
         } else {
          Table::row(938919600, -14400, 3600, "-03")
         }
        } else {
         if i < 57 {
          Table::row(952052400, -10800, 0, "-03")
         } else {
          Table::row(1085281200, -14400, 0, "-04")
         }
        }
       } else {
        if i < 60 {
         if i < 59 {
          Table::row(1096171200, -10800, 0, "-03")
         } else {
          Table::row(1198983600, -10800, 3600, "-02")
         }
        } else {
         if i < 61 {
          Table::row(1205632800, -10800, 0, "-03")
         } else {
          Table::row(2147483647, -10800, 0, "-03")
         }
        }
       }
      }
     }
    }
}

/// The rows of the table of the zone `America/Mendoza`.
pub open spec fn mendoza_rows() -> spec_fn(int) -> (i64, FixedTimespan) {
    |i: int| mendoza_row(i)
}

/// The table of the zone `America/Mendoza`.
pub open spec fn mendoza() -> Table {
    Table::listed(Table::row(0, -16516, 0, "LMT").1, 62, mendoza_rows())
}

/// Row `i` of the table of the zone `America/Menominee`.
pub open spec fn menominee_row(i: int) -> (i64, FixedTimespan) {
    if i < 71 {
     if i < 35 {
      if i < 17 {
       if i < 8 {
        if i < 4 {
         if i < 2 {
          if i < 1 {
           Table::row(-2659759773, -21600, 0, "CST")
          } else {
           Table::row(-1633276800, -21600, 3600, "CDT")
          }
         } else {
          if i < 3 {
           Table::row(-1615136400, -21600, 0, "CST")
          } else {
           Table::row(-1601827200, -21600, 3600, "CDT")
          }
         }
        } else {
         if i < 6 {
          if i < 5 {
           Table::row(-1583686800, -21600, 0, "CST")
          } else {
           Table::row(-880214400, -21600, 3600, "CWT")
          }
         } else {
          if i < 7 {
           Table::row(-769395600, -21600, 3600, "CPT")
          } else {
           Table::row(-765392400, -21600, 0, "CST")
          }
         }
        }
       } else {
        if i < 12 {
         if i < 10 {
          if i < 9 {
           Table::row(-747244800, -21600, 3600, "CDT")
          } else {
           Table::row(-733942800, -21600, 0, "CST")
          }
         } else {
          if i < 11 {
           Table::row(-116438400, -21600, 3600, "CDT")
          } else {
           Table::row(-100112400, -21600, 0, "CST")
          }
         }
        } else {
         if i < 14 {
          if i < 13 {
           Table::row(-21484800, -18000, 0, "EST")
          } else {
           Table::row(104914800, -21600, 3600, "CDT")
          }
         } else {
          if i < 15 {
           Table::row(120639600, -21600, 0, "CST")
          } else {
           if i < 16 {
            Table::row(126691200, -21600, 3600, "CDT")
           } else {
            Table::row(152089200, -21600, 0, "CST")
           }
          }
         }
        }
       }
      } else {
       if i < 26 {
        if i < 21 {
         if i < 19 {
          if i < 18 {
           Table::row(162374400, -21600, 3600, "CDT")
          } else {
           Table::row(183538800, -21600, 0, "CST")
          }
         } else {
          if i < 20 {
           Table::row(199267200, -21600, 3600, "CDT")
          } else {
           Table::row(215593200, -21600, 0, "CST")
          }
         }
        } else {
         if i < 23 {
          if i < 22 {
           Table::row(230716800, -21600, 3600, "CDT")
          } else {
           Table::row(247042800, -21600, 0, "CST")
          }
         } else {
          if i < 24 {
           Table::row(262771200, -21600, 3600, "CDT")
          } else {
           if i < 25 {
            Table::row(278492400, -21600, 0, "CST")
           } else {
            Table::row(294220800, -21600, 3600, "CDT")
           }
          }
         }
        }
       } else {
        if i < 30 {
         if i < 28 {
          if i < 27 {
           Table::row(309942000, -21600, 0, "CST")
          } else {
           Table::row(325670400, -21600, 3600, "CDT")
          }
         } else {
          if i < 29 {
           Table::row(341391600, -21600, 0, "CST")
          } else {
           Table::row(357120000, -21600, 3600, "CDT")
          }
         }
        } else {
         if i < 32 {
          if i < 31 {
           Table::row(372841200, -21600, 0, "CST")
          } else {
           Table::row(388569600, -21600, 3600, "CDT")
          }
         } else {
          if i < 33 {
           Table::row(404895600, -21600, 0, "CST")
          } else {
           if i < 34 {
            Table::row(420019200, -21600, 3600, "CDT")
           } else {
            Table::row(436345200, -21600, 0, "CST")
           }
          }
         }
        }
       }
      }
     } else {
      if i < 53 {
       if i < 44 {
        if i < 39 {
         if i < 37 {
          if i < 36 {
           Table::row(452073600, -21600, 3600, "CDT")
          } else {
           Table::row(467794800, -21600, 0, "CST")
          }
         } else {
          if i < 38 {
           Table::row(483523200, -21600, 3600, "CDT")
          } else {
           Table::row(499244400, -21600, 0, "CST")
          }
         }
        } else {
         if i < 41 {
          if i < 40 {
           Table::row(514972800, -21600, 3600, "CDT")
          } else {
           Table::row(530694000, -21600, 0, "CST")
          }
         } else {
          if i < 42 {
           Table::row(544608000, -21600, 3600, "CDT")
          } else {
           if i < 43 {
            Table::row(562143600, -21600, 0, "CST")
           } else {
            Table::row(576057600, -21600, 3600, "CDT")
           }
          }
         }
        }
       } else {
        if i < 48 {
         if i < 46 {
          if i < 45 {
           Table::row(594198000, -21600, 0, "CST")
          } else {
           Table::row(607507200, -21600, 3600, "CDT")
          }
         } else {
          if i < 47 {
           Table::row(625647600, -21600, 0, "CST")
          } else {
           Table::row(638956800, -21600, 3600, "CDT")
          }
         }
        } else {
         if i < 50 {
          if i < 49 {
           Table::row(657097200, -21600, 0, "CST")
          } else {
           Table::row(671011200, -21600, 3600, "CDT")
          }
         } else {
          if i < 51 {
           Table::row(688546800, -21600, 0, "CST")
          } else {
           if i < 52 {
            Table::row(702460800, -21600, 3600, "CDT")
           } else {
            Table::row(719996400, -21600, 0, "CST")
           }
          }
         }
        }
       }
      } else {
       if i < 62 {
        if i < 57 {
         if i < 55 {
          if i < 54 {
           Table::row(733910400, -21600, 3600, "CDT")
          } else {
           Table::row(752050800, -21600, 0, "CST")
          }
         } else {
          if i < 56 {
           Table::row(765360000, -21600, 3600, "CDT")
          } else {
           Table::row(783500400, -21600, 0, "CST")
          }
         }
        } else {
         if i < 59 {
          if i < 58 {
           Table::row(796809600, -21600, 3600, "CDT")
          } else {
           Table::row(814950000, -21600, 0, "CST")
          }
         } else {
          if i < 60 {
           Table::row(828864000, -21600, 3600, "CDT")
          } else {
           if i < 61 {
            Table::row(846399600, -21600, 0, "CST")
           } else {
            Table::row(860313600, -21600, 3600, "CDT")
           }
          }
         }
        }
       } else {
        if i < 66 {
         if i < 64 {
          if i < 63 {
           Table::row(877849200, -21600, 0, "CST")
          } else {
           Table::row(891763200, -21600, 3600, "CDT")
          }
         } else {
          if i < 65 {
           Table::row(909298800, -21600, 0, "CST")
          } else {
           Table::row(923212800, -21600, 3600, "CDT")
          }
         }
        } else {
         if i < 68 {
          if i < 67 {
           Table::row(941353200, -21600, 0, "CST")
          } else {
           Table::row(954662400, -21600, 3600, "CDT")
          }
         } else {
          if i < 69 {
           Table::row(972802800, -21600, 0, "CST")
          } else {
           if i < 70 {
            Table::row(986112000, -21600, 3600, "CDT")
           } else {
            Table::row(1004252400, -21600, 0, "CST")
           }
          }
         }
        }
       }
      }
     }
    } else {
     if i < 107 {
      if i < 89 {
       if i < 80 {
        if i < 75 {
         if i < 73 {
          if i < 72 {
           Table::row(1018166400, -21600, 3600, "CDT")
          } else {
           Table::row(1035702000, -21600, 0, "CST")
          }
         } else {
          if i < 74 {
           Table::row(1049616000, -21600, 3600, "CDT")
          } else {
           Table::row(1067151600, -21600, 0, "CST")
          }
         }
        } else {
         if i < 77 {
          if i < 76 {
           Table::row(1081065600, -21600, 3600, "CDT")
          } else {
           Table::row(1099206000, -21600, 0, "CST")
          }
         } else {
          if i < 78 {
           Table::row(1112515200, -21600, 3600, "CDT")
          } else {
           if i < 79 {
            Table::row(1130655600, -21600, 0, "CST")
           } else {
            Table::row(1143964800, -21600, 3600, "CDT")
           }
          }
         }
        }
       } else {
        if i < 84 {
         if i < 82 {
          if i < 81 {
           Table::row(1162105200, -21600, 0, "CST")
          } else {
           Table::row(1173600000, -21600, 3600, "CDT")
          }
         } else {
          if i < 83 {
           Table::row(1194159600, -21600, 0, "CST")
          } else {
           Table::row(1205049600, -21600, 3600, "CDT")
          }
         }
        } else {
         if i < 86 {
          if i < 85 {
           Table::row(1225609200, -21600, 0, "CST")
          } else {
           Table::row(1236499200, -21600, 3600, "CDT")
          }
         } else {
          if i < 87 {
           Table::row(1257058800, -21600, 0, "CST")
          } else {
           if i < 88 {
            Table::row(1268553600, -21600, 3600, "CDT")
           } else {
            Table::row(1289113200, -21600, 0, "CST")
           }
          }
         }
        }
       }
      } else {
       if i < 98 {
        if i < 93 {
         if i < 91 {
          if i < 90 {
           Table::row(1300003200, -21600, 3600, "CDT")
          } else {
           Table::row(1320562800, -21600, 0, "CST")
          }
         } else {
          if i < 92 {
           Table::row(1331452800, -21600, 3600, "CDT")
          } else {
           Table::row(1352012400, -21600, 0, "CST")
          }
         }
        } else {
         if i < 95 {
          if i < 94 {
           Table::row(1362902400, -21600, 3600, "CDT")
          } else {
           Table::row(1383462000, -21600, 0, "CST")
          }
         } else {
          if i < 96 {
           Table::row(1394352000, -21600, 3600, "CDT")
          } else {
           if i < 97 {
            Table::row(1414911600, -21600, 0, "CST")
           } else {
            Table::row(1425801600, -21600, 3600, "CDT")
           }
          }
         }
        }
       } else {
        if i < 102 {
         if i < 100 {
          if i < 99 {
           Table::row(1446361200, -21600, 0, "CST")
          } else {
           Table::row(1457856000, -21600, 3600, "CDT")
          }
         } else {
          if i < 101 {
           Table::row(1478415600, -21600, 0, "CST")
          } else {
           Table::row(1489305600, -21600, 3600, "CDT")
          }
         }
        } else {
         if i < 104 {
          if i < 103 {
           Table::row(1509865200, -21600, 0, "CST")
          } else {
           Table::row(1520755200, -21600, 3600, "CDT")
          }
         } else {
          if i < 105 {
           Table::row(1541314800, -21600, 0, "CST")
          } else {
           if i < 106 {
            Table::row(1552204800, -21600, 3600, "CDT")
           } else {
            Table::row(1572764400, -21600, 0, "CST")
           }
          }
         }
        }
       }
      }
     } else {
      if i < 125 {
       if i < 116 {
        if i < 111 {
         if i < 109 {
          if i < 108 {
           Table::row(1583654400, -21600, 3600, "CDT")
          } else {
           Table::row(1604214000, -21600, 0, "CST")
          }
         } else {
          if i < 110 {
           Table::row(1615708800, -21600, 3600, "CDT")
          } else {
           Table::row(1636268400, -21600, 0, "CST")
          }
         }
        } else {
         if i < 113 {
          if i < 112 {
           Table::row(1647158400, -21600, 3600, "CDT")
          } else {
           Table::row(1667718000, -21600, 0, "CST")
          }
         } else {
          if i < 114 {
           Table::row(1678608000, -21600, 3600, "CDT")
          } else {
           if i < 115 {
            Table::row(1699167600, -21600, 0, "CST")
           } else {
            Table::row(1710057600, -21600, 3600, "CDT")
           }
          }
         }
        }
       } else {
        if i < 120 {
         if i < 118 {
          if i < 117 {
           Table::row(1730617200, -21600, 0, "CST")
          } else {
           Table::row(1741507200, -21600, 3600, "CDT")
          }
         } else {
          if i < 119 {
           Table::row(1762066800, -21600, 0, "CST")
          } else {
           Table::row(1772956800, -21600, 3600, "CDT")
          }
         }
        } else {
         if i < 122 {
          if i < 121 {
           Table::row(1793516400, -21600, 0, "CST")
          } else {
           Table::row(1805011200, -21600, 3600, "CDT")
          }
         } else {
          if i < 123 {
           Table::row(1825570800, -21600, 0, "CST")
          } else {
           if i < 124 {
            Table::row(1836460800, -21600, 3600, "CDT")
           } else {
            Table::row(1857020400, -21600, 0, "CST")
           }
          }
         }
        }
       }
      } else {
       if i < 134 {
        if i < 129 {
         if i < 127 {
          if i < 126 {
           Table::row(1867910400, -21600, 3600, "CDT")
          } else {
           Table::row(1888470000, -21600, 0, "CST")
          }
         } else {
          if i < 128 {
           Table::row(1899360000, -21600, 3600, "CDT")
          } else {
           Table::row(1919919600, -21600, 0, "CST")
          }
         }
        } else {
         if i < 131 {
          if i < 130 {
           Table::row(1930809600, -21600, 3600, "CDT")
          } else {
           Table::row(1951369200, -21600, 0, "CST")
          }
         } else {
          if i < 132 {
           Table::row(1962864000, -21600, 3600, "CDT")
          } else {
           if i < 133 {
            Table::row(1983423600, -21600, 0, "CST")
           } else {
            Table::row(1994313600, -21600, 3600, "CDT")
           }
          }
         }
        }
       } else {
        if i < 138 {
         if i < 136 {
          if i < 135 {
           Table::row(2014873200, -21600, 0, "CST")
          } else {
           Table::row(2025763200, -21600, 3600, "CDT")
          }
         } else {
          if i < 137 {
           Table::row(2046322800, -21600, 0, "CST")
          } else {
           Table::row(2057212800, -21600, 3600, "CDT")
          }
         }
        } else {
         if i < 140 {
          if i < 139 {
           Table::row(2077772400, -21600, 0, "CST")
          } else {
           Table::row(2088662400, -21600, 3600, "CDT")
          }
         } else {
          if i < 141 {
           Table::row(2109222000, -21600, 0, "CST")
          } else {
           if i < 142 {
            Table::row(2120112000, -21600, 3600, "CDT")
           } else {
            Table::row(2140671600, -21600, 0, "CST")
           }
          }
         }
        }
       }
      }
     }
    }
}

/// The rows of the table of the zone `America/Menominee`.
pub open spec fn menominee_rows() -> spec_fn(int) -> (i64, FixedTimespan) {
    |i: int| menominee_row(i)
}

/// The table of the zone `America/Menominee`.
pub open spec fn menominee() -> Table {
    Table::listed(Table::row(0, -21027, 0, "LMT").1, 143, menominee_rows())
}

/// Row `i` of the table of the zone `America/Merida`.
pub open spec fn merida_row(i: int) -> (i64, FixedTimespan) {
    if i < 28 {
     if i < 14 {
      if i < 7 {
       if i < 3 {
        if i < 1 {
         Table::row(-1514743200, -21600, 0, "CST")
        } else {
         if i < 2 {
          Table::row(378201600, -18000, 0, "EST")
         } else {
          Table::row(405068400, -21600, 0, "CST")
         }
        }
       } else {
        if i < 5 {
         if i < 4 {
          Table::row(828864000, -21600, 3600, "CDT")
         } else {
          Table::row(846399600, -21600, 0, "CST")
         }
        } else {
         if i < 6 {
          Table::row(860313600, -21600, 3600, "CDT")
         } else {
          Table::row(877849200, -21600, 0, "CST")
         }
        }
       }
      } else {
       if i < 10 {
        if i < 8 {
         Table::row(891763200, -21600, 3600, "CDT")
        } else {
         if i < 9 {
          Table::row(909298800, -21600, 0, "CST")
         } else {
          Table::row(923212800, -21600, 3600, "CDT")
         }
        }
       } else {
        if i < 12 {
         if i < 11 {
          Table::row(941353200, -21600, 0, "CST")
         } else {
          Table::row(954662400, -21600, 3600, "CDT")
         }
        } else {
         if i < 13 {
          Table::row(972802800, -21600, 0, "CST")
         } else {
          Table::row(989136000, -21600, 3600, "CDT")
         }
        }
       }
      }
     } else {
      if i < 21 {
       if i < 17 {
        if i < 15 {
         Table::row(1001833200, -21600, 0, "CST")
        } else {
         if i < 16 {
          Table::row(1018166400, -21600, 3600, "CDT")
         } else {
          Table::row(1035702000, -21600, 0, "CST")
         }
        }
       } else {
        if i < 19 {
         if i < 18 {
          Table::row(1049616000, -21600, 3600, "CDT")
         } else {
          Table::row(1067151600, -21600, 0, "CST")
         }
        } else {
         if i < 20 {
          Table::row(1081065600, -21600, 3600, "CDT")
         } else {
          Table::row(1099206000, -21600, 0, "CST")
         }
        }
       }
      } else {
       if i < 24 {
        if i < 22 {
         Table::row(1112515200, -21600, 3600, "CDT")
        } else {
         if i < 23 {
          Table::row(1130655600, -21600, 0, "CST")
         } else {
          Table::row(1143964800, -21600, 3600, "CDT")
         }
        }
       } else {
        if i < 26 {
         if i < 25 {
          Table::row(1162105200, -21600, 0, "CST")
         } else {
          Table::row(1175414400, -21600, 3600, "CDT")
         }
        } else {
         if i < 27 {
          Table::row(1193554800, -21600, 0, "CST")
         } else {
          Table::row(1207468800, -21600, 3600, "CDT")
         }
        }
       }
      }
     }
    } else {
     if i < 42 {
      if i < 35 {
       if i < 31 {
        if i < 29 {
         Table::row(1225004400, -21600, 0, "CST")
        } else {
         if i < 30 {
          Table::row(1238918400, -21600, 3600, "CDT")
         } else {
          Table::row(1256454000, -21600, 0, "CST")
         }
        }
       } else {
        if i < 33 {
         if i < 32 {
          Table::row(1270368000, -21600, 3600, "CDT")
         } else {
          Table::row(1288508400, -21600, 0, "CST")
         }
        } else {
         if i < 34 {
          Table::row(1301817600, -21600, 3600, "CDT")
         } else {
          Table::row(1319958000, -21600, 0, "CST")
         }
        }
       }
      } else {
       if i < 38 {
        if i < 36 {
         Table::row(1333267200, -21600, 3600, "CDT")
        } else {
         if i < 37 {
          Table::row(1351407600, -21600, 0, "CST")
         } else {
          Table::row(1365321600, -21600, 3600, "CDT")
         }
        }
       } else {
        if i < 40 {
         if i < 39 {
          Table::row(1382857200, -21600, 0, "CST")
         } else {
          Table::row(1396771200, -21600, 3600, "CDT")
         }
        } else {
         if i < 41 {
          Table::row(1414306800, -21600, 0, "CST")
         } else {
          Table::row(1428220800, -21600, 3600, "CDT")
         }
        }
       }
      }
     } else {
      if i < 49 {
       if i < 45 {
        if i < 43 {
         Table::row(1445756400, -21600, 0, "CST")
        } else {
         if i < 44 {
          Table::row(1459670400, -21600, 3600, "CDT")
         } else {
          Table::row(1477810800, -21600, 0, "CST")
         }
        }
       } else {
        if i < 47 {
         if i < 46 {
          Table::row(1491120000, -21600, 3600, "CDT")
         } else {
          Table::row(1509260400, -21600, 0, "CST")
         }
        } else {
         if i < 48 {
          Table::row(1522569600, -21600, 3600, "CDT")
         } else {
          Table::row(1540710000, -21600, 0, "CST")
         }
        }
       }
      } else {
       if i < 53 {
        if i < 51 {
         if i < 50 {
          Table::row(1554624000, -21600, 3600, "CDT")
         } else {
          Table::row(1572159600, -21600, 0, "CST")
         }
        } else {
         if i < 52 {
          Table::row(1586073600, -21600, 3600, "CDT")
         } else {
          Table::row(1603609200, -21600, 0, "CST")
         }
        }
       } else {
        if i < 55 {
         if i < 54 {
          Table::row(1617523200, -21600, 3600, "CDT")
         } else {
          Table::row(1635663600, -21600, 0, "CST")
         }
        } else {
         if i < 56 {
          Table::row(1648972800, -21600, 3600, "CDT")
         } else {
          Table::row(1667113200, -21600, 0, "CST")
         }
        }
       }
      }
     }
    }
}

/// The rows of the table of the zone `America/Merida`.
pub open spec fn merida_rows() -> spec_fn(int) -> (i64, FixedTimespan) {
    |i: int| merida_row(i)
}

/// The table of the zone `America/Merida`.
pub open spec fn merida() -> Table {
    Table::listed(Table::row(0, -21508, 0, "LMT").1, 57, merida_rows())
}

/// Row `i` of the table of the zone `America/Metlakatla`.
pub open spec fn metlakatla_row(i: int) -> (i64, FixedTimespan) {
    if i < 40 {
     if i < 20 {
      if i < 10 {
       if i < 5 {
        if i < 2 {
         if i < 1 {
          Table::row(-3225223727, -31578, 0, "LMT")
         } else {
          Table::row(-2188955622, -28800, 0, "PST")
         }
        } else {
         if i < 3 {
          Table::row(-880207200, -28800, 3600, "PWT")
         } else {
          if i < 4 {
           Table::row(-769395600, -28800, 3600, "PPT")
          } else {
           Table::row(-765385200, -28800, 0, "PST")
          }
         }
        }
       } else {
        if i < 7 {
         if i < 6 {
          Table::row(-21477600, -28800, 3600, "PDT")
         } else {
          Table::row(-5756400, -28800, 0, "PST")
         }
        } else {
         if i < 8 {
          Table::row(9972000, -28800, 3600, "PDT")
         } else {
          if i < 9 {
           Table::row(25693200, -28800, 0, "PST")
          } else {
           Table::row(41421600, -28800, 3600, "PDT")
          }
         }
        }
       }
      } else {
       if i < 15 {
        if i < 12 {
         if i < 11 {
          Table::row(57747600, -28800, 0, "PST")
         } else {
          Table::row(73476000, -28800, 3600, "PDT")
         }
        } else {
         if i < 13 {
          Table::row(89197200, -28800, 0, "PST")
         } else {
          if i < 14 {
           Table::row(104925600, -28800, 3600, "PDT")
          } else {
           Table::row(120646800, -28800, 0, "PST")
          }
         }
        }
       } else {
        if i < 17 {
         if i < 16 {
          Table::row(126698400, -28800, 3600, "PDT")
         } else {
          Table::row(152096400, -28800, 0, "PST")
         }
        } else {
         if i < 18 {
          Table::row(162381600, -28800, 3600, "PDT")
         } else {
          if i < 19 {
           Table::row(183546000, -28800, 0, "PST")
          } else {
           Table::row(199274400, -28800, 3600, "PDT")
          }
         }
        }
       }
      }
     } else {
      if i < 30 {
       if i < 25 {
        if i < 22 {
         if i < 21 {
          Table::row(215600400, -28800, 0, "PST")
         } else {
          Table::row(230724000, -28800, 3600, "PDT")
         }
        } else {
         if i < 23 {
          Table::row(247050000, -28800, 0, "PST")
         } else {
          if i < 24 {
           Table::row(262778400, -28800, 3600, "PDT")
          } else {
           Table::row(278499600, -28800, 0, "PST")
          }
         }
        }
       } else {
        if i < 27 {
         if i < 26 {
          Table::row(294228000, -28800, 3600, "PDT")
         } else {
          Table::row(309949200, -28800, 0, "PST")
         }
        } else {
         if i < 28 {
          Table::row(325677600, -28800, 3600, "PDT")
         } else {
          if i < 29 {
           Table::row(341398800, -28800, 0, "PST")
          } else {
           Table::row(357127200, -28800, 3600, "PDT")
          }
         }
        }
       }
      } else {
       if i < 35 {
        if i < 32 {
         if i < 31 {
          Table::row(372848400, -28800, 0, "PST")
         } else {
          Table::row(388576800, -28800, 3600, "PDT")
         }
        } else {
         if i < 33 {
          Table::row(404902800, -28800, 0, "PST")
         } else {
          if i < 34 {
           Table::row(420026400, -28800, 3600, "PDT")
          } else {
           Table::row(436352400, -28800, 0, "PST")
          }
         }
        }
       } else {
        if i < 37 {
         if i < 36 {
          Table::row(1446372000, -32400, 0, "AKST")
         } else {
          Table::row(1457866800, -32400, 3600, "AKDT")
         }
        } else {
         if i < 38 {
          Table::row(1478426400, -32400, 0, "AKST")
         } else {
          if i < 39 {
           Table::row(1489316400, -32400, 3600, "AKDT")
          } else {
           Table::row(1509876000, -32400, 0, "AKST")
          }
         }
        }
       }
      }
     }
    } else {
     if i < 60 {
      if i < 50 {
       if i < 45 {
        if i < 42 {
         if i < 41 {
          Table::row(1520766000, -32400, 3600, "AKDT")
         } else {
          Table::row(1541325600, -28800, 0, "PST")
         }
        } else {
         if i < 43 {
          Table::row(1547978400, -32400, 0, "AKST")
         } else {
          if i < 44 {
           Table::row(1552215600, -32400, 3600, "AKDT")
          } else {
           Table::row(1572775200, -32400, 0, "AKST")
          }
         }
        }
       } else {
        if i < 47 {
         if i < 46 {
          Table::row(1583665200, -32400, 3600, "AKDT")
         } else {
          Table::row(1604224800, -32400, 0, "AKST")
         }
        } else {
         if i < 48 {
          Table::row(1615719600, -32400, 3600, "AKDT")
         } else {
          if i < 49 {
           Table::row(1636279200, -32400, 0, "AKST")
          } else {
           Table::row(1647169200, -32400, 3600, "AKDT")
          }
         }
        }
       }
      } else {
       if i < 55 {
        if i < 52 {
         if i < 51 {
          Table::row(1667728800, -32400, 0, "AKST")
         } else {
          Table::row(1678618800, -32400, 3600, "AKDT")
         }
        } else {
         if i < 53 {
          Table::row(1699178400, -32400, 0, "AKST")
         } else {
          if i < 54 {
           Table::row(1710068400, -32400, 3600, "AKDT")
          } else {
           Table::row(1730628000, -32400, 0, "AKST")
          }
         }
        }
       } else {
        if i < 57 {
         if i < 56 {
          Table::row(1741518000, -32400, 3600, "AKDT")
         } else {
          Table::row(1762077600, -32400, 0, "AKST")
         }
        } else {
         if i < 58 {
          Table::row(1772967600, -32400, 3600, "AKDT")
         } else {
          if i < 59 {
           Table::row(1793527200, -32400, 0, "AKST")
          } else {
           Table::row(1805022000, -32400, 3600, "AKDT")
          }
         }
        }
       }
      }
     } else {
      if i < 70 {
       if i < 65 {
        if i < 62 {
         if i < 61 {
          Table::row(1825581600, -32400, 0, "AKST")
         } else {
          Table::row(1836471600, -32400, 3600, "AKDT")
         }
        } else {
         if i < 63 {
          Table::row(1857031200, -32400, 0, "AKST")
         } else {
          if i < 64 {
           Table::row(1867921200, -32400, 3600, "AKDT")
          } else {
           Table::row(1888480800, -32400, 0, "AKST")
          }
         }
        }
       } else {
        if i < 67 {
         if i < 66 {
          Table::row(1899370800, -32400, 3600, "AKDT")
         } else {
          Table::row(1919930400, -32400, 0, "AKST")
         }
        } else {
         if i < 68 {
          Table::row(1930820400, -32400, 3600, "AKDT")
         } else {
          if i < 69 {
           Table::row(1951380000, -32400, 0, "AKST")
          } else {
           Table::row(1962874800, -32400, 3600, "AKDT")
          }
         }
        }
       }
      } else {
       if i < 75 {
        if i < 72 {
         if i < 71 {
          Table::row(1983434400, -32400, 0, "AKST")
         } else {
          Table::row(1994324400, -32400, 3600, "AKDT")
         }
        } else {
         if i < 73 {
          Table::row(2014884000, -32400, 0, "AKST")
         } else {
          if i < 74 {
           Table::row(2025774000, -32400, 3600, "AKDT")
          } else {
           Table::row(2046333600, -32400, 0, "AKST")
          }
         }
        }
       } else {
        if i < 78 {
         if i < 76 {
          Table::row(2057223600, -32400, 3600, "AKDT")
         } else {
          if i < 77 {
           Table::row(2077783200, -32400, 0, "AKST")
          } else {
           Table::row(2088673200, -32400, 3600, "AKDT")
          }
         }
        } else {
         if i < 79 {
          Table::row(2109232800, -32400, 0, "AKST")
         } else {
          if i < 80 {
           Table::row(2120122800, -32400, 3600, "AKDT")
          } else {
           Table::row(2140682400, -32400, 0, "AKST")
          }
         }
        }
       }
      }
     }
    }
}

/// The rows of the table of the zone `America/Metlakatla`.
pub open spec fn metlakatla_rows() -> spec_fn(int) -> (i64, FixedTimespan) {
    |i: int| metlakatla_row(i)
}

/// The table of the zone `America/Metlakatla`.
pub open spec fn metlakatla() -> Table {
    Table::listed(Table::row(0, 54822, 0, "LMT").1, 81, metlakatla_rows())
}

/// Row `i` of the table of the zone `America/Mexico_City`.
pub open spec fn mexico_city_row(i: int) -> (i64, FixedTimespan) {
    if i < 34 {
     if i < 17 {
      if i < 8 {
       if i < 4 {
        if i < 2 {
         if i < 1 {
          Table::row(-1514739600, -25200, 0, "MST")
         } else {
          Table::row(-1343149200, -21600, 0, "CST")
         }
        } else {
         if i < 3 {
          Table::row(-1234807200, -25200, 0, "MST")
         } else {
          Table::row(-1220461200, -25200, 3600, "MDT")
         }
        }
       } else {
        if i < 6 {
         if i < 5 {
          Table::row(-1207159200, -25200, 0, "MST")
         } else {
          Table::row(-1191344400, -21600, 0, "CST")
         }
        } else {
         if i < 7 {
          Table::row(-975261600, -21600, 3600, "CDT")
         } else {
          Table::row(-963169200, -21600, 0, "CST")
         }
        }
       }
      } else {
       if i < 12 {
        if i < 10 {
         if i < 9 {
          Table::row(-917114400, -21600, 3600, "CDT")
         } else {
          Table::row(-907354800, -21600, 0, "CST")
         }
        } else {
         if i < 11 {
          Table::row(-821901600, -21600, 3600, "CWT")
         } else {
          Table::row(-810068400, -21600, 0, "CST")
         }
        }
       } else {
        if i < 14 {
         if i < 13 {
          Table::row(-627501600, -21600, 3600, "CDT")
         } else {
          Table::row(-612990000, -21600, 0, "CST")
         }
        } else {
         if i < 15 {
          Table::row(828864000, -21600, 3600, "CDT")
         } else {
          if i < 16 {
           Table::row(846399600, -21600, 0, "CST")
          } else {
           Table::row(860313600, -21600, 3600, "CDT")
          }
         }
        }
       }
      }
     } else {
      if i < 25 {
       if i < 21 {
        if i < 19 {
         if i < 18 {
          Table::row(877849200, -21600, 0, "CST")
         } else {
          Table::row(891763200, -21600, 3600, "CDT")
         }
        } else {
         if i < 20 {
          Table::row(909298800, -21600, 0, "CST")
         } else {
          Table::row(923212800, -21600, 3600, "CDT")
         }
        }
       } else {
        if i < 23 {
         if i < 22 {
          Table::row(941353200, -21600, 0, "CST")
         } else {
          Table::row(954662400, -21600, 3600, "CDT")
         }
        } else {
         if i < 24 {
          Table::row(972802800, -21600, 0, "CST")
         } else {
          Table::row(989136000, -21600, 3600, "CDT")
         }
        }
       }
      } else {
       if i < 29 {
        if i < 27 {
         if i < 26 {
          Table::row(1001833200, -21600, 0, "CST")
         } else {
          Table::row(1018166400, -21600, 3600, "CDT")
         }
        } else {
         if i < 28 {
          Table::row(1035702000, -21600, 0, "CST")
         } else {
          Table::row(1049616000, -21600, 3600, "CDT")
         }
        }
       } else {
        if i < 31 {
         if i < 30 {
          Table::row(1067151600, -21600, 0, "CST")
         } else {
          Table::row(1081065600, -21600, 3600, "CDT")
         }
        } else {
         if i < 32 {
          Table::row(1099206000, -21600, 0, "CST")
         } else {
          if i < 33 {
           Table::row(1112515200, -21600, 3600, "CDT")
          } else {
           Table::row(1130655600, -21600, 0, "CST")
          }
         }
        }
       }
      }
     }
    } else {
     if i < 51 {
      if i < 42 {
       if i < 38 {
        if i < 36 {
         if i < 35 {
          Table::row(1143964800, -21600, 3600, "CDT")
         } else {
          Table::row(1162105200, -21600, 0, "CST")
         }
        } else {
         if i < 37 {
          Table::row(1175414400, -21600, 3600, "CDT")
         } else {
          Table::row(1193554800, -21600, 0, "CST")
         }
        }
       } else {
        if i < 40 {
         if i < 39 {
          Table::row(1207468800, -21600, 3600, "CDT")
         } else {
          Table::row(1225004400, -21600, 0, "CST")
         }
        } else {
         if i < 41 {
          Table::row(1238918400, -21600, 3600, "CDT")
         } else {
          Table::row(1256454000, -21600, 0, "CST")
         }
        }
       }
      } else {
       if i < 46 {
        if i < 44 {
         if i < 43 {
          Table::row(1270368000, -21600, 3600, "CDT")
         } else {
          Table::row(1288508400, -21600, 0, "CST")
         }
        } else {
         if i < 45 {
          Table::row(1301817600, -21600, 3600, "CDT")
         } else {
          Table::row(1319958000, -21600, 0, "CST")
         }
        }
       } else {
        if i < 48 {
         if i < 47 {
          Table::row(1333267200, -21600, 3600, "CDT")
         } else {
          Table::row(1351407600, -21600, 0, "CST")
         }
        } else {
         if i < 49 {
          Table::row(1365321600, -21600, 3600, "CDT")
         } else {
          if i < 50 {
           Table::row(1382857200, -21600, 0, "CST")
          } else {
           Table::row(1396771200, -21600, 3600, "CDT")
          }
         }
        }
       }
      }
     } else {
      if i < 59 {
       if i < 55 {
        if i < 53 {
         if i < 52 {
          Table::row(1414306800, -21600, 0, "CST")
         } else {
          Table::row(1428220800, -21600, 3600, "CDT")
         }
        } else {
         if i < 54 {
          Table::row(1445756400, -21600, 0, "CST")
         } else {
          Table::row(1459670400, -21600, 3600, "CDT")
         }
        }
       } else {
        if i < 57 {
         if i < 56 {
          Table::row(1477810800, -21600, 0, "CST")
         } else {
          Table::row(1491120000, -21600, 3600, "CDT")
         }
        } else {
         if i < 58 {
          Table::row(1509260400, -21600, 0, "CST")
         } else {
          Table::row(1522569600, -21600, 3600, "CDT")
         }
        }
       }
      } else {
       if i < 63 {
        if i < 61 {
         if i < 60 {
          Table::row(1540710000, -21600, 0, "CST")
         } else {
          Table::row(1554624000, -21600, 3600, "CDT")
         }
        } else {
         if i < 62 {
          Table::row(1572159600, -21600, 0, "CST")
         } else {
          Table::row(1586073600, -21600, 3600, "CDT")
         }
        }
       } else {
        if i < 65 {
         if i < 64 {
          Table::row(1603609200, -21600, 0, "CST")
         } else {
          Table::row(1617523200, -21600, 3600, "CDT")
         }
        } else {
         if i < 66 {
          Table::row(1635663600, -21600, 0, "CST")
         } else {
          if i < 67 {
           Table::row(1648972800, -21600, 3600, "CDT")
          } else {
           Table::row(1667113200, -21600, 0, "CST")
          }
         }
        }
       }
      }
     }
    }
}

/// The rows of the table of the zone `America/Mexico_City`.
pub open spec fn mexico_city_rows() -> spec_fn(int) -> (i64, FixedTimespan) {
    |i: int| mexico_city_row(i)
}

/// The table of the zone `America/Mexico_City`.
pub open spec fn mexico_city() -> Table {
    Table::listed(Table::row(0, -23796, 0, "LMT").1, 68, mexico_city_rows())
}

/// Row `i` of the table of the zone `America/Miquelon`.
pub open spec fn miquelon_row(i: int) -> (i64, FixedTimespan) {
    if i < 52 {
     if i < 26 {
      if i < 13 {
       if i < 6 {
        if i < 3 {
         if i < 1 {
          Table::row(-1847650520, -14400, 0, "AST")
         } else {
          if i < 2 {
           Table::row(326001600, -10800, 0, "-03")
          } else {
           Table::row(544597200, -10800, 3600, "-02")
          }
         }
        } else {
         if i < 4 {
          Table::row(562132800, -10800, 0, "-03")
         } else {
          if i < 5 {
           Table::row(576046800, -10800, 3600, "-02")
          } else {
           Table::row(594187200, -10800, 0, "-03")
          }
         }
        }
       } else {
        if i < 9 {
         if i < 7 {
          Table::row(607496400, -10800, 3600, "-02")
         } else {
          if i < 8 {
           Table::row(625636800, -10800, 0, "-03")
          } else {
           Table::row(638946000, -10800, 3600, "-02")
          }
         }
        } else {
         if i < 11 {
          if i < 10 {
           Table::row(657086400, -10800, 0, "-03")
          } else {
           Table::row(671000400, -10800, 3600, "-02")
          }
         } else {
          if i < 12 {
           Table::row(688536000, -10800, 0, "-03")
          } else {
           Table::row(702450000, -10800, 3600, "-02")
          }
         }
        }
       }
      } else {
       if i < 19 {
        if i < 16 {
         if i < 14 {
          Table::row(719985600, -10800, 0, "-03")
         } else {
          if i < 15 {
           Table::row(733899600, -10800, 3600, "-02")
          } else {
           Table::row(752040000, -10800, 0, "-03")
          }
         }
        } else {
         if i < 17 {
          Table::row(765349200, -10800, 3600, "-02")
         } else {
          if i < 18 {
           Table::row(783489600, -10800, 0, "-03")
          } else {
           Table::row(796798800, -10800, 3600, "-02")
          }
         }
        }
       } else {
        if i < 22 {
         if i < 20 {
          Table::row(814939200, -10800, 0, "-03")
         } else {
          if i < 21 {
           Table::row(828853200, -10800, 3600, "-02")
          } else {
           Table::row(846388800, -10800, 0, "-03")
          }
         }
        } else {
         if i < 24 {
          if i < 23 {
           Table::row(860302800, -10800, 3600, "-02")
          } else {
           Table::row(877838400, -10800, 0, "-03")
          }
         } else {
          if i < 25 {
           Table::row(891752400, -10800, 3600, "-02")
          } else {
           Table::row(909288000, -10800, 0, "-03")
          }
         }
        }
       }
      }
     } else {
      if i < 39 {
       if i < 32 {
        if i < 29 {
         if i < 27 {
          Table::row(923202000, -10800, 3600, "-02")
         } else {
          if i < 28 {
           Table::row(941342400, -10800, 0, "-03")
          } else {
           Table::row(954651600, -10800, 3600, "-02")
          }
         }
        } else {
         if i < 30 {
          Table::row(972792000, -10800, 0, "-03")
         } else {
          if i < 31 {
           Table::row(986101200, -10800, 3600, "-02")
          } else {
           Table::row(1004241600, -10800, 0, "-03")
          }
         }
        }
       } else {
        if i < 35 {
         if i < 33 {
          Table::row(1018155600, -10800, 3600, "-02")
         } else {
          if i < 34 {
           Table::row(1035691200, -10800, 0, "-03")
          } else {
           Table::row(1049605200, -10800, 3600, "-02")
          }
         }
        } else {
         if i < 37 {
          if i < 36 {
           Table::row(1067140800, -10800, 0, "-03")
          } else {
           Table::row(1081054800, -10800, 3600, "-02")
          }
         } else {
          if i < 38 {
           Table::row(1099195200, -10800, 0, "-03")
          } else {
           Table::row(1112504400, -10800, 3600, "-02")
          }
         }
        }
       }
      } else {
       if i < 45 {
        if i < 42 {
         if i < 40 {
          Table::row(1130644800, -10800, 0, "-03")
         } else {
          if i < 41 {
           Table::row(1143954000, -10800, 3600, "-02")
          } else {
           Table::row(1162094400, -10800, 0, "-03")
          }
         }
        } else {
         if i < 43 {
          Table::row(1173589200, -10800, 3600, "-02")
         } else {
          if i < 44 {
           Table::row(1194148800, -10800, 0, "-03")
          } else {
           Table::row(1205038800, -10800, 3600, "-02")
          }
         }
        }
       } else {
        if i < 48 {
         if i < 46 {
          Table::row(1225598400, -10800, 0, "-03")
         } else {
          if i < 47 {
           Table::row(1236488400, -10800, 3600, "-02")
          } else {
           Table::row(1257048000, -10800, 0, "-03")
          }
         }
        } else {
         if i < 50 {
          if i < 49 {
           Table::row(1268542800, -10800, 3600, "-02")
          } else {
           Table::row(1289102400, -10800, 0, "-03")
          }
         } else {
          if i < 51 {
           Table::row(1299992400, -10800, 3600, "-02")
          } else {
           Table::row(1320552000, -10800, 0, "-03")
          }
         }
        }
       }
      }
     }
    } else {
     if i < 78 {
      if i < 65 {
       if i < 58 {
        if i < 55 {
         if i < 53 {
          Table::row(1331442000, -10800, 3600, "-02")
         } else {
          if i < 54 {
           Table::row(1352001600, -10800, 0, "-03")
          } else {
           Table::row(1362891600, -10800, 3600, "-02")
          }
         }
        } else {
         if i < 56 {
          Table::row(1383451200, -10800, 0, "-03")
         } else {
          if i < 57 {
           Table::row(1394341200, -10800, 3600, "-02")
          } else {
           Table::row(1414900800, -10800, 0, "-03")
          }
         }
        }
       } else {
        if i < 61 {
         if i < 59 {
          Table::row(1425790800, -10800, 3600, "-02")
         } else {
          if i < 60 {
           Table::row(1446350400, -10800, 0, "-03")
          } else {
           Table::row(1457845200, -10800, 3600, "-02")
          }
         }
        } else {
         if i < 63 {
          if i < 62 {
           Table::row(1478404800, -10800, 0, "-03")
          } else {
           Table::row(1489294800, -10800, 3600, "-02")
          }
         } else {
          if i < 64 {
           Table::row(1509854400, -10800, 0, "-03")
          } else {
           Table::row(1520744400, -10800, 3600, "-02")
          }
         }
        }
       }
      } else {
       if i < 71 {
        if i < 68 {
         if i < 66 {
          Table::row(1541304000, -10800, 0, "-03")
         } else {
          if i < 67 {
           Table::row(1552194000, -10800, 3600, "-02")
          } else {
           Table::row(1572753600, -10800, 0, "-03")
          }
         }
        } else {
         if i < 69 {
          Table::row(1583643600, -10800, 3600, "-02")
         } else {
          if i < 70 {
           Table::row(1604203200, -10800, 0, "-03")
          } else {
           Table::row(1615698000, -10800, 3600, "-02")
          }
         }
        }
       } else {
        if i < 74 {
         if i < 72 {
          Table::row(1636257600, -10800, 0, "-03")
         } else {
          if i < 73 {
           Table::row(1647147600, -10800, 3600, "-02")
          } else {
           Table::row(1667707200, -10800, 0, "-03")
          }
         }
        } else {
         if i < 76 {
          if i < 75 {
           Table::row(1678597200, -10800, 3600, "-02")
          } else {
           Table::row(1699156800, -10800, 0, "-03")
          }
         } else {
          if i < 77 {
           Table::row(1710046800, -10800, 3600, "-02")
          } else {
           Table::row(1730606400, -10800, 0, "-03")
          }
         }
        }
       }
      }
     } else {
      if i < 91 {
       if i < 84 {
        if i < 81 {
         if i < 79 {
          Table::row(1741496400, -10800, 3600, "-02")
         } else {
          if i < 80 {
           Table::row(1762056000, -10800, 0, "-03")
          } else {
           Table::row(1772946000, -10800, 3600, "-02")
          }
         }
        } else {
         if i < 82 {
          Table::row(1793505600, -10800, 0, "-03")
         } else {
          if i < 83 {
           Table::row(1805000400, -10800, 3600, "-02")
          } else {
           Table::row(1825560000, -10800, 0, "-03")
          }
         }
        }
       } else {
        if i < 87 {
         if i < 85 {
          Table::row(1836450000, -10800, 3600, "-02")
         } else {
          if i < 86 {
           Table::row(1857009600, -10800, 0, "-03")
          } else {
           Table::row(1867899600, -10800, 3600, "-02")
          }
         }
        } else {
         if i < 89 {
          if i < 88 {
           Table::row(1888459200, -10800, 0, "-03")
          } else {
           Table::row(1899349200, -10800, 3600, "-02")
          }
         } else {
          if i < 90 {
           Table::row(1919908800, -10800, 0, "-03")
          } else {
           Table::row(1930798800, -10800, 3600, "-02")
          }
         }
        }
       }
      } else {
       if i < 98 {
        if i < 94 {
         if i < 92 {
          Table::row(1951358400, -10800, 0, "-03")
         } else {
          if i < 93 {
           Table::row(1962853200, -10800, 3600, "-02")
          } else {
           Table::row(1983412800, -10800, 0, "-03")
          }
         }
        } else {
         if i < 96 {
          if i < 95 {
           Table::row(1994302800, -10800, 3600, "-02")
          } else {
           Table::row(2014862400, -10800, 0, "-03")
          }
         } else {
          if i < 97 {
           Table::row(2025752400, -10800, 3600, "-02")
          } else {
           Table::row(2046312000, -10800, 0, "-03")
          }
         }
        }
       } else {
        if i < 101 {
         if i < 99 {
          Table::row(2057202000, -10800, 3600, "-02")
         } else {
          if i < 100 {
           Table::row(2077761600, -10800, 0, "-03")
          } else {
           Table::row(2088651600, -10800, 3600, "-02")
          }
         }
        } else {
         if i < 103 {
          if i < 102 {
           Table::row(2109211200, -10800, 0, "-03")
          } else {
           Table::row(2120101200, -10800, 3600, "-02")
          }
         } else {
          if i < 104 {
           Table::row(2140660800, -10800, 0, "-03")
          } else {
           Table::row(2147483647, -10800, 0, "-03")
          }
         }
        }
       }
      }
     }
    }
}

/// The rows of the table of the zone `America/Miquelon`.
pub open spec fn miquelon_rows() -> spec_fn(int) -> (i64, FixedTimespan) {
    |i: int| miquelon_row(i)
}

/// The table of the zone `America/Miquelon`.
pub open spec fn miquelon() -> Table {
    Table::listed(Table::row(0, -13480, 0, "LMT").1, 105, miquelon_rows())
}

/// Row `i` of the table of the zone `America/Moncton`.
pub open spec fn moncton_row(i: int) -> (i64, FixedTimespan) {
    if i < 103 {
     if i < 51 {
      if i < 25 {
       if i < 12 {
        if i < 6 {
         if i < 3 {
          if i < 1 {
           Table::row(-2715882052, -18000, 0, "EST")
          } else {
           if i < 2 {
            Table::row(-2131642800, -14400, 0, "AST")
           } else {
            Table::row(-1632074400, -14400, 3600, "ADT")
           }
          }
         } else {
          if i < 4 {
           Table::row(-1615143600, -14400, 0, "AST")
          } else {
           if i < 5 {
            Table::row(-1153681200, -14400, 3600, "ADT")
           } else {
            Table::row(-1145822400, -14400, 0, "AST")
           }
          }
         }
        } else {
         if i < 9 {
          if i < 7 {
           Table::row(-1122231600, -14400, 3600, "ADT")
          } else {
           if i < 8 {
            Table::row(-1114372800, -14400, 0, "AST")
           } else {
            Table::row(-1090782000, -14400, 3600, "ADT")
           }
          }
         } else {
          if i < 10 {
           Table::row(-1082923200, -14400, 0, "AST")
          } else {
           if i < 11 {
            Table::row(-1059332400, -14400, 3600, "ADT")
           } else {
            Table::row(-1051473600, -14400, 0, "AST")
           }
          }
         }
        }
       } else {
        if i < 18 {
         if i < 15 {
          if i < 13 {
           Table::row(-1027882800, -14400, 3600, "ADT")
          } else {
           if i < 14 {
            Table::row(-1020024000, -14400, 0, "AST")
           } else {
            Table::row(-996433200, -14400, 3600, "ADT")
           }
          }
         } else {
          if i < 16 {
           Table::row(-988574400, -14400, 0, "AST")
          } else {
           if i < 17 {
            Table::row(-965674800, -14400, 3600, "ADT")
           } else {
            Table::row(-955396800, -14400, 0, "AST")
           }
          }
         }
        } else {
         if i < 21 {
          if i < 19 {
           Table::row(-934743600, -14400, 3600, "ADT")
          } else {
           if i < 20 {
            Table::row(-923947200, -14400, 0, "AST")
           } else {
            Table::row(-904503600, -14400, 3600, "ADT")
           }
          }
         } else {
          if i < 23 {
           if i < 22 {
            Table::row(-891892800, -14400, 0, "AST")
           } else {
            Table::row(-880221600, -14400, 3600, "AWT")
           }
          } else {
           if i < 24 {
            Table::row(-769395600, -14400, 3600, "APT")
           } else {
            Table::row(-765399600, -14400, 0, "AST")
           }
          }
         }
        }
       }
      } else {
       if i < 38 {
        if i < 31 {
         if i < 28 {
          if i < 26 {
           Table::row(-747252000, -14400, 3600, "ADT")
          } else {
           if i < 27 {
            Table::row(-733950000, -14400, 0, "AST")
           } else {
            Table::row(-715802400, -14400, 3600, "ADT")
           }
          }
         } else {
          if i < 29 {
           Table::row(-702500400, -14400, 0, "AST")
          } else {
           if i < 30 {
            Table::row(-684352800, -14400, 3600, "ADT")
           } else {
            Table::row(-671050800, -14400, 0, "AST")
           }
          }
         }
        } else {
         if i < 34 {
          if i < 32 {
           Table::row(-652903200, -14400, 3600, "ADT")
          } else {
           if i < 33 {
            Table::row(-639601200, -14400, 0, "AST")
           } else {
            Table::row(-620848800, -14400, 3600, "ADT")
           }
          }
         } else {
          if i < 36 {
           if i < 35 {
            Table::row(-608151600, -14400, 0, "AST")
           } else {
            Table::row(-589399200, -14400, 3600, "ADT")
           }
          } else {
           if i < 37 {
            Table::row(-576097200, -14400, 0, "AST")
           } else {
            Table::row(-557949600, -14400, 3600, "ADT")
           }
          }
         }
        }
       } else {
        if i < 44 {
         if i < 41 {
          if i < 39 {
           Table::row(-544647600, -14400, 0, "AST")
          } else {
           if i < 40 {
            Table::row(-526500000, -14400, 3600, "ADT")
           } else {
            Table::row(-513198000, -14400, 0, "AST")
           }
          }
         } else {
          if i < 42 {
           Table::row(-495050400, -14400, 3600, "ADT")
          } else {
           if i < 43 {
            Table::row(-481748400, -14400, 0, "AST")
           } else {
            Table::row(-463600800, -14400, 3600, "ADT")
           }
          }
         }
        } else {
         if i < 47 {
          if i < 45 {
           Table::row(-450298800, -14400, 0, "AST")
          } else {
           if i < 46 {
            Table::row(-431546400, -14400, 3600, "ADT")
           } else {
            Table::row(-418244400, -14400, 0, "AST")
           }
          }
         } else {
          if i < 49 {
           if i < 48 {
            Table::row(-400096800, -14400, 3600, "ADT")
           } else {
            Table::row(-384375600, -14400, 0, "AST")
           }
          } else {
           if i < 50 {
            Table::row(-368647200, -14400, 3600, "ADT")
           } else {
            Table::row(-352926000, -14400, 0, "AST")
           }
          }
         }
        }
       }
      }
     } else {
      if i < 77 {
       if i < 64 {
        if i < 57 {
         if i < 54 {
          if i < 52 {
           Table::row(-337197600, -14400, 3600, "ADT")
          } else {
           if i < 53 {
            Table::row(-321476400, -14400, 0, "AST")
           } else {
            Table::row(-305748000, -14400, 3600, "ADT")
           }
          }
         } else {
          if i < 55 {
           Table::row(-289422000, -14400, 0, "AST")
          } else {
           if i < 56 {
            Table::row(-273693600, -14400, 3600, "ADT")
           } else {
            Table::row(-257972400, -14400, 0, "AST")
           }
          }
         }
        } else {
         if i < 60 {
          if i < 58 {
           Table::row(-242244000, -14400, 3600, "ADT")
          } else {
           if i < 59 {
            Table::row(-226522800, -14400, 0, "AST")
           } else {
            Table::row(-210794400, -14400, 3600, "ADT")
           }
          }
         } else {
          if i < 62 {
           if i < 61 {
            Table::row(-195073200, -14400, 0, "AST")
           } else {
            Table::row(-179344800, -14400, 3600, "ADT")
           }
          } else {
           if i < 63 {
            Table::row(-163623600, -14400, 0, "AST")
           } else {
            Table::row(-147895200, -14400, 3600, "ADT")
           }
          }
         }
        }
       } else {
        if i < 70 {
         if i < 67 {
          if i < 65 {
           Table::row(-131569200, -14400, 0, "AST")
          } else {
           if i < 66 {
            Table::row(-116445600, -14400, 3600, "ADT")
           } else {
            Table::row(-100119600, -14400, 0, "AST")
           }
          }
         } else {
          if i < 68 {
           Table::row(-84391200, -14400, 3600, "ADT")
          } else {
           if i < 69 {
            Table::row(-68670000, -14400, 0, "AST")
           } else {
            Table::row(-52941600, -14400, 3600, "ADT")
           }
          }
         }
        } else {
         if i < 73 {
          if i < 71 {
           Table::row(-37220400, -14400, 0, "AST")
          } else {
           if i < 72 {
            Table::row(-21492000, -14400, 3600, "ADT")
           } else {
            Table::row(-5770800, -14400, 0, "AST")
           }
          }
         } else {
          if i < 75 {
           if i < 74 {
            Table::row(9957600, -14400, 3600, "ADT")
           } else {
            Table::row(25678800, -14400, 0, "AST")
           }
          } else {
           if i < 76 {
            Table::row(41407200, -14400, 3600, "ADT")
           } else {
            Table::row(57733200, -14400, 0, "AST")
           }
          }
         }
        }
       }
      } else {
       if i < 90 {
        if i < 83 {
         if i < 80 {
          if i < 78 {
           Table::row(73461600, -14400, 3600, "ADT")
          } else {
           if i < 79 {
            Table::row(89182800, -14400, 0, "AST")
           } else {
            Table::row(136360800, -14400, 3600, "ADT")
           }
          }
         } else {
          if i < 81 {
           Table::row(152082000, -14400, 0, "AST")
          } else {
           if i < 82 {
            Table::row(167810400, -14400, 3600, "ADT")
           } else {
            Table::row(183531600, -14400, 0, "AST")
           }
          }
         }
        } else {
         if i < 86 {
          if i < 84 {
           Table::row(199260000, -14400, 3600, "ADT")
          } else {
           if i < 85 {
            Table::row(215586000, -14400, 0, "AST")
           } else {
            Table::row(230709600, -14400, 3600, "ADT")
           }
          }
         } else {
          if i < 88 {
           if i < 87 {
            Table::row(247035600, -14400, 0, "AST")
           } else {
            Table::row(262764000, -14400, 3600, "ADT")
           }
          } else {
           if i < 89 {
            Table::row(278485200, -14400, 0, "AST")
           } else {
            Table::row(294213600, -14400, 3600, "ADT")
           }
          }
         }
        }
       } else {
        if i < 96 {
         if i < 93 {
          if i < 91 {
           Table::row(309934800, -14400, 0, "AST")
          } else {
           if i < 92 {
            Table::row(325663200, -14400, 3600, "ADT")
           } else {
            Table::row(341384400, -14400, 0, "AST")
           }
          }
         } else {
          if i < 94 {
           Table::row(357112800, -14400, 3600, "ADT")
          } else {
           if i < 95 {
            Table::row(372834000, -14400, 0, "AST")
           } else {
            Table::row(388562400, -14400, 3600, "ADT")
           }
          }
         }
        } else {
         if i < 99 {
          if i < 97 {
           Table::row(404888400, -14400, 0, "AST")
          } else {
           if i < 98 {
            Table::row(420012000, -14400, 3600, "ADT")
           } else {
            Table::row(436338000, -14400, 0, "AST")
           }
          }
         } else {
          if i < 101 {
           if i < 100 {
            Table::row(452066400, -14400, 3600, "ADT")
           } else {
            Table::row(467787600, -14400, 0, "AST")
           }
          } else {
           if i < 102 {
            Table::row(483516000, -14400, 3600, "ADT")
           } else {
            Table::row(499237200, -14400, 0, "AST")
           }
          }
         }
        }
       }
      }
     }
    } else {
     if i < 155 {
      if i < 129 {
       if i < 116 {
        if i < 109 {
         if i < 106 {
          if i < 104 {
           Table::row(514965600, -14400, 3600, "ADT")
          } else {
           if i < 105 {
            Table::row(530686800, -14400, 0, "AST")
           } else {
            Table::row(544600800, -14400, 3600, "ADT")
           }
          }
         } else {
          if i < 107 {
           Table::row(562136400, -14400, 0, "AST")
          } else {
           if i < 108 {
            Table::row(576050400, -14400, 3600, "ADT")
           } else {
            Table::row(594190800, -14400, 0, "AST")
           }
          }
         }
        } else {
         if i < 112 {
          if i < 110 {
           Table::row(607500000, -14400, 3600, "ADT")
          } else {
           if i < 111 {
            Table::row(625640400, -14400, 0, "AST")
           } else {
            Table::row(638949600, -14400, 3600, "ADT")
           }
          }
         } else {
          if i < 114 {
           if i < 113 {
            Table::row(657090000, -14400, 0, "AST")
           } else {
            Table::row(671004000, -14400, 3600, "ADT")
           }
          } else {
           if i < 115 {
            Table::row(688539600, -14400, 0, "AST")
           } else {
            Table::row(702453600, -14400, 3600, "ADT")
           }
          }
         }
        }
       } else {
        if i < 122 {
         if i < 119 {
          if i < 117 {
           Table::row(719989200, -14400, 0, "AST")
          } else {
           if i < 118 {
            Table::row(733896060, -14400, 3600, "ADT")
           } else {
            Table::row(752036460, -14400, 0, "AST")
           }
          }
         } else {
          if i < 120 {
           Table::row(765345660, -14400, 3600, "ADT")
          } else {
           if i < 121 {
            Table::row(783486060, -14400, 0, "AST")
           } else {
            Table::row(796795260, -14400, 3600, "ADT")
           }
          }
         }
        } else {
         if i < 125 {
          if i < 123 {
           Table::row(814935660, -14400, 0, "AST")
          } else {
           if i < 124 {
            Table::row(828849660, -14400, 3600, "ADT")
           } else {
            Table::row(846385260, -14400, 0, "AST")
           }
          }
         } else {
          if i < 127 {
           if i < 126 {
            Table::row(860299260, -14400, 3600, "ADT")
           } else {
            Table::row(877834860, -14400, 0, "AST")
           }
          } else {
           if i < 128 {
            Table::row(891748860, -14400, 3600, "ADT")
           } else {
            Table::row(909284460, -14400, 0, "AST")
           }
          }
         }
        }
       }
      } else {
       if i < 142 {
        if i < 135 {
         if i < 132 {
          if i < 130 {
           Table::row(923198460, -14400, 3600, "ADT")
          } else {
           if i < 131 {
            Table::row(941338860, -14400, 0, "AST")
           } else {
            Table::row(954648060, -14400, 3600, "ADT")
           }
          }
         } else {
          if i < 133 {
           Table::row(972788460, -14400, 0, "AST")
          } else {
           if i < 134 {
            Table::row(986097660, -14400, 3600, "ADT")
           } else {
            Table::row(1004238060, -14400, 0, "AST")
           }
          }
         }
        } else {
         if i < 138 {
          if i < 136 {
           Table::row(1018152060, -14400, 3600, "ADT")
          } else {
           if i < 137 {
            Table::row(1035687660, -14400, 0, "AST")
           } else {
            Table::row(1049601660, -14400, 3600, "ADT")
           }
          }
         } else {
          if i < 140 {
           if i < 139 {
            Table::row(1067137260, -14400, 0, "AST")
           } else {
            Table::row(1081051260, -14400, 3600, "ADT")
           }
          } else {
           if i < 141 {
            Table::row(1099191660, -14400, 0, "AST")
           } else {
            Table::row(1112500860, -14400, 3600, "ADT")
           }
          }
         }
        }
       } else {
        if i < 148 {
         if i < 145 {
          if i < 143 {
           Table::row(1130641260, -14400, 0, "AST")
          } else {
           if i < 144 {
            Table::row(1143950460, -14400, 3600, "ADT")
           } else {
            Table::row(1162090860, -14400, 0, "AST")
           }
          }
         } else {
          if i < 146 {
           Table::row(1173592800, -14400, 3600, "ADT")
          } else {
           if i < 147 {
            Table::row(1194152400, -14400, 0, "AST")
           } else {
            Table::row(1205042400, -14400, 3600, "ADT")
           }
          }
         }
        } else {
         if i < 151 {
          if i < 149 {
           Table::row(1225602000, -14400, 0, "AST")
          } else {
           if i < 150 {
            Table::row(1236492000, -14400, 3600, "ADT")
           } else {
            Table::row(1257051600, -14400, 0, "AST")
           }
          }
         } else {
          if i < 153 {
           if i < 152 {
            Table::row(1268546400, -14400, 3600, "ADT")
           } else {
            Table::row(1289106000, -14400, 0, "AST")
           }
          } else {
           if i < 154 {
            Table::row(1299996000, -14400, 3600, "ADT")
           } else {
            Table::row(1320555600, -14400, 0, "AST")
           }
          }
         }
        }
       }
      }
     } else {
      if i < 181 {
       if i < 168 {
        if i < 161 {
         if i < 158 {
          if i < 156 {
           Table::row(1331445600, -14400, 3600, "ADT")
          } else {
           if i < 157 {
            Table::row(1352005200, -14400, 0, "AST")
           } else {
            Table::row(1362895200, -14400, 3600, "ADT")
           }
          }
         } else {
          if i < 159 {
           Table::row(1383454800, -14400, 0, "AST")
          } else {
           if i < 160 {
            Table::row(1394344800, -14400, 3600, "ADT")
           } else {
            Table::row(1414904400, -14400, 0, "AST")
           }
          }
         }
        } else {
         if i < 164 {
          if i < 162 {
           Table::row(1425794400, -14400, 3600, "ADT")
          } else {
           if i < 163 {
            Table::row(1446354000, -14400, 0, "AST")
           } else {
            Table::row(1457848800, -14400, 3600, "ADT")
           }
          }
         } else {
          if i < 166 {
           if i < 165 {
            Table::row(1478408400, -14400, 0, "AST")
           } else {
            Table::row(1489298400, -14400, 3600, "ADT")
           }
          } else {
           if i < 167 {
            Table::row(1509858000, -14400, 0, "AST")
           } else {
            Table::row(1520748000, -14400, 3600, "ADT")
           }
          }
         }
        }
       } else {
        if i < 174 {
         if i < 171 {
          if i < 169 {
           Table::row(1541307600, -14400, 0, "AST")
          } else {
           if i < 170 {
            Table::row(1552197600, -14400, 3600, "ADT")
           } else {
            Table::row(1572757200, -14400, 0, "AST")
           }
          }
         } else {
          if i < 172 {
           Table::row(1583647200, -14400, 3600, "ADT")
          } else {
           if i < 173 {
            Table::row(1604206800, -14400, 0, "AST")
           } else {
            Table::row(1615701600, -14400, 3600, "ADT")
           }
          }
         }
        } else {
         if i < 177 {
          if i < 175 {
           Table::row(1636261200, -14400, 0, "AST")
          } else {
           if i < 176 {
            Table::row(1647151200, -14400, 3600, "ADT")
           } else {
            Table::row(1667710800, -14400, 0, "AST")
           }
          }
         } else {
          if i < 179 {
           if i < 178 {
            Table::row(1678600800, -14400, 3600, "ADT")
           } else {
            Table::row(1699160400, -14400, 0, "AST")
           }
          } else {
           if i < 180 {
            Table::row(1710050400, -14400, 3600, "ADT")
           } else {
            Table::row(1730610000, -14400, 0, "AST")
           }
          }
         }
        }
       }
      } else {
       if i < 194 {
        if i < 187 {
         if i < 184 {
          if i < 182 {
           Table::row(1741500000, -14400, 3600, "ADT")
          } else {
           if i < 183 {
            Table::row(1762059600, -14400, 0, "AST")
           } else {
            Table::row(1772949600, -14400, 3600, "ADT")
           }
          }
         } else {
          if i < 185 {
           Table::row(1793509200, -14400, 0, "AST")
          } else {
           if i < 186 {
            Table::row(1805004000, -14400, 3600, "ADT")
           } else {
            Table::row(1825563600, -14400, 0, "AST")
           }
          }
         }
        } else {
         if i < 190 {
          if i < 188 {
           Table::row(1836453600, -14400, 3600, "ADT")
          } else {
           if i < 189 {
            Table::row(1857013200, -14400, 0, "AST")
           } else {
            Table::row(1867903200, -14400, 3600, "ADT")
           }
          }
         } else {
          if i < 192 {
           if i < 191 {
            Table::row(1888462800, -14400, 0, "AST")
           } else {
            Table::row(1899352800, -14400, 3600, "ADT")
           }
          } else {
           if i < 193 {
            Table::row(1919912400, -14400, 0, "AST")
           } else {
            Table::row(1930802400, -14400, 3600, "ADT")
           }
          }
         }
        }
       } else {
        if i < 200 {
         if i < 197 {
          if i < 195 {
           Table::row(1951362000, -14400, 0, "AST")
          } else {
           if i < 196 {
            Table::row(1962856800, -14400, 3600, "ADT")
           } else {
            Table::row(1983416400, -14400, 0, "AST")
           }
          }
         } else {
          if i < 198 {
           Table::row(1994306400, -14400, 3600, "ADT")
          } else {
           if i < 199 {
            Table::row(2014866000, -14400, 0, "AST")
           } else {
            Table::row(2025756000, -14400, 3600, "ADT")
           }
          }
         }
        } else {
         if i < 203 {
          if i < 201 {
           Table::row(2046315600, -14400, 0, "AST")
          } else {
           if i < 202 {
            Table::row(2057205600, -14400, 3600, "ADT")
           } else {
            Table::row(2077765200, -14400, 0, "AST")
           }
          }
         } else {
          if i < 205 {
           if i < 204 {
            Table::row(2088655200, -14400, 3600, "ADT")
           } else {
            Table::row(2109214800, -14400, 0, "AST")
           }
          } else {
           if i < 206 {
            Table::row(2120104800, -14400, 3600, "ADT")
           } else {
            Table::row(2140664400, -14400, 0, "AST")
           }
          }
         }
        }
       }
      }
     }
    }
}

/// The rows of the table of the zone `America/Moncton`.
pub open spec fn moncton_rows() -> spec_fn(int) -> (i64, FixedTimespan) {
    |i: int| moncton_row(i)
}

/// The table of the zone `America/Moncton`.
pub open spec fn moncton() -> Table {
    Table::listed(Table::row(0, -15548, 0, "LMT").1, 207, moncton_rows())
}

/// Row `i` of the table of the zone `America/Monterrey`.
pub open spec fn monterrey_row(i: int) -> (i64, FixedTimespan) {
    if i < 31 {
     if i < 15 {
      if i < 7 {
       if i < 3 {
        if i < 1 {
         Table::row(-1514743200, -25200, 0, "MST")
        } else {
         if i < 2 {
          Table::row(-1343149200, -21600, 0, "CST")
         } else {
          Table::row(-1234807200, -25200, 0, "MST")
         }
        }
       } else {
        if i < 5 {
         if i < 4 {
          Table::row(-1220461200, -25200, 3600, "MDT")
         } else {
          Table::row(-1207159200, -25200, 0, "MST")
         }
        } else {
         if i < 6 {
          Table::row(-1191344400, -21600, 0, "CST")
         } else {
          Table::row(576057600, -21600, 3600, "CDT")
         }
        }
       }
      } else {
       if i < 11 {
        if i < 9 {
         if i < 8 {
          Table::row(594198000, -21600, 0, "CST")
         } else {
          Table::row(828864000, -21600, 3600, "CDT")
         }
        } else {
         if i < 10 {
          Table::row(846399600, -21600, 0, "CST")
         } else {
          Table::row(860313600, -21600, 3600, "CDT")
         }
        }
       } else {
        if i < 13 {
         if i < 12 {
          Table::row(877849200, -21600, 0, "CST")
         } else {
          Table::row(891763200, -21600, 3600, "CDT")
         }
        } else {
         if i < 14 {
          Table::row(909298800, -21600, 0, "CST")
         } else {
          Table::row(923212800, -21600, 3600, "CDT")
         }
        }
       }
      }
     } else {
      if i < 23 {
       if i < 19 {
        if i < 17 {
         if i < 16 {
          Table::row(941353200, -21600, 0, "CST")
         } else {
          Table::row(954662400, -21600, 3600, "CDT")
         }
        } else {
         if i < 18 {
          Table::row(972802800, -21600, 0, "CST")
         } else {
          Table::row(989136000, -21600, 3600, "CDT")
         }
        }
       } else {
        if i < 21 {
         if i < 20 {
          Table::row(1001833200, -21600, 0, "CST")
         } else {
          Table::row(1018166400, -21600, 3600, "CDT")
         }
        } else {
         if i < 22 {
          Table::row(1035702000, -21600, 0, "CST")
         } else {
          Table::row(1049616000, -21600, 3600, "CDT")
         }
        }
       }
      } else {
       if i < 27 {
        if i < 25 {
         if i < 24 {
          Table::row(1067151600, -21600, 0, "CST")
         } else {
          Table::row(1081065600, -21600, 3600, "CDT")
         }
        } else {
         if i < 26 {
          Table::row(1099206000, -21600, 0, "CST")
         } else {
          Table::row(1112515200, -21600, 3600, "CDT")
         }
        }
       } else {
        if i < 29 {
         if i < 28 {
          Table::row(1130655600, -21600, 0, "CST")
         } else {
          Table::row(1143964800, -21600, 3600, "CDT")
         }
        } else {
         if i < 30 {
          Table::row(1162105200, -21600, 0, "CST")
         } else {
          Table::row(1175414400, -21600, 3600, "CDT")
         }
        }
       }
      }
     }
    } else {
     if i < 46 {
      if i < 38 {
       if i < 34 {
        if i < 32 {
         Table::row(1193554800, -21600, 0, "CST")
        } else {
         if i < 33 {
          Table::row(1207468800, -21600, 3600, "CDT")
         } else {
          Table::row(1225004400, -21600, 0, "CST")
         }
        }
       } else {
        if i < 36 {
         if i < 35 {
          Table::row(1238918400, -21600, 3600, "CDT")
         } else {
          Table::row(1256454000, -21600, 0, "CST")
         }
        } else {
         if i < 37 {
          Table::row(1270368000, -21600, 3600, "CDT")
         } else {
          Table::row(1288508400, -21600, 0, "CST")
         }
        }
       }
      } else {
       if i < 42 {
        if i < 40 {
         if i < 39 {
          Table::row(1301817600, -21600, 3600, "CDT")
         } else {
          Table::row(1319958000, -21600, 0, "CST")
         }
        } else {
         if i < 41 {
          Table::row(1333267200, -21600, 3600, "CDT")
         } else {
          Table::row(1351407600, -21600, 0, "CST")
         }
        }
       } else {
        if i < 44 {
         if i < 43 {
          Table::row(1365321600, -21600, 3600, "CDT")
         } else {
          Table::row(1382857200, -21600, 0, "CST")
         }
        } else {
         if i < 45 {
          Table::row(1396771200, -21600, 3600, "CDT")
         } else {
          Table::row(1414306800, -21600, 0, "CST")
         }
        }
       }
      }
     } else {
      if i < 54 {
       if i < 50 {
        if i < 48 {
         if i < 47 {
          Table::row(1428220800, -21600, 3600, "CDT")
         } else {
          Table::row(1445756400, -21600, 0, "CST")
         }
        } else {
         if i < 49 {
          Table::row(1459670400, -21600, 3600, "CDT")
         } else {
          Table::row(1477810800, -21600, 0, "CST")
         }
        }
       } else {
        if i < 52 {
         if i < 51 {
          Table::row(1491120000, -21600, 3600, "CDT")
         } else {
          Table::row(1509260400, -21600, 0, "CST")
         }
        } else {
         if i < 53 {
          Table::row(1522569600, -21600, 3600, "CDT")
         } else {
          Table::row(1540710000, -21600, 0, "CST")
         }
        }
       }
      } else {
       if i < 58 {
        if i < 56 {
         if i < 55 {
          Table::row(1554624000, -21600, 3600, "CDT")
         } else {
          Table::row(1572159600, -21600, 0, "CST")
         }
        } else {
         if i < 57 {
          Table::row(1586073600, -21600, 3600, "CDT")
         } else {
          Table::row(1603609200, -21600, 0, "CST")
         }
        }
       } else {
        if i < 60 {
         if i < 59 {
          Table::row(1617523200, -21600, 3600, "CDT")
         } else {
          Table::row(1635663600, -21600, 0, "CST")
         }
        } else {
         if i < 61 {
          Table::row(1648972800, -21600, 3600, "CDT")
         } else {
          Table::row(1667113200, -21600, 0, "CST")
         }
        }
       }
      }
     }
    }
}

/// The rows of the table of the zone `America/Monterrey`.
pub open spec fn monterrey_rows() -> spec_fn(int) -> (i64, FixedTimespan) {
    |i: int| monterrey_row(i)
}

/// The table of the zone `America/Monterrey`.
pub open spec fn monterrey() -> Table {
    Table::listed(Table::row(0, -24076, 0, "LMT").1, 62, monterrey_rows())
}

/// Row `i` of the table of the zone `America/Montevideo`.
pub open spec fn montevideo_row(i: int) -> (i64, FixedTimespan) {
    if i < 43 {
     if i < 21 {
      if i < 10 {
       if i < 5 {
        if i < 2 {
         if i < 1 {
          Table::row(-1942690509, -13491, 0, "MMT")
         } else {
          Table::row(-1567455309, -14400, 0, "-04")
         }
        } else {
         if i < 3 {
          Table::row(-1459627200, -14400, 3600, "-03")
         } else {
          if i < 4 {
           Table::row(-1443819600, -12600, 0, "-0330")
          } else {
           Table::row(-1428006600, -12600, 1800, "-03")
          }
         }
        }
       } else {
        if i < 7 {
         if i < 6 {
          Table::row(-1412283600, -12600, 0, "-0330")
         } else {
          Table::row(-1396470600, -12600, 1800, "-03")
         }
        } else {
         if i < 8 {
          Table::row(-1380747600, -12600, 0, "-0330")
         } else {
          if i < 9 {
           Table::row(-1141590600, -12600, 1800, "-03")
          } else {
           Table::row(-1128286800, -12600, 0, "-0330")
          }
         }
        }
       }
      } else {
       if i < 15 {
        if i < 12 {
         if i < 11 {
          Table::row(-1110141000, -12600, 1800, "-03")
         } else {
          Table::row(-1096837200, -12600, 0, "-0330")
         }
        } else {
         if i < 13 {
          Table::row(-1078691400, -12600, 1800, "-03")
         } else {
          if i < 14 {
           Table::row(-1065387600, -12600, 0, "-0330")
          } else {
           Table::row(-1047241800, -12600, 1800, "-03")
          }
         }
        }
       } else {
        if i < 18 {
         if i < 16 {
          Table::row(-1033938000, -12600, 0, "-0330")
         } else {
          if i < 17 {
           Table::row(-1015187400, -12600, 1800, "-03")
          } else {
           Table::row(-1002488400, -12600, 0, "-0330")
          }
         }
        } else {
         if i < 19 {
          Table::row(-983737800, -12600, 1800, "-03")
         } else {
          if i < 20 {
           Table::row(-971038800, -12600, 0, "-0330")
          } else {
           Table::row(-954707400, -12600, 1800, "-03")
          }
         }
        }
       }
      }
     } else {
      if i < 32 {
       if i < 26 {
        if i < 23 {
         if i < 22 {
          Table::row(-938984400, -12600, 0, "-0330")
         } else {
          Table::row(-920838600, -12600, 1800, "-03")
         }
        } else {
         if i < 24 {
          Table::row(-907534800, -12600, 0, "-0330")
         } else {
          if i < 25 {
           Table::row(-896819400, -12600, 1800, "-03")
          } else {
           Table::row(-853621200, -12600, 3600, "-0230")
          }
         }
        }
       } else {
        if i < 29 {
         if i < 27 {
          Table::row(-845847000, -10800, 0, "-03")
         } else {
          if i < 28 {
           Table::row(-334789200, -10800, 1800, "-0230")
          } else {
           Table::row(-319671000, -10800, 0, "-03")
          }
         }
        } else {
         if i < 30 {
          Table::row(-314226000, -10800, 3600, "-02")
         } else {
          if i < 31 {
           Table::row(-309996000, -10800, 0, "-03")
          } else {
           Table::row(-149720400, -10800, 3600, "-02")
          }
         }
        }
       }
      } else {
       if i < 37 {
        if i < 34 {
         if i < 33 {
          Table::row(-134604000, -10800, 0, "-03")
         } else {
          Table::row(-50446800, -10800, 1800, "-0230")
         }
        } else {
         if i < 35 {
          Table::row(-34205400, -10800, 0, "-03")
         } else {
          if i < 36 {
           Table::row(9860400, -10800, 3600, "-02")
          } else {
           Table::row(14176800, -10800, 0, "-03")
          }
         }
        }
       } else {
        if i < 40 {
         if i < 38 {
          Table::row(72846000, -10800, 3600, "-02")
         } else {
          if i < 39 {
           Table::row(80100000, -10800, 0, "-03")
          } else {
           Table::row(127278000, -10800, 5400, "-0130")
          }
         }
        } else {
         if i < 41 {
          Table::row(132111000, -10800, 1800, "-0230")
         } else {
          if i < 42 {
           Table::row(147234600, -10800, 0, "-03")
          } else {
           Table::row(156913200, -10800, 3600, "-02")
          }
         }
        }
       }
      }
     }
    } else {
     if i < 65 {
      if i < 54 {
       if i < 48 {
        if i < 45 {
         if i < 44 {
          Table::row(165376800, -10800, 0, "-03")
         } else {
          Table::row(219812400, -10800, 3600, "-02")
         }
        } else {
         if i < 46 {
          Table::row(226461600, -10800, 0, "-03")
         } else {
          if i < 47 {
           Table::row(250052400, -10800, 3600, "-02")
          } else {
           Table::row(257911200, -10800, 0, "-03")
          }
         }
        }
       } else {
        if i < 51 {
         if i < 49 {
          Table::row(282711600, -10800, 3600, "-02")
         } else {
          if i < 50 {
           Table::row(289360800, -10800, 0, "-03")
          } else {
           Table::row(294202800, -10800, 3600, "-02")
          }
         }
        } else {
         if i < 52 {
          Table::row(322020000, -10800, 0, "-03")
         } else {
          if i < 53 {
           Table::row(566449200, -10800, 3600, "-02")
          } else {
           Table::row(573012000, -10800, 0, "-03")
          }
         }
        }
       }
      } else {
       if i < 59 {
        if i < 56 {
         if i < 55 {
          Table::row(597812400, -10800, 3600, "-02")
         } else {
          Table::row(605066400, -10800, 0, "-03")
         }
        } else {
         if i < 57 {
          Table::row(625633200, -10800, 3600, "-02")
         } else {
          if i < 58 {
           Table::row(635911200, -10800, 0, "-03")
          } else {
           Table::row(656478000, -10800, 3600, "-02")
          }
         }
        }
       } else {
        if i < 62 {
         if i < 60 {
          Table::row(667965600, -10800, 0, "-03")
         } else {
          if i < 61 {
           Table::row(688532400, -10800, 3600, "-02")
          } else {
           Table::row(699415200, -10800, 0, "-03")
          }
         }
        } else {
         if i < 63 {
          Table::row(719377200, -10800, 3600, "-02")
         } else {
          if i < 64 {
           Table::row(730864800, -10800, 0, "-03")
          } else {
           Table::row(1095562800, -10800, 3600, "-02")
          }
         }
        }
       }
      }
     } else {
      if i < 76 {
       if i < 70 {
        if i < 67 {
         if i < 66 {
          Table::row(1111896000, -10800, 0, "-03")
         } else {
          Table::row(1128834000, -10800, 3600, "-02")
         }
        } else {
         if i < 68 {
          Table::row(1142136000, -10800, 0, "-03")
         } else {
          if i < 69 {
           Table::row(1159678800, -10800, 3600, "-02")
          } else {
           Table::row(1173585600, -10800, 0, "-03")
          }
         }
        }
       } else {
        if i < 73 {
         if i < 71 {
          Table::row(1191733200, -10800, 3600, "-02")
         } else {
          if i < 72 {
           Table::row(1205035200, -10800, 0, "-03")
          } else {
           Table::row(1223182800, -10800, 3600, "-02")
          }
         }
        } else {
         if i < 74 {
          Table::row(1236484800, -10800, 0, "-03")
         } else {
          if i < 75 {
           Table::row(1254632400, -10800, 3600, "-02")
          } else {
           Table::row(1268539200, -10800, 0, "-03")
          }
         }
        }
       }
      } else {
       if i < 81 {
        if i < 78 {
         if i < 77 {
          Table::row(1286082000, -10800, 3600, "-02")
         } else {
          Table::row(1299988800, -10800, 0, "-03")
         }
        } else {
         if i < 79 {
          Table::row(1317531600, -10800, 3600, "-02")
         } else {
          if i < 80 {
           Table::row(1331438400, -10800, 0, "-03")
          } else {
           Table::row(1349586000, -10800, 3600, "-02")
          }
         }
        }
       } else {
        if i < 84 {
         if i < 82 {
          Table::row(1362888000, -10800, 0, "-03")
         } else {
          if i < 83 {
           Table::row(1381035600, -10800, 3600, "-02")
          } else {
           Table::row(1394337600, -10800, 0, "-03")
          }
         }
        } else {
         if i < 85 {
          Table::row(1412485200, -10800, 3600, "-02")
         } else {
          if i < 86 {
           Table::row(1425787200, -10800, 0, "-03")
          } else {
           Table::row(2147483647, -10800, 0, "-03")
          }
         }
        }
       }
      }
     }
    }
}

/// The rows of the table of the zone `America/Montevideo`.
pub open spec fn montevideo_rows() -> spec_fn(int) -> (i64, FixedTimespan) {
    |i: int| montevideo_row(i)
}

/// The table of the zone `America/Montevideo`.
pub open spec fn montevideo() -> Table {
    Table::listed(Table::row(0, -13491, 0, "LMT").1, 87, montevideo_rows())
}

/// Row `i` of the table of the zone `America/Montreal`.
pub open spec fn montreal_row(i: int) -> (i64, FixedTimespan) {
    if i < 116 {
     if i < 58 {
      if i < 29 {
       if i < 14 {
        if i < 7 {
         if i < 3 {
          if i < 1 {
           Table::row(-2366736148, -18000, 0, "EST")
          } else {
           if i < 2 {
            Table::row(-1632070800, -18000, 3600, "EDT")
           } else {
            Table::row(-1615140000, -18000, 0, "EST")
           }
          }
         } else {
          if i < 5 {
           if i < 4 {
            Table::row(-1601753400, -18000, 3600, "EDT")
           } else {
            Table::row(-1583697600, -18000, 0, "EST")
           }
          } else {
           if i < 6 {
            Table::row(-1567357200, -18000, 3600, "EDT")
           } else {
            Table::row(-1554667200, -18000, 0, "EST")
           }
          }
         }
        } else {
         if i < 10 {
          if i < 8 {
           Table::row(-1534698000, -18000, 3600, "EDT")
          } else {
           if i < 9 {
            Table::row(-1524074400, -18000, 0, "EST")
           } else {
            Table::row(-1503248400, -18000, 3600, "EDT")
           }
          }
         } else {
          if i < 12 {
           if i < 11 {
            Table::row(-1492365600, -18000, 0, "EST")
           } else {
            Table::row(-1471798800, -18000, 3600, "EDT")
           }
          } else {
           if i < 13 {
            Table::row(-1460916000, -18000, 0, "EST")
           } else {
            Table::row(-1440954000, -18000, 3600, "EDT")
           }
          }
         }
        }
       } else {
        if i < 21 {
         if i < 17 {
          if i < 15 {
           Table::row(-1428861600, -18000, 0, "EST")
          } else {
           if i < 16 {
            Table::row(-1409504400, -18000, 3600, "EDT")
           } else {
            Table::row(-1397412000, -18000, 0, "EST")
           }
          }
         } else {
          if i < 19 {
           if i < 18 {
            Table::row(-1378054800, -18000, 3600, "EDT")
           } else {
            Table::row(-1365962400, -18000, 0, "EST")
           }
          } else {
           if i < 20 {
            Table::row(-1346605200, -18000, 3600, "EDT")
           } else {
            Table::row(-1333908000, -18000, 0, "EST")
           }
          }
         }
        } else {
         if i < 25 {
          if i < 23 {
           if i < 22 {
            Table::row(-1315155600, -18000, 3600, "EDT")
           } else {
            Table::row(-1301853600, -18000, 0, "EST")
           }
          } else {
           if i < 24 {
            Table::row(-1283706000, -18000, 3600, "EDT")
           } else {
            Table::row(-1270404000, -18000, 0, "EST")
           }
          }
         } else {
          if i < 27 {
           if i < 26 {
            Table::row(-1252256400, -18000, 3600, "EDT")
           } else {
            Table::row(-1238954400, -18000, 0, "EST")
           }
          } else {
           if i < 28 {
            Table::row(-1220806800, -18000, 3600, "EDT")
           } else {
            Table::row(-1207504800, -18000, 0, "EST")
           }
          }
         }
        }
       }
      } else {
       if i < 43 {
        if i < 36 {
         if i < 32 {
          if i < 30 {
           Table::row(-1188752400, -18000, 3600, "EDT")
          } else {
           if i < 31 {
            Table::row(-1176055200, -18000, 0, "EST")
           } else {
            Table::row(-1157302800, -18000, 3600, "EDT")
           }
          }
         } else {
          if i < 34 {
           if i < 33 {
            Table::row(-1144000800, -18000, 0, "EST")
           } else {
            Table::row(-1125853200, -18000, 3600, "EDT")
           }
          } else {
           if i < 35 {
            Table::row(-1112551200, -18000, 0, "EST")
           } else {
            Table::row(-1094403600, -18000, 3600, "EDT")
           }
          }
         }
        } else {
         if i < 39 {
          if i < 37 {
           Table::row(-1081101600, -18000, 0, "EST")
          } else {
           if i < 38 {
            Table::row(-1062954000, -18000, 3600, "EDT")
           } else {
            Table::row(-1049652000, -18000, 0, "EST")
           }
          }
         } else {
          if i < 41 {
           if i < 40 {
            Table::row(-1031504400, -18000, 3600, "EDT")
           } else {
            Table::row(-1018202400, -18000, 0, "EST")
           }
          } else {
           if i < 42 {
            Table::row(-1000054800, -18000, 3600, "EDT")
           } else {
            Table::row(-986752800, -18000, 0, "EST")
           }
          }
         }
        }
       } else {
        if i < 50 {
         if i < 46 {
          if i < 44 {
           Table::row(-968000400, -18000, 3600, "EDT")
          } else {
           if i < 45 {
            Table::row(-955303200, -18000, 0, "EST")
           } else {
            Table::row(-936550800, -18000, 3600, "EDT")
           }
          }
         } else {
          if i < 48 {
           if i < 47 {
            Table::row(-880218000, -18000, 3600, "EWT")
           } else {
            Table::row(-769395600, -18000, 3600, "EPT")
           }
          } else {
           if i < 49 {
            Table::row(-765396000, -18000, 0, "EST")
           } else {
            Table::row(-747248400, -18000, 3600, "EDT")
           }
          }
         }
        } else {
         if i < 54 {
          if i < 52 {
           if i < 51 {
            Table::row(-733946400, -18000, 0, "EST")
           } else {
            Table::row(-715798800, -18000, 3600, "EDT")
           }
          } else {
           if i < 53 {
            Table::row(-702496800, -18000, 0, "EST")
           } else {
            Table::row(-684349200, -18000, 3600, "EDT")
           }
          }
         } else {
          if i < 56 {
           if i < 55 {
            Table::row(-671047200, -18000, 0, "EST")
           } else {
            Table::row(-652899600, -18000, 3600, "EDT")
           }
          } else {
           if i < 57 {
            Table::row(-634154400, -18000, 0, "EST")
           } else {
            Table::row(-620845200, -18000, 3600, "EDT")
           }
          }
         }
        }
       }
      }
     } else {
      if i < 87 {
       if i < 72 {
        if i < 65 {
         if i < 61 {
          if i < 59 {
           Table::row(-602704800, -18000, 0, "EST")
          } else {
           if i < 60 {
            Table::row(-589395600, -18000, 3600, "EDT")
           } else {
            Table::row(-576093600, -18000, 0, "EST")
           }
          }
         } else {
          if i < 63 {
           if i < 62 {
            Table::row(-557946000, -18000, 3600, "EDT")
           } else {
            Table::row(-544644000, -18000, 0, "EST")
           }
          } else {
           if i < 64 {
            Table::row(-526496400, -18000, 3600, "EDT")
           } else {
            Table::row(-513194400, -18000, 0, "EST")
           }
          }
         }
        } else {
         if i < 68 {
          if i < 66 {
           Table::row(-495046800, -18000, 3600, "EDT")
          } else {
           if i < 67 {
            Table::row(-481744800, -18000, 0, "EST")
           } else {
            Table::row(-463597200, -18000, 3600, "EDT")
           }
          }
         } else {
          if i < 70 {
           if i < 69 {
            Table::row(-450295200, -18000, 0, "EST")
           } else {
            Table::row(-431542800, -18000, 3600, "EDT")
           }
          } else {
           if i < 71 {
            Table::row(-418240800, -18000, 0, "EST")
           } else {
            Table::row(-400093200, -18000, 3600, "EDT")
           }
          }
         }
        }
       } else {
        if i < 79 {
         if i < 75 {
          if i < 73 {
           Table::row(-384372000, -18000, 0, "EST")
          } else {
           if i < 74 {
            Table::row(-368643600, -18000, 3600, "EDT")
           } else {
            Table::row(-352922400, -18000, 0, "EST")
           }
          }
         } else {
          if i < 77 {
           if i < 76 {
            Table::row(-337194000, -18000, 3600, "EDT")
           } else {
            Table::row(-321472800, -18000, 0, "EST")
           }
          } else {
           if i < 78 {
            Table::row(-305744400, -18000, 3600, "EDT")
           } else {
            Table::row(-289418400, -18000, 0, "EST")
           }
          }
         }
        } else {
         if i < 83 {
          if i < 81 {
           if i < 80 {
            Table::row(-273690000, -18000, 3600, "EDT")
           } else {
            Table::row(-257968800, -18000, 0, "EST")
           }
          } else {
           if i < 82 {
            Table::row(-242240400, -18000, 3600, "EDT")
           } else {
            Table::row(-226519200, -18000, 0, "EST")
           }
          }
         } else {
          if i < 85 {
           if i < 84 {
            Table::row(-210790800, -18000, 3600, "EDT")
           } else {
            Table::row(-195069600, -18000, 0, "EST")
           }
          } else {
           if i < 86 {
            Table::row(-179341200, -18000, 3600, "EDT")
           } else {
            Table::row(-163620000, -18000, 0, "EST")
           }
          }
         }
        }
       }
      } else {
       if i < 101 {
        if i < 94 {
         if i < 90 {
          if i < 88 {
           Table::row(-147891600, -18000, 3600, "EDT")
          } else {
           if i < 89 {
            Table::row(-131565600, -18000, 0, "EST")
           } else {
            Table::row(-116442000, -18000, 3600, "EDT")
           }
          }
         } else {
          if i < 92 {
           if i < 91 {
            Table::row(-100116000, -18000, 0, "EST")
           } else {
            Table::row(-84387600, -18000, 3600, "EDT")
           }
          } else {
           if i < 93 {
            Table::row(-68666400, -18000, 0, "EST")
           } else {
            Table::row(-52938000, -18000, 3600, "EDT")
           }
          }
         }
        } else {
         if i < 97 {
          if i < 95 {
           Table::row(-37216800, -18000, 0, "EST")
          } else {
           if i < 96 {
            Table::row(-21488400, -18000, 3600, "EDT")
           } else {
            Table::row(-5767200, -18000, 0, "EST")
           }
          }
         } else {
          if i < 99 {
           if i < 98 {
            Table::row(9961200, -18000, 3600, "EDT")
           } else {
            Table::row(25682400, -18000, 0, "EST")
           }
          } else {
           if i < 100 {
            Table::row(41410800, -18000, 3600, "EDT")
           } else {
            Table::row(57736800, -18000, 0, "EST")
           }
          }
         }
        }
       } else {
        if i < 108 {
         if i < 104 {
          if i < 102 {
           Table::row(73465200, -18000, 3600, "EDT")
          } else {
           if i < 103 {
            Table::row(89186400, -18000, 0, "EST")
           } else {
            Table::row(104914800, -18000, 3600, "EDT")
           }
          }
         } else {
          if i < 106 {
           if i < 105 {
            Table::row(120636000, -18000, 0, "EST")
           } else {
            Table::row(136364400, -18000, 3600, "EDT")
           }
          } else {
           if i < 107 {
            Table::row(152085600, -18000, 0, "EST")
           } else {
            Table::row(167814000, -18000, 3600, "EDT")
           }
          }
         }
        } else {
         if i < 112 {
          if i < 110 {
           if i < 109 {
            Table::row(183535200, -18000, 0, "EST")
           } else {
            Table::row(199263600, -18000, 3600, "EDT")
           }
          } else {
           if i < 111 {
            Table::row(215589600, -18000, 0, "EST")
           } else {
            Table::row(230713200, -18000, 3600, "EDT")
           }
          }
         } else {
          if i < 114 {
           if i < 113 {
            Table::row(247039200, -18000, 0, "EST")
           } else {
            Table::row(262767600, -18000, 3600, "EDT")
           }
          } else {
           if i < 115 {
            Table::row(278488800, -18000, 0, "EST")
           } else {
            Table::row(294217200, -18000, 3600, "EDT")
           }
          }
         }
        }
       }
      }
     }
    } else {
     if i < 174 {
      if i < 145 {
       if i < 130 {
        if i < 123 {
         if i < 119 {
          if i < 117 {
           Table::row(309938400, -18000, 0, "EST")
          } else {
           if i < 118 {
            Table::row(325666800, -18000, 3600, "EDT")
           } else {
            Table::row(341388000, -18000, 0, "EST")
           }
          }
         } else {
          if i < 121 {
           if i < 120 {
            Table::row(357116400, -18000, 3600, "EDT")
           } else {
            Table::row(372837600, -18000, 0, "EST")
           }
          } else {
           if i < 122 {
            Table::row(388566000, -18000, 3600, "EDT")
           } else {
            Table::row(404892000, -18000, 0, "EST")
           }
          }
         }
        } else {
         if i < 126 {
          if i < 124 {
           Table::row(420015600, -18000, 3600, "EDT")
          } else {
           if i < 125 {
            Table::row(436341600, -18000, 0, "EST")
           } else {
            Table::row(452070000, -18000, 3600, "EDT")
           }
          }
         } else {
          if i < 128 {
           if i < 127 {
            Table::row(467791200, -18000, 0, "EST")
           } else {
            Table::row(483519600, -18000, 3600, "EDT")
           }
          } else {
           if i < 129 {
            Table::row(499240800, -18000, 0, "EST")
           } else {
            Table::row(514969200, -18000, 3600, "EDT")
           }
          }
         }
        }
       } else {
        if i < 137 {
         if i < 133 {
          if i < 131 {
           Table::row(530690400, -18000, 0, "EST")
          } else {
           if i < 132 {
            Table::row(544604400, -18000, 3600, "EDT")
           } else {
            Table::row(562140000, -18000, 0, "EST")
           }
          }
         } else {
          if i < 135 {
           if i < 134 {
            Table::row(576054000, -18000, 3600, "EDT")
           } else {
            Table::row(594194400, -18000, 0, "EST")
           }
          } else {
           if i < 136 {
            Table::row(607503600, -18000, 3600, "EDT")
           } else {
            Table::row(625644000, -18000, 0, "EST")
           }
          }
         }
        } else {
         if i < 141 {
          if i < 139 {
           if i < 138 {
            Table::row(638953200, -18000, 3600, "EDT")
           } else {
            Table::row(657093600, -18000, 0, "EST")
           }
          } else {
           if i < 140 {
            Table::row(671007600, -18000, 3600, "EDT")
           } else {
            Table::row(688543200, -18000, 0, "EST")
           }
          }
         } else {
          if i < 143 {
           if i < 142 {
            Table::row(702457200, -18000, 3600, "EDT")
           } else {
            Table::row(719992800, -18000, 0, "EST")
           }
          } else {
           if i < 144 {
            Table::row(733906800, -18000, 3600, "EDT")
           } else {
            Table::row(752047200, -18000, 0, "EST")
           }
          }
         }
        }
       }
      } else {
       if i < 159 {
        if i < 152 {
         if i < 148 {
          if i < 146 {
           Table::row(765356400, -18000, 3600, "EDT")
          } else {
           if i < 147 {
            Table::row(783496800, -18000, 0, "EST")
           } else {
            Table::row(796806000, -18000, 3600, "EDT")
           }
          }
         } else {
          if i < 150 {
           if i < 149 {
            Table::row(814946400, -18000, 0, "EST")
           } else {
            Table::row(828860400, -18000, 3600, "EDT")
           }
          } else {
           if i < 151 {
            Table::row(846396000, -18000, 0, "EST")
           } else {
            Table::row(860310000, -18000, 3600, "EDT")
           }
          }
         }
        } else {
         if i < 155 {
          if i < 153 {
           Table::row(877845600, -18000, 0, "EST")
          } else {
           if i < 154 {
            Table::row(891759600, -18000, 3600, "EDT")
           } else {
            Table::row(909295200, -18000, 0, "EST")
           }
          }
         } else {
          if i < 157 {
           if i < 156 {
            Table::row(923209200, -18000, 3600, "EDT")
           } else {
            Table::row(941349600, -18000, 0, "EST")
           }
          } else {
           if i < 158 {
            Table::row(954658800, -18000, 3600, "EDT")
           } else {
            Table::row(972799200, -18000, 0, "EST")
           }
          }
         }
        }
       } else {
        if i < 166 {
         if i < 162 {
          if i < 160 {
           Table::row(986108400, -18000, 3600, "EDT")
          } else {
           if i < 161 {
            Table::row(1004248800, -18000, 0, "EST")
           } else {
            Table::row(1018162800, -18000, 3600, "EDT")
           }
          }
         } else {
          if i < 164 {
           if i < 163 {
            Table::row(1035698400, -18000, 0, "EST")
           } else {
            Table::row(1049612400, -18000, 3600, "EDT")
           }
          } else {
           if i < 165 {
            Table::row(1067148000, -18000, 0, "EST")
           } else {
            Table::row(1081062000, -18000, 3600, "EDT")
           }
          }
         }
        } else {
         if i < 170 {
          if i < 168 {
           if i < 167 {
            Table::row(1099202400, -18000, 0, "EST")
           } else {
            Table::row(1112511600, -18000, 3600, "EDT")
           }
          } else {
           if i < 169 {
            Table::row(1130652000, -18000, 0, "EST")
           } else {
            Table::row(1143961200, -18000, 3600, "EDT")
           }
          }
         } else {
          if i < 172 {
           if i < 171 {
            Table::row(1162101600, -18000, 0, "EST")
           } else {
            Table::row(1173596400, -18000, 3600, "EDT")
           }
          } else {
           if i < 173 {
            Table::row(1194156000, -18000, 0, "EST")
           } else {
            Table::row(1205046000, -18000, 3600, "EDT")
           }
          }
         }
        }
       }
      }
     } else {
      if i < 203 {
       if i < 188 {
        if i < 181 {
         if i < 177 {
          if i < 175 {
           Table::row(1225605600, -18000, 0, "EST")
          } else {
           if i < 176 {
            Table::row(1236495600, -18000, 3600, "EDT")
           } else {
            Table::row(1257055200, -18000, 0, "EST")
           }
          }
         } else {
          if i < 179 {
           if i < 178 {
            Table::row(1268550000, -18000, 3600, "EDT")
           } else {
            Table::row(1289109600, -18000, 0, "EST")
           }
          } else {
           if i < 180 {
            Table::row(1299999600, -18000, 3600, "EDT")
           } else {
            Table::row(1320559200, -18000, 0, "EST")
           }
          }
         }
        } else {
         if i < 184 {
          if i < 182 {
           Table::row(1331449200, -18000, 3600, "EDT")
          } else {
           if i < 183 {
            Table::row(1352008800, -18000, 0, "EST")
           } else {
            Table::row(1362898800, -18000, 3600, "EDT")
           }
          }
         } else {
          if i < 186 {
           if i < 185 {
            Table::row(1383458400, -18000, 0, "EST")
           } else {
            Table::row(1394348400, -18000, 3600, "EDT")
           }
          } else {
           if i < 187 {
            Table::row(1414908000, -18000, 0, "EST")
           } else {
            Table::row(1425798000, -18000, 3600, "EDT")
           }
          }
         }
        }
       } else {
        if i < 195 {
         if i < 191 {
          if i < 189 {
           Table::row(1446357600, -18000, 0, "EST")
          } else {
           if i < 190 {
            Table::row(1457852400, -18000, 3600, "EDT")
           } else {
            Table::row(1478412000, -18000, 0, "EST")
           }
          }
         } else {
          if i < 193 {
           if i < 192 {
            Table::row(1489302000, -18000, 3600, "EDT")
           } else {
            Table::row(1509861600, -18000, 0, "EST")
           }
          } else {
           if i < 194 {
            Table::row(1520751600, -18000, 3600, "EDT")
           } else {
            Table::row(1541311200, -18000, 0, "EST")
           }
          }
         }
        } else {
         if i < 199 {
          if i < 197 {
           if i < 196 {
            Table::row(1552201200, -18000, 3600, "EDT")
           } else {
            Table::row(1572760800, -18000, 0, "EST")
           }
          } else {
           if i < 198 {
            Table::row(1583650800, -18000, 3600, "EDT")
           } else {
            Table::row(1604210400, -18000, 0, "EST")
           }
          }
         } else {
          if i < 201 {
           if i < 200 {
            Table::row(1615705200, -18000, 3600, "EDT")
           } else {
            Table::row(1636264800, -18000, 0, "EST")
           }
          } else {
           if i < 202 {
            Table::row(1647154800, -18000, 3600, "EDT")
           } else {
            Table::row(1667714400, -18000, 0, "EST")
           }
          }
         }
        }
       }
      } else {
       if i < 218 {
        if i < 210 {
         if i < 206 {
          if i < 204 {
           Table::row(1678604400, -18000, 3600, "EDT")
          } else {
           if i < 205 {
            Table::row(1699164000, -18000, 0, "EST")
           } else {
            Table::row(1710054000, -18000, 3600, "EDT")
           }
          }
         } else {
          if i < 208 {
           if i < 207 {
            Table::row(1730613600, -18000, 0, "EST")
           } else {
            Table::row(1741503600, -18000, 3600, "EDT")
           }
          } else {
           if i < 209 {
            Table::row(1762063200, -18000, 0, "EST")
           } else {
            Table::row(1772953200, -18000, 3600, "EDT")
           }
          }
         }
        } else {
         if i < 214 {
          if i < 212 {
           if i < 211 {
            Table::row(1793512800, -18000, 0, "EST")
           } else {
            Table::row(1805007600, -18000, 3600, "EDT")
           }
          } else {
           if i < 213 {
            Table::row(1825567200, -18000, 0, "EST")
           } else {
            Table::row(1836457200, -18000, 3600, "EDT")
           }
          }
         } else {
          if i < 216 {
           if i < 215 {
            Table::row(1857016800, -18000, 0, "EST")
           } else {
            Table::row(1867906800, -18000, 3600, "EDT")
           }
          } else {
           if i < 217 {
            Table::row(1888466400, -18000, 0, "EST")
           } else {
            Table::row(1899356400, -18000, 3600, "EDT")
           }
          }
         }
        }
       } else {
        if i < 225 {
         if i < 221 {
          if i < 219 {
           Table::row(1919916000, -18000, 0, "EST")
          } else {
           if i < 220 {
            Table::row(1930806000, -18000, 3600, "EDT")
           } else {
            Table::row(1951365600, -18000, 0, "EST")
           }
          }
         } else {
          if i < 223 {
           if i < 222 {
            Table::row(1962860400, -18000, 3600, "EDT")
           } else {
            Table::row(1983420000, -18000, 0, "EST")
           }
          } else {
           if i < 224 {
            Table::row(1994310000, -18000, 3600, "EDT")
           } else {
            Table::row(2014869600, -18000, 0, "EST")
           }
          }
         }
        } else {
         if i < 229 {
          if i < 227 {
           if i < 226 {
            Table::row(2025759600, -18000, 3600, "EDT")
           } else {
            Table::row(2046319200, -18000, 0, "EST")
           }
          } else {
           if i < 228 {
            Table::row(2057209200, -18000, 3600, "EDT")
           } else {
            Table::row(2077768800, -18000, 0, "EST")
           }
          }
         } else {
          if i < 231 {
           if i < 230 {
            Table::row(2088658800, -18000, 3600, "EDT")
           } else {
            Table::row(2109218400, -18000, 0, "EST")
           }
          } else {
           if i < 232 {
            Table::row(2120108400, -18000, 3600, "EDT")
           } else {
            Table::row(2140668000, -18000, 0, "EST")
           }
          }
         }
        }
       }
      }
     }
    }
}

/// The rows of the table of the zone `America/Montreal`.
pub open spec fn montreal_rows() -> spec_fn(int) -> (i64, FixedTimespan) {
    |i: int| montreal_row(i)
}

/// The table of the zone `America/Montreal`.
pub open spec fn montreal() -> Table {
    Table::listed(Table::row(0, -19052, 0, "LMT").1, 233, montreal_rows())
}

/// Row `i` of the table of the zone `America/Montserrat`.
pub open spec fn montserrat_row(i: int) -> (i64, FixedTimespan) {
    Table::row(-1846266608, -14400, 0, "AST")
}

/// The rows of the table of the zone `America/Montserrat`.
pub open spec fn montserrat_rows() -> spec_fn(int) -> (i64, FixedTimespan) {
    |i: int| montserrat_row(i)
}

/// The table of the zone `America/Montserrat`.
pub open spec fn montserrat() -> Table {
    Table::listed(Table::row(0, -14932, 0, "LMT").1, 1, montserrat_rows())
}

/// Row `i` of the table of the zone `America/Nassau`.
pub open spec fn nassau_row(i: int) -> (i64, FixedTimespan) {
    if i < 77 {
     if i < 38 {
      if i < 19 {
       if i < 9 {
        if i < 4 {
         if i < 2 {
          if i < 1 {
           Table::row(-1825095030, -18000, 0, "EST")
          } else {
           Table::row(-873140400, -18000, 3600, "EWT")
          }
         } else {
          if i < 3 {
           Table::row(-788904000, -18000, 0, "EST")
          } else {
           Table::row(-786222000, -18000, 3600, "EWT")
          }
         }
        } else {
         if i < 6 {
          if i < 5 {
           Table::row(-769395600, -18000, 3600, "EPT")
          } else {
           Table::row(-763848000, -18000, 0, "EST")
          }
         } else {
          if i < 7 {
           Table::row(-179341200, -18000, 3600, "EDT")
          } else {
           if i < 8 {
            Table::row(-163620000, -18000, 0, "EST")
           } else {
            Table::row(-147891600, -18000, 3600, "EDT")
           }
          }
         }
        }
       } else {
        if i < 14 {
         if i < 11 {
          if i < 10 {
           Table::row(-131565600, -18000, 0, "EST")
          } else {
           Table::row(-116442000, -18000, 3600, "EDT")
          }
         } else {
          if i < 12 {
           Table::row(-100116000, -18000, 0, "EST")
          } else {
           if i < 13 {
            Table::row(-84387600, -18000, 3600, "EDT")
           } else {
            Table::row(-68666400, -18000, 0, "EST")
           }
          }
         }
        } else {
         if i < 16 {
          if i < 15 {
           Table::row(-52938000, -18000, 3600, "EDT")
          } else {
           Table::row(-37216800, -18000, 0, "EST")
          }
         } else {
          if i < 17 {
           Table::row(-21488400, -18000, 3600, "EDT")
          } else {
           if i < 18 {
            Table::row(-5767200, -18000, 0, "EST")
           } else {
            Table::row(9961200, -18000, 3600, "EDT")
           }
          }
         }
        }
       }
      } else {
       if i < 28 {
        if i < 23 {
         if i < 21 {
          if i < 20 {
           Table::row(25682400, -18000, 0, "EST")
          } else {
           Table::row(41410800, -18000, 3600, "EDT")
          }
         } else {
          if i < 22 {
           Table::row(57736800, -18000, 0, "EST")
          } else {
           Table::row(73465200, -18000, 3600, "EDT")
          }
         }
        } else {
         if i < 25 {
          if i < 24 {
           Table::row(89186400, -18000, 0, "EST")
          } else {
           Table::row(104914800, -18000, 3600, "EDT")
          }
         } else {
          if i < 26 {
           Table::row(120636000, -18000, 0, "EST")
          } else {
           if i < 27 {
            Table::row(136364400, -18000, 3600, "EDT")
           } else {
            Table::row(152085600, -18000, 0, "EST")
           }
          }
         }
        }
       } else {
        if i < 33 {
         if i < 30 {
          if i < 29 {
           Table::row(167814000, -18000, 3600, "EDT")
          } else {
           Table::row(183535200, -18000, 0, "EST")
          }
         } else {
          if i < 31 {
           Table::row(199263600, -18000, 3600, "EDT")
          } else {
           if i < 32 {
            Table::row(215589600, -18000, 0, "EST")
           } else {
            Table::row(230713200, -18000, 3600, "EDT")
           }
          }
         }
        } else {
         if i < 35 {
          if i < 34 {
           Table::row(247039200, -18000, 0, "EST")
          } else {
           Table::row(262767600, -18000, 3600, "EDT")
          }
         } else {
          if i < 36 {
           Table::row(278488800, -18000, 0, "EST")
          } else {
           if i < 37 {
            Table::row(294217200, -18000, 3600, "EDT")
           } else {
            Table::row(309938400, -18000, 0, "EST")
           }
          }
         }
        }
       }
      }
     } else {
      if i < 57 {
       if i < 47 {
        if i < 42 {
         if i < 40 {
          if i < 39 {
           Table::row(325666800, -18000, 3600, "EDT")
          } else {
           Table::row(341388000, -18000, 0, "EST")
          }
         } else {
          if i < 41 {
           Table::row(357116400, -18000, 3600, "EDT")
          } else {
           Table::row(372837600, -18000, 0, "EST")
          }
         }
        } else {
         if i < 44 {
          if i < 43 {
           Table::row(388566000, -18000, 3600, "EDT")
          } else {
           Table::row(404892000, -18000, 0, "EST")
          }
         } else {
          if i < 45 {
           Table::row(420015600, -18000, 3600, "EDT")
          } else {
           if i < 46 {
            Table::row(436341600, -18000, 0, "EST")
           } else {
            Table::row(452070000, -18000, 3600, "EDT")
           }
          }
         }
        }
       } else {
        if i < 52 {
         if i < 49 {
          if i < 48 {
           Table::row(467791200, -18000, 0, "EST")
          } else {
           Table::row(483519600, -18000, 3600, "EDT")
          }
         } else {
          if i < 50 {
           Table::row(499240800, -18000, 0, "EST")
          } else {
           if i < 51 {
            Table::row(514969200, -18000, 3600, "EDT")
           } else {
            Table::row(530690400, -18000, 0, "EST")
           }
          }
         }
        } else {
         if i < 54 {
          if i < 53 {
           Table::row(544604400, -18000, 3600, "EDT")
          } else {
           Table::row(562140000, -18000, 0, "EST")
          }
         } else {
          if i < 55 {
           Table::row(576054000, -18000, 3600, "EDT")
          } else {
           if i < 56 {
            Table::row(594194400, -18000, 0, "EST")
           } else {
            Table::row(607503600, -18000, 3600, "EDT")
           }
          }
         }
        }
       }
      } else {
       if i < 67 {
        if i < 62 {
         if i < 59 {
          if i < 58 {
           Table::row(625644000, -18000, 0, "EST")
          } else {
           Table::row(638953200, -18000, 3600, "EDT")
          }
         } else {
          if i < 60 {
           Table::row(657093600, -18000, 0, "EST")
          } else {
           if i < 61 {
            Table::row(671007600, -18000, 3600, "EDT")
           } else {
            Table::row(688543200, -18000, 0, "EST")
           }
          }
         }
        } else {
         if i < 64 {
          if i < 63 {
           Table::row(702457200, -18000, 3600, "EDT")
          } else {
           Table::row(719992800, -18000, 0, "EST")
          }
         } else {
          if i < 65 {
           Table::row(733906800, -18000, 3600, "EDT")
          } else {
           if i < 66 {
            Table::row(752047200, -18000, 0, "EST")
           } else {
            Table::row(765356400, -18000, 3600, "EDT")
           }
          }
         }
        }
       } else {
        if i < 72 {
         if i < 69 {
          if i < 68 {
           Table::row(783496800, -18000, 0, "EST")
          } else {
           Table::row(796806000, -18000, 3600, "EDT")
          }
         } else {
          if i < 70 {
           Table::row(814946400, -18000, 0, "EST")
          } else {
           if i < 71 {
            Table::row(828860400, -18000, 3600, "EDT")
           } else {
            Table::row(846396000, -18000, 0, "EST")
           }
          }
         }
        } else {
         if i < 74 {
          if i < 73 {
           Table::row(860310000, -18000, 3600, "EDT")
          } else {
           Table::row(877845600, -18000, 0, "EST")
          }
         } else {
          if i < 75 {
           Table::row(891759600, -18000, 3600, "EDT")
          } else {
           if i < 76 {
            Table::row(909295200, -18000, 0, "EST")
           } else {
            Table::row(923209200, -18000, 3600, "EDT")
           }
          }
         }
        }
       }
      }
     }
    } else {
     if i < 115 {
      if i < 96 {
       if i < 86 {
        if i < 81 {
         if i < 79 {
          if i < 78 {
           Table::row(941349600, -18000, 0, "EST")
          } else {
           Table::row(954658800, -18000, 3600, "EDT")
          }
         } else {
          if i < 80 {
           Table::row(972799200, -18000, 0, "EST")
          } else {
           Table::row(986108400, -18000, 3600, "EDT")
          }
         }
        } else {
         if i < 83 {
          if i < 82 {
           Table::row(1004248800, -18000, 0, "EST")
          } else {
           Table::row(1018162800, -18000, 3600, "EDT")
          }
         } else {
          if i < 84 {
           Table::row(1035698400, -18000, 0, "EST")
          } else {
           if i < 85 {
            Table::row(1049612400, -18000, 3600, "EDT")
           } else {
            Table::row(1067148000, -18000, 0, "EST")
           }
          }
         }
        }
       } else {
        if i < 91 {
         if i < 88 {
          if i < 87 {
           Table::row(1081062000, -18000, 3600, "EDT")
          } else {
           Table::row(1099202400, -18000, 0, "EST")
          }
         } else {
          if i < 89 {
           Table::row(1112511600, -18000, 3600, "EDT")
          } else {
           if i < 90 {
            Table::row(1130652000, -18000, 0, "EST")
           } else {
            Table::row(1143961200, -18000, 3600, "EDT")
           }
          }
         }
        } else {
         if i < 93 {
          if i < 92 {
           Table::row(1162101600, -18000, 0, "EST")
          } else {
           Table::row(1173596400, -18000, 3600, "EDT")
          }
         } else {
          if i < 94 {
           Table::row(1194156000, -18000, 0, "EST")
          } else {
           if i < 95 {
            Table::row(1205046000, -18000, 3600, "EDT")
           } else {
            Table::row(1225605600, -18000, 0, "EST")
           }
          }
         }
        }
       }
      } else {
       if i < 105 {
        if i < 100 {
         if i < 98 {
          if i < 97 {
           Table::row(1236495600, -18000, 3600, "EDT")
          } else {
           Table::row(1257055200, -18000, 0, "EST")
          }
         } else {
          if i < 99 {
           Table::row(1268550000, -18000, 3600, "EDT")
          } else {
           Table::row(1289109600, -18000, 0, "EST")
          }
         }
        } else {
         if i < 102 {
          if i < 101 {
           Table::row(1299999600, -18000, 3600, "EDT")
          } else {
           Table::row(1320559200, -18000, 0, "EST")
          }
         } else {
          if i < 103 {
           Table::row(1331449200, -18000, 3600, "EDT")
          } else {
           if i < 104 {
            Table::row(1352008800, -18000, 0, "EST")
           } else {
            Table::row(1362898800, -18000, 3600, "EDT")
           }
          }
         }
        }
       } else {
        if i < 110 {
         if i < 107 {
          if i < 106 {
           Table::row(1383458400, -18000, 0, "EST")
          } else {
           Table::row(1394348400, -18000, 3600, "EDT")
          }
         } else {
          if i < 108 {
           Table::row(1414908000, -18000, 0, "EST")
          } else {
           if i < 109 {
            Table::row(1425798000, -18000, 3600, "EDT")
           } else {
            Table::row(1446357600, -18000, 0, "EST")
           }
          }
         }
        } else {
         if i < 112 {
          if i < 111 {
           Table::row(1457852400, -18000, 3600, "EDT")
          } else {
           Table::row(1478412000, -18000, 0, "EST")
          }
         } else {
          if i < 113 {
           Table::row(1489302000, -18000, 3600, "EDT")
          } else {
           if i < 114 {
            Table::row(1509861600, -18000, 0, "EST")
           } else {
            Table::row(1520751600, -18000, 3600, "EDT")
           }
          }
         }
        }
       }
      }
     } else {
      if i < 134 {
       if i < 124 {
        if i < 119 {
         if i < 117 {
          if i < 116 {
           Table::row(1541311200, -18000, 0, "EST")
          } else {
           Table::row(1552201200, -18000, 3600, "EDT")
          }
         } else {
          if i < 118 {
           Table::row(1572760800, -18000, 0, "EST")
          } else {
           Table::row(1583650800, -18000, 3600, "EDT")
          }
         }
        } else {
         if i < 121 {
          if i < 120 {
           Table::row(1604210400, -18000, 0, "EST")
          } else {
           Table::row(1615705200, -18000, 3600, "EDT")
          }
         } else {
          if i < 122 {
           Table::row(1636264800, -18000, 0, "EST")
          } else {
           if i < 123 {
            Table::row(1647154800, -18000, 3600, "EDT")
           } else {
            Table::row(1667714400, -18000, 0, "EST")
           }
          }
         }
        }
       } else {
        if i < 129 {
         if i < 126 {
          if i < 125 {
           Table::row(1678604400, -18000, 3600, "EDT")
          } else {
           Table::row(1699164000, -18000, 0, "EST")
          }
         } else {
          if i < 127 {
           Table::row(1710054000, -18000, 3600, "EDT")
          } else {
           if i < 128 {
            Table::row(1730613600, -18000, 0, "EST")
           } else {
            Table::row(1741503600, -18000, 3600, "EDT")
           }
          }
         }
        } else {
         if i < 131 {
          if i < 130 {
           Table::row(1762063200, -18000, 0, "EST")
          } else {
           Table::row(1772953200, -18000, 3600, "EDT")
          }
         } else {
          if i < 132 {
           Table::row(1793512800, -18000, 0, "EST")
          } else {
           if i < 133 {
            Table::row(1805007600, -18000, 3600, "EDT")
           } else {
            Table::row(1825567200, -18000, 0, "EST")
           }
          }
         }
        }
       }
      } else {
       if i < 144 {
        if i < 139 {
         if i < 136 {
          if i < 135 {
           Table::row(1836457200, -18000, 3600, "EDT")
          } else {
           Table::row(1857016800, -18000, 0, "EST")
          }
         } else {
          if i < 137 {
           Table::row(1867906800, -18000, 3600, "EDT")
          } else {
           if i < 138 {
            Table::row(1888466400, -18000, 0, "EST")
           } else {
            Table::row(1899356400, -18000, 3600, "EDT")
           }
          }
         }
        } else {
         if i < 141 {
          if i < 140 {
           Table::row(1919916000, -18000, 0, "EST")
          } else {
           Table::row(1930806000, -18000, 3600, "EDT")
          }
         } else {
          if i < 142 {
           Table::row(1951365600, -18000, 0, "EST")
          } else {
           if i < 143 {
            Table::row(1962860400, -18000, 3600, "EDT")
           } else {
            Table::row(1983420000, -18000, 0, "EST")
           }
          }
         }
        }
       } else {
        if i < 149 {
         if i < 146 {
          if i < 145 {
           Table::row(1994310000, -18000, 3600, "EDT")
          } else {
           Table::row(2014869600, -18000, 0, "EST")
          }
         } else {
          if i < 147 {
           Table::row(2025759600, -18000, 3600, "EDT")
          } else {
           if i < 148 {
            Table::row(2046319200, -18000, 0, "EST")
           } else {
            Table::row(2057209200, -18000, 3600, "EDT")
           }
          }
         }
        } else {
         if i < 151 {
          if i < 150 {
           Table::row(2077768800, -18000, 0, "EST")
          } else {
           Table::row(2088658800, -18000, 3600, "EDT")
          }
         } else {
          if i < 152 {
           Table::row(2109218400, -18000, 0, "EST")
          } else {
           if i < 153 {
            Table::row(2120108400, -18000, 3600, "EDT")
           } else {
            Table::row(2140668000, -18000, 0, "EST")
           }
          }
         }
        }
       }
      }
     }
    }
}

/// The rows of the table of the zone `America/Nassau`.
pub open spec fn nassau_rows() -> spec_fn(int) -> (i64, FixedTimespan) {
    |i: int| nassau_row(i)
}

/// The table of the zone `America/Nassau`.
pub open spec fn nassau() -> Table {
    Table::listed(Table::row(0, -18570, 0, "LMT").1, 154, nassau_rows())
}

/// Row `i` of the table of the zone `America/New_York`.
pub open spec fn new_york_row(i: int) -> (i64, FixedTimespan) {
    if i < 118 {
     if i < 59 {
      if i < 29 {
       if i < 14 {
        if i < 7 {
         if i < 3 {
          if i < 1 {
           Table::row(-2717650800, -18000, 0, "EST")
          } else {
           if i < 2 {
            Table::row(-1633280400, -18000, 3600, "EDT")
           } else {
            Table::row(-1615140000, -18000, 0, "EST")
           }
          }
         } else {
          if i < 5 {
           if i < 4 {
            Table::row(-1601830800, -18000, 3600, "EDT")
           } else {
            Table::row(-1583690400, -18000, 0, "EST")
           }
          } else {
           if i < 6 {
            Table::row(-1570381200, -18000, 3600, "EDT")
           } else {
            Table::row(-1551636000, -18000, 0, "EST")
           }
          }
         }
        } else {
         if i < 10 {
          if i < 8 {
           Table::row(-1536512400, -18000, 3600, "EDT")
          } else {
           if i < 9 {
            Table::row(-1523210400, -18000, 0, "EST")
           } else {
            Table::row(-1504458000, -18000, 3600, "EDT")
           }
          }
         } else {
          if i < 12 {
           if i < 11 {
            Table::row(-1491760800, -18000, 0, "EST")
           } else {
            Table::row(-1473008400, -18000, 3600, "EDT")
           }
          } else {
           if i < 13 {
            Table::row(-1459706400, -18000, 0, "EST")
           } else {
            Table::row(-1441558800, -18000, 3600, "EDT")
           }
          }
         }
        }
       } else {
        if i < 21 {
         if i < 17 {
          if i < 15 {
           Table::row(-1428256800, -18000, 0, "EST")
          } else {
           if i < 16 {
            Table::row(-1410109200, -18000, 3600, "EDT")
           } else {
            Table::row(-1396807200, -18000, 0, "EST")
           }
          }
         } else {
          if i < 19 {
           if i < 18 {
            Table::row(-1378659600, -18000, 3600, "EDT")
           } else {
            Table::row(-1365357600, -18000, 0, "EST")
           }
          } else {
           if i < 20 {
            Table::row(-1347210000, -18000, 3600, "EDT")
           } else {
            Table::row(-1333908000, -18000, 0, "EST")
           }
          }
         }
        } else {
         if i < 25 {
          if i < 23 {
           if i < 22 {
            Table::row(-1315155600, -18000, 3600, "EDT")
           } else {
            Table::row(-1301853600, -18000, 0, "EST")
           }
          } else {
           if i < 24 {
            Table::row(-1283706000, -18000, 3600, "EDT")
           } else {
            Table::row(-1270404000, -18000, 0, "EST")
           }
          }
         } else {
          if i < 27 {
           if i < 26 {
            Table::row(-1252256400, -18000, 3600, "EDT")
           } else {
            Table::row(-1238954400, -18000, 0, "EST")
           }
          } else {
           if i < 28 {
            Table::row(-1220806800, -18000, 3600, "EDT")
           } else {
            Table::row(-1207504800, -18000, 0, "EST")
           }
          }
         }
        }
       }
      } else {
       if i < 44 {
        if i < 36 {
         if i < 32 {
          if i < 30 {
           Table::row(-1189357200, -18000, 3600, "EDT")
          } else {
           if i < 31 {
            Table::row(-1176055200, -18000, 0, "EST")
           } else {
            Table::row(-1157302800, -18000, 3600, "EDT")
           }
          }
         } else {
          if i < 34 {
           if i < 33 {
            Table::row(-1144605600, -18000, 0, "EST")
           } else {
            Table::row(-1125853200, -18000, 3600, "EDT")
           }
          } else {
           if i < 35 {
            Table::row(-1112551200, -18000, 0, "EST")
           } else {
            Table::row(-1094403600, -18000, 3600, "EDT")
           }
          }
         }
        } else {
         if i < 40 {
          if i < 38 {
           if i < 37 {
            Table::row(-1081101600, -18000, 0, "EST")
           } else {
            Table::row(-1062954000, -18000, 3600, "EDT")
           }
          } else {
           if i < 39 {
            Table::row(-1049652000, -18000, 0, "EST")
           } else {
            Table::row(-1031504400, -18000, 3600, "EDT")
           }
          }
         } else {
          if i < 42 {
           if i < 41 {
            Table::row(-1018202400, -18000, 0, "EST")
           } else {
            Table::row(-1000054800, -18000, 3600, "EDT")
           }
          } else {
           if i < 43 {
            Table::row(-986752800, -18000, 0, "EST")
           } else {
            Table::row(-968000400, -18000, 3600, "EDT")
           }
          }
         }
        }
       } else {
        if i < 51 {
         if i < 47 {
          if i < 45 {
           Table::row(-955303200, -18000, 0, "EST")
          } else {
           if i < 46 {
            Table::row(-936550800, -18000, 3600, "EDT")
           } else {
            Table::row(-923248800, -18000, 0, "EST")
           }
          }
         } else {
          if i < 49 {
           if i < 48 {
            Table::row(-905101200, -18000, 3600, "EDT")
           } else {
            Table::row(-891799200, -18000, 0, "EST")
           }
          } else {
           if i < 50 {
            Table::row(-880218000, -18000, 3600, "EWT")
           } else {
            Table::row(-769395600, -18000, 3600, "EPT")
           }
          }
         }
        } else {
         if i < 55 {
          if i < 53 {
           if i < 52 {
            Table::row(-765396000, -18000, 0, "EST")
           } else {
            Table::row(-747248400, -18000, 3600, "EDT")
           }
          } else {
           if i < 54 {
            Table::row(-733946400, -18000, 0, "EST")
           } else {
            Table::row(-715798800, -18000, 3600, "EDT")
           }
          }
         } else {
          if i < 57 {
           if i < 56 {
            Table::row(-702496800, -18000, 0, "EST")
           } else {
            Table::row(-684349200, -18000, 3600, "EDT")
           }
          } else {
           if i < 58 {
            Table::row(-671047200, -18000, 0, "EST")
           } else {
            Table::row(-652899600, -18000, 3600, "EDT")
           }
          }
         }
        }
       }
      }
     } else {
      if i < 88 {
       if i < 73 {
        if i < 66 {
         if i < 62 {
          if i < 60 {
           Table::row(-639597600, -18000, 0, "EST")
          } else {
           if i < 61 {
            Table::row(-620845200, -18000, 3600, "EDT")
           } else {
            Table::row(-608148000, -18000, 0, "EST")
           }
          }
         } else {
          if i < 64 {
           if i < 63 {
            Table::row(-589395600, -18000, 3600, "EDT")
           } else {
            Table::row(-576093600, -18000, 0, "EST")
           }
          } else {
           if i < 65 {
            Table::row(-557946000, -18000, 3600, "EDT")
           } else {
            Table::row(-544644000, -18000, 0, "EST")
           }
          }
         }
        } else {
         if i < 69 {
          if i < 67 {
           Table::row(-526496400, -18000, 3600, "EDT")
          } else {
           if i < 68 {
            Table::row(-513194400, -18000, 0, "EST")
           } else {
            Table::row(-495046800, -18000, 3600, "EDT")
           }
          }
         } else {
          if i < 71 {
           if i < 70 {
            Table::row(-481744800, -18000, 0, "EST")
           } else {
            Table::row(-463597200, -18000, 3600, "EDT")
           }
          } else {
           if i < 72 {
            Table::row(-447271200, -18000, 0, "EST")
           } else {
            Table::row(-431542800, -18000, 3600, "EDT")
           }
          }
         }
        }
       } else {
        if i < 80 {
         if i < 76 {
          if i < 74 {
           Table::row(-415821600, -18000, 0, "EST")
          } else {
           if i < 75 {
            Table::row(-400093200, -18000, 3600, "EDT")
           } else {
            Table::row(-384372000, -18000, 0, "EST")
           }
          }
         } else {
          if i < 78 {
           if i < 77 {
            Table::row(-368643600, -18000, 3600, "EDT")
           } else {
            Table::row(-352922400, -18000, 0, "EST")
           }
          } else {
           if i < 79 {
            Table::row(-337194000, -18000, 3600, "EDT")
           } else {
            Table::row(-321472800, -18000, 0, "EST")
           }
          }
         }
        } else {
         if i < 84 {
          if i < 82 {
           if i < 81 {
            Table::row(-305744400, -18000, 3600, "EDT")
           } else {
            Table::row(-289418400, -18000, 0, "EST")
           }
          } else {
           if i < 83 {
            Table::row(-273690000, -18000, 3600, "EDT")
           } else {
            Table::row(-257968800, -18000, 0, "EST")
           }
          }
         } else {
          if i < 86 {
           if i < 85 {
            Table::row(-242240400, -18000, 3600, "EDT")
           } else {
            Table::row(-226519200, -18000, 0, "EST")
           }
          } else {
           if i < 87 {
            Table::row(-210790800, -18000, 3600, "EDT")
           } else {
            Table::row(-195069600, -18000, 0, "EST")
           }
          }
         }
        }
       }
      } else {
       if i < 103 {
        if i < 95 {
         if i < 91 {
          if i < 89 {
           Table::row(-179341200, -18000, 3600, "EDT")
          } else {
           if i < 90 {
            Table::row(-163620000, -18000, 0, "EST")
           } else {
            Table::row(-147891600, -18000, 3600, "EDT")
           }
          }
         } else {
          if i < 93 {
           if i < 92 {
            Table::row(-131565600, -18000, 0, "EST")
           } else {
            Table::row(-116442000, -18000, 3600, "EDT")
           }
          } else {
           if i < 94 {
            Table::row(-100116000, -18000, 0, "EST")
           } else {
            Table::row(-84387600, -18000, 3600, "EDT")
           }
          }
         }
        } else {
         if i < 99 {
          if i < 97 {
           if i < 96 {
            Table::row(-68666400, -18000, 0, "EST")
           } else {
            Table::row(-52938000, -18000, 3600, "EDT")
           }
          } else {
           if i < 98 {
            Table::row(-37216800, -18000, 0, "EST")
           } else {
            Table::row(-21488400, -18000, 3600, "EDT")
           }
          }
         } else {
          if i < 101 {
           if i < 100 {
            Table::row(-5767200, -18000, 0, "EST")
           } else {
            Table::row(9961200, -18000, 3600, "EDT")
           }
          } else {
           if i < 102 {
            Table::row(25682400, -18000, 0, "EST")
           } else {
            Table::row(41410800, -18000, 3600, "EDT")
           }
          }
         }
        }
       } else {
        if i < 110 {
         if i < 106 {
          if i < 104 {
           Table::row(57736800, -18000, 0, "EST")
          } else {
           if i < 105 {
            Table::row(73465200, -18000, 3600, "EDT")
           } else {
            Table::row(89186400, -18000, 0, "EST")
           }
          }
         } else {
          if i < 108 {
           if i < 107 {
            Table::row(104914800, -18000, 3600, "EDT")
           } else {
            Table::row(120636000, -18000, 0, "EST")
           }
          } else {
           if i < 109 {
            Table::row(126687600, -18000, 3600, "EDT")
           } else {
            Table::row(152085600, -18000, 0, "EST")
           }
          }
         }
        } else {
         if i < 114 {
          if i < 112 {
           if i < 111 {
            Table::row(162370800, -18000, 3600, "EDT")
           } else {
            Table::row(183535200, -18000, 0, "EST")
           }
          } else {
           if i < 113 {
            Table::row(199263600, -18000, 3600, "EDT")
           } else {
            Table::row(215589600, -18000, 0, "EST")
           }
          }
         } else {
          if i < 116 {
           if i < 115 {
            Table::row(230713200, -18000, 3600, "EDT")
           } else {
            Table::row(247039200, -18000, 0, "EST")
           }
          } else {
           if i < 117 {
            Table::row(262767600, -18000, 3600, "EDT")
           } else {
            Table::row(278488800, -18000, 0, "EST")
           }
          }
         }
        }
       }
      }
     }
    } else {
     if i < 177 {
      if i < 147 {
       if i < 132 {
        if i < 125 {
         if i < 121 {
          if i < 119 {
           Table::row(294217200, -18000, 3600, "EDT")
          } else {
           if i < 120 {
            Table::row(309938400, -18000, 0, "EST")
           } else {
            Table::row(325666800, -18000, 3600, "EDT")
           }
          }
         } else {
          if i < 123 {
           if i < 122 {
            Table::row(341388000, -18000, 0, "EST")
           } else {
            Table::row(357116400, -18000, 3600, "EDT")
           }
          } else {
           if i < 124 {
            Table::row(372837600, -18000, 0, "EST")
           } else {
            Table::row(388566000, -18000, 3600, "EDT")
           }
          }
         }
        } else {
         if i < 128 {
          if i < 126 {
           Table::row(404892000, -18000, 0, "EST")
          } else {
           if i < 127 {
            Table::row(420015600, -18000, 3600, "EDT")
           } else {
            Table::row(436341600, -18000, 0, "EST")
           }
          }
         } else {
          if i < 130 {
           if i < 129 {
            Table::row(452070000, -18000, 3600, "EDT")
           } else {
            Table::row(467791200, -18000, 0, "EST")
           }
          } else {
           if i < 131 {
            Table::row(483519600, -18000, 3600, "EDT")
           } else {
            Table::row(499240800, -18000, 0, "EST")
           }
          }
         }
        }
       } else {
        if i < 139 {
         if i < 135 {
          if i < 133 {
           Table::row(514969200, -18000, 3600, "EDT")
          } else {
           if i < 134 {
            Table::row(530690400, -18000, 0, "EST")
           } else {
            Table::row(544604400, -18000, 3600, "EDT")
           }
          }
         } else {
          if i < 137 {
           if i < 136 {
            Table::row(562140000, -18000, 0, "EST")
           } else {
            Table::row(576054000, -18000, 3600, "EDT")
           }
          } else {
           if i < 138 {
            Table::row(594194400, -18000, 0, "EST")
           } else {
            Table::row(607503600, -18000, 3600, "EDT")
           }
          }
         }
        } else {
         if i < 143 {
          if i < 141 {
           if i < 140 {
            Table::row(625644000, -18000, 0, "EST")
           } else {
            Table::row(638953200, -18000, 3600, "EDT")
           }
          } else {
           if i < 142 {
            Table::row(657093600, -18000, 0, "EST")
           } else {
            Table::row(671007600, -18000, 3600, "EDT")
           }
          }
         } else {
          if i < 145 {
           if i < 144 {
            Table::row(688543200, -18000, 0, "EST")
           } else {
            Table::row(702457200, -18000, 3600, "EDT")
           }
          } else {
           if i < 146 {
            Table::row(719992800, -18000, 0, "EST")
           } else {
            Table::row(733906800, -18000, 3600, "EDT")
           }
          }
         }
        }
       }
      } else {
       if i < 162 {
        if i < 154 {
         if i < 150 {
          if i < 148 {
           Table::row(752047200, -18000, 0, "EST")
          } else {
           if i < 149 {
            Table::row(765356400, -18000, 3600, "EDT")
           } else {
            Table::row(783496800, -18000, 0, "EST")
           }
          }
         } else {
          if i < 152 {
           if i < 151 {
            Table::row(796806000, -18000, 3600, "EDT")
           } else {
            Table::row(814946400, -18000, 0, "EST")
           }
          } else {
           if i < 153 {
            Table::row(828860400, -18000, 3600, "EDT")
           } else {
            Table::row(846396000, -18000, 0, "EST")
           }
          }
         }
        } else {
         if i < 158 {
          if i < 156 {
           if i < 155 {
            Table::row(860310000, -18000, 3600, "EDT")
           } else {
            Table::row(877845600, -18000, 0, "EST")
           }
          } else {
           if i < 157 {
            Table::row(891759600, -18000, 3600, "EDT")
           } else {
            Table::row(909295200, -18000, 0, "EST")
           }
          }
         } else {
          if i < 160 {
           if i < 159 {
            Table::row(923209200, -18000, 3600, "EDT")
           } else {
            Table::row(941349600, -18000, 0, "EST")
           }
          } else {
           if i < 161 {
            Table::row(954658800, -18000, 3600, "EDT")
           } else {
            Table::row(972799200, -18000, 0, "EST")
           }
          }
         }
        }
       } else {
        if i < 169 {
         if i < 165 {
          if i < 163 {
           Table::row(986108400, -18000, 3600, "EDT")
          } else {
           if i < 164 {
            Table::row(1004248800, -18000, 0, "EST")
           } else {
            Table::row(1018162800, -18000, 3600, "EDT")
           }
          }
         } else {
          if i < 167 {
           if i < 166 {
            Table::row(1035698400, -18000, 0, "EST")
           } else {
            Table::row(1049612400, -18000, 3600, "EDT")
           }
          } else {
           if i < 168 {
            Table::row(1067148000, -18000, 0, "EST")
           } else {
            Table::row(1081062000, -18000, 3600, "EDT")
           }
          }
         }
        } else {
         if i < 173 {
          if i < 171 {
           if i < 170 {
            Table::row(1099202400, -18000, 0, "EST")
           } else {
            Table::row(1112511600, -18000, 3600, "EDT")
           }
          } else {
           if i < 172 {
            Table::row(1130652000, -18000, 0, "EST")
           } else {
            Table::row(1143961200, -18000, 3600, "EDT")
           }
          }
         } else {
          if i < 175 {
           if i < 174 {
            Table::row(1162101600, -18000, 0, "EST")
           } else {
            Table::row(1173596400, -18000, 3600, "EDT")
           }
          } else {
           if i < 176 {
            Table::row(1194156000, -18000, 0, "EST")
           } else {
            Table::row(1205046000, -18000, 3600, "EDT")
           }
          }
         }
        }
       }
      }
     } else {
      if i < 206 {
       if i < 191 {
        if i < 184 {
         if i < 180 {
          if i < 178 {
           Table::row(1225605600, -18000, 0, "EST")
          } else {
           if i < 179 {
            Table::row(1236495600, -18000, 3600, "EDT")
           } else {
            Table::row(1257055200, -18000, 0, "EST")
           }
          }
         } else {
          if i < 182 {
           if i < 181 {
            Table::row(1268550000, -18000, 3600, "EDT")
           } else {
            Table::row(1289109600, -18000, 0, "EST")
           }
          } else {
           if i < 183 {
            Table::row(1299999600, -18000, 3600, "EDT")
           } else {
            Table::row(1320559200, -18000, 0, "EST")
           }
          }
         }
        } else {
         if i < 187 {
          if i < 185 {
           Table::row(1331449200, -18000, 3600, "EDT")
          } else {
           if i < 186 {
            Table::row(1352008800, -18000, 0, "EST")
           } else {
            Table::row(1362898800, -18000, 3600, "EDT")
           }
          }
         } else {
          if i < 189 {
           if i < 188 {
            Table::row(1383458400, -18000, 0, "EST")
           } else {
            Table::row(1394348400, -18000, 3600, "EDT")
           }
          } else {
           if i < 190 {
            Table::row(1414908000, -18000, 0, "EST")
           } else {
            Table::row(1425798000, -18000, 3600, "EDT")
           }
          }
         }
        }
       } else {
        if i < 198 {
         if i < 194 {
          if i < 192 {
           Table::row(1446357600, -18000, 0, "EST")
          } else {
           if i < 193 {
            Table::row(1457852400, -18000, 3600, "EDT")
           } else {
            Table::row(1478412000, -18000, 0, "EST")
           }
          }
         } else {
          if i < 196 {
           if i < 195 {
            Table::row(1489302000, -18000, 3600, "EDT")
           } else {
            Table::row(1509861600, -18000, 0, "EST")
           }
          } else {
           if i < 197 {
            Table::row(1520751600, -18000, 3600, "EDT")
           } else {
            Table::row(1541311200, -18000, 0, "EST")
           }
          }
         }
        } else {
         if i < 202 {
          if i < 200 {
           if i < 199 {
            Table::row(1552201200, -18000, 3600, "EDT")
           } else {
            Table::row(1572760800, -18000, 0, "EST")
           }
          } else {
           if i < 201 {
            Table::row(1583650800, -18000, 3600, "EDT")
           } else {
            Table::row(1604210400, -18000, 0, "EST")
           }
          }
         } else {
          if i < 204 {
           if i < 203 {
            Table::row(1615705200, -18000, 3600, "EDT")
           } else {
            Table::row(1636264800, -18000, 0, "EST")
           }
          } else {
           if i < 205 {
            Table::row(1647154800, -18000, 3600, "EDT")
           } else {
            Table::row(1667714400, -18000, 0, "EST")
           }
          }
         }
        }
       }
      } else {
       if i < 221 {
        if i < 213 {
         if i < 209 {
          if i < 207 {
           Table::row(1678604400, -18000, 3600, "EDT")
          } else {
           if i < 208 {
            Table::row(1699164000, -18000, 0, "EST")
           } else {
            Table::row(1710054000, -18000, 3600, "EDT")
           }
          }
         } else {
          if i < 211 {
           if i < 210 {
            Table::row(1730613600, -18000, 0, "EST")
           } else {
            Table::row(1741503600, -18000, 3600, "EDT")
           }
          } else {
           if i < 212 {
            Table::row(1762063200, -18000, 0, "EST")
           } else {
            Table::row(1772953200, -18000, 3600, "EDT")
           }
          }
         }
        } else {
         if i < 217 {
          if i < 215 {
           if i < 214 {
            Table::row(1793512800, -18000, 0, "EST")
           } else {
            Table::row(1805007600, -18000, 3600, "EDT")
           }
          } else {
           if i < 216 {
            Table::row(1825567200, -18000, 0, "EST")
           } else {
            Table::row(1836457200, -18000, 3600, "EDT")
           }
          }
         } else {
          if i < 219 {
           if i < 218 {
            Table::row(1857016800, -18000, 0, "EST")
           } else {
            Table::row(1867906800, -18000, 3600, "EDT")
           }
          } else {
           if i < 220 {
            Table::row(1888466400, -18000, 0, "EST")
           } else {
            Table::row(1899356400, -18000, 3600, "EDT")
           }
          }
         }
        }
       } else {
        if i < 228 {
         if i < 224 {
          if i < 222 {
           Table::row(1919916000, -18000, 0, "EST")
          } else {
           if i < 223 {
            Table::row(1930806000, -18000, 3600, "EDT")
           } else {
            Table::row(1951365600, -18000, 0, "EST")
           }
          }
         } else {
          if i < 226 {
           if i < 225 {
            Table::row(1962860400, -18000, 3600, "EDT")
           } else {
            Table::row(1983420000, -18000, 0, "EST")
           }
          } else {
           if i < 227 {
            Table::row(1994310000, -18000, 3600, "EDT")
           } else {
            Table::row(2014869600, -18000, 0, "EST")
           }
          }
         }
        } else {
         if i < 232 {
          if i < 230 {
           if i < 229 {
            Table::row(2025759600, -18000, 3600, "EDT")
           } else {
            Table::row(2046319200, -18000, 0, "EST")
           }
          } else {
           if i < 231 {
            Table::row(2057209200, -18000, 3600, "EDT")
           } else {
            Table::row(2077768800, -18000, 0, "EST")
           }
          }
         } else {
          if i < 234 {
           if i < 233 {
            Table::row(2088658800, -18000, 3600, "EDT")
           } else {
            Table::row(2109218400, -18000, 0, "EST")
           }
          } else {
           if i < 235 {
            Table::row(2120108400, -18000, 3600, "EDT")
           } else {
            Table::row(2140668000, -18000, 0, "EST")
           }
          }
         }
        }
       }
      }
     }
    }
}

/// The rows of the table of the zone `America/New_York`.
pub open spec fn new_york_rows() -> spec_fn(int) -> (i64, FixedTimespan) {
    |i: int| new_york_row(i)
}

/// The table of the zone `America/New_York`.
pub open spec fn new_york() -> Table {
    Table::listed(Table::row(0, -17762, 0, "LMT").1, 236, new_york_rows())
}

/// Row `i` of the table of the zone `America/Nipigon`.
pub open spec fn nipigon_row(i: int) -> (i64, FixedTimespan) {
    if i < 116 {
     if i < 58 {
      if i < 29 {
       if i < 14 {
        if i < 7 {
         if i < 3 {
          if i < 1 {
           Table::row(-2366736148, -18000, 0, "EST")
          } else {
           if i < 2 {
            Table::row(-1632070800, -18000, 3600, "EDT")
           } else {
            Table::row(-1615140000, -18000, 0, "EST")
           }
          }
         } else {
          if i < 5 {
           if i < 4 {
            Table::row(-1601753400, -18000, 3600, "EDT")
           } else {
            Table::row(-1583697600, -18000, 0, "EST")
           }
          } else {
           if i < 6 {
            Table::row(-1567357200, -18000, 3600, "EDT")
           } else {
            Table::row(-1554667200, -18000, 0, "EST")
           }
          }
         }
        } else {
         if i < 10 {
          if i < 8 {
           Table::row(-1534698000, -18000, 3600, "EDT")
          } else {
           if i < 9 {
            Table::row(-1524074400, -18000, 0, "EST")
           } else {
            Table::row(-1503248400, -18000, 3600, "EDT")
           }
          }
         } else {
          if i < 12 {
           if i < 11 {
            Table::row(-1492365600, -18000, 0, "EST")
           } else {
            Table::row(-1471798800, -18000, 3600, "EDT")
           }
          } else {
           if i < 13 {
            Table::row(-1460916000, -18000, 0, "EST")
           } else {
            Table::row(-1440954000, -18000, 3600, "EDT")
           }
          }
         }
        }
       } else {
        if i < 21 {
         if i < 17 {
          if i < 15 {
           Table::row(-1428861600, -18000, 0, "EST")
          } else {
           if i < 16 {
            Table::row(-1409504400, -18000, 3600, "EDT")
           } else {
            Table::row(-1397412000, -18000, 0, "EST")
           }
          }
         } else {
          if i < 19 {
           if i < 18 {
            Table::row(-1378054800, -18000, 3600, "EDT")
           } else {
            Table::row(-1365962400, -18000, 0, "EST")
           }
          } else {
           if i < 20 {
            Table::row(-1346605200, -18000, 3600, "EDT")
           } else {
            Table::row(-1333908000, -18000, 0, "EST")
           }
          }
         }
        } else {
         if i < 25 {
          if i < 23 {
           if i < 22 {
            Table::row(-1315155600, -18000, 3600, "EDT")
           } else {
            Table::row(-1301853600, -18000, 0, "EST")
           }
          } else {
           if i < 24 {
            Table::row(-1283706000, -18000, 3600, "EDT")
           } else {
            Table::row(-1270404000, -18000, 0, "EST")
           }
          }
         } else {
          if i < 27 {
           if i < 26 {
            Table::row(-1252256400, -18000, 3600, "EDT")
           } else {
            Table::row(-1238954400, -18000, 0, "EST")
           }
          } else {
           if i < 28 {
            Table::row(-1220806800, -18000, 3600, "EDT")
           } else {
            Table::row(-1207504800, -18000, 0, "EST")
           }
          }
         }
        }
       }
      } else {
       if i < 43 {
        if i < 36 {
         if i < 32 {
          if i < 30 {
           Table::row(-1188752400, -18000, 3600, "EDT")
          } else {
           if i < 31 {
            Table::row(-1176055200, -18000, 0, "EST")
           } else {
            Table::row(-1157302800, -18000, 3600, "EDT")
           }
          }
         } else {
          if i < 34 {
           if i < 33 {
            Table::row(-1144000800, -18000, 0, "EST")
           } else {
            Table::row(-1125853200, -18000, 3600, "EDT")
           }
          } else {
           if i < 35 {
            Table::row(-1112551200, -18000, 0, "EST")
           } else {
            Table::row(-1094403600, -18000, 3600, "EDT")
           }
          }
         }
        } else {
         if i < 39 {
          if i < 37 {
           Table::row(-1081101600, -18000, 0, "EST")
          } else {
           if i < 38 {
            Table::row(-1062954000, -18000, 3600, "EDT")
           } else {
            Table::row(-1049652000, -18000, 0, "EST")
           }
          }
         } else {
          if i < 41 {
           if i < 40 {
            Table::row(-1031504400, -18000, 3600, "EDT")
           } else {
            Table::row(-1018202400, -18000, 0, "EST")
           }
          } else {
           if i < 42 {
            Table::row(-1000054800, -18000, 3600, "EDT")
           } else {
            Table::row(-986752800, -18000, 0, "EST")
           }
          }
         }
        }
       } else {
        if i < 50 {
         if i < 46 {
          if i < 44 {
           Table::row(-968000400, -18000, 3600, "EDT")
          } else {
           if i < 45 {
            Table::row(-955303200, -18000, 0, "EST")
           } else {
            Table::row(-936550800, -18000, 3600, "EDT")
           }
          }
         } else {
          if i < 48 {
           if i < 47 {
            Table::row(-880218000, -18000, 3600, "EWT")
           } else {
            Table::row(-769395600, -18000, 3600, "EPT")
           }
          } else {
           if i < 49 {
            Table::row(-765396000, -18000, 0, "EST")
           } else {
            Table::row(-747248400, -18000, 3600, "EDT")
           }
          }
         }
        } else {
         if i < 54 {
          if i < 52 {
           if i < 51 {
            Table::row(-733946400, -18000, 0, "EST")
           } else {
            Table::row(-715798800, -18000, 3600, "EDT")
           }
          } else {
           if i < 53 {
            Table::row(-702496800, -18000, 0, "EST")
           } else {
            Table::row(-684349200, -18000, 3600, "EDT")
           }
          }
         } else {
          if i < 56 {
           if i < 55 {
            Table::row(-671047200, -18000, 0, "EST")
           } else {
            Table::row(-652899600, -18000, 3600, "EDT")
           }
          } else {
           if i < 57 {
            Table::row(-634154400, -18000, 0, "EST")
           } else {
            Table::row(-620845200, -18000, 3600, "EDT")
           }
          }
         }
        }
       }
      }
     } else {
      if i < 87 {
       if i < 72 {
        if i < 65 {
         if i < 61 {
          if i < 59 {
           Table::row(-602704800, -18000, 0, "EST")
          } else {
           if i < 60 {
            Table::row(-589395600, -18000, 3600, "EDT")
           } else {
            Table::row(-576093600, -18000, 0, "EST")
           }
          }
         } else {
          if i < 63 {
           if i < 62 {
            Table::row(-557946000, -18000, 3600, "EDT")
           } else {
            Table::row(-544644000, -18000, 0, "EST")
           }
          } else {
           if i < 64 {
            Table::row(-526496400, -18000, 3600, "EDT")
           } else {
            Table::row(-513194400, -18000, 0, "EST")
           }
          }
         }
        } else {
         if i < 68 {
          if i < 66 {
           Table::row(-495046800, -18000, 3600, "EDT")
          } else {
           if i < 67 {
            Table::row(-481744800, -18000, 0, "EST")
           } else {
            Table::row(-463597200, -18000, 3600, "EDT")
           }
          }
         } else {
          if i < 70 {
           if i < 69 {
            Table::row(-450295200, -18000, 0, "EST")
           } else {
            Table::row(-431542800, -18000, 3600, "EDT")
           }
          } else {
           if i < 71 {
            Table::row(-418240800, -18000, 0, "EST")
           } else {
            Table::row(-400093200, -18000, 3600, "EDT")
           }
          }
         }
        }
       } else {
        if i < 79 {
         if i < 75 {
          if i < 73 {
           Table::row(-384372000, -18000, 0, "EST")
          } else {
           if i < 74 {
            Table::row(-368643600, -18000, 3600, "EDT")
           } else {
            Table::row(-352922400, -18000, 0, "EST")
           }
          }
         } else {
          if i < 77 {
           if i < 76 {
            Table::row(-337194000, -18000, 3600, "EDT")
           } else {
            Table::row(-321472800, -18000, 0, "EST")
           }
          } else {
           if i < 78 {
            Table::row(-305744400, -18000, 3600, "EDT")
           } else {
            Table::row(-289418400, -18000, 0, "EST")
           }
          }
         }
        } else {
         if i < 83 {
          if i < 81 {
           if i < 80 {
            Table::row(-273690000, -18000, 3600, "EDT")
           } else {
            Table::row(-257968800, -18000, 0, "EST")
           }
          } else {
           if i < 82 {
            Table::row(-242240400, -18000, 3600, "EDT")
           } else {
            Table::row(-226519200, -18000, 0, "EST")
           }
          }
         } else {
          if i < 85 {
           if i < 84 {
            Table::row(-210790800, -18000, 3600, "EDT")
           } else {
            Table::row(-195069600, -18000, 0, "EST")
           }
          } else {
           if i < 86 {
            Table::row(-179341200, -18000, 3600, "EDT")
           } else {
            Table::row(-163620000, -18000, 0, "EST")
           }
          }
         }
        }
       }
      } else {
       if i < 101 {
        if i < 94 {
         if i < 90 {
          if i < 88 {
           Table::row(-147891600, -18000, 3600, "EDT")
          } else {
           if i < 89 {
            Table::row(-131565600, -18000, 0, "EST")
           } else {
            Table::row(-116442000, -18000, 3600, "EDT")
           }
          }
         } else {
          if i < 92 {
           if i < 91 {
            Table::row(-100116000, -18000, 0, "EST")
           } else {
            Table::row(-84387600, -18000, 3600, "EDT")
           }
          } else {
           if i < 93 {
            Table::row(-68666400, -18000, 0, "EST")
           } else {
            Table::row(-52938000, -18000, 3600, "EDT")
           }
          }
         }
        } else {
         if i < 97 {
          if i < 95 {
           Table::row(-37216800, -18000, 0, "EST")
          } else {
           if i < 96 {
            Table::row(-21488400, -18000, 3600, "EDT")
           } else {
            Table::row(-5767200, -18000, 0, "EST")
           }
          }
         } else {
          if i < 99 {
           if i < 98 {
            Table::row(9961200, -18000, 3600, "EDT")
           } else {
            Table::row(25682400, -18000, 0, "EST")
           }
          } else {
           if i < 100 {
            Table::row(41410800, -18000, 3600, "EDT")
           } else {
            Table::row(57736800, -18000, 0, "EST")
           }
          }
         }
        }
       } else {
        if i < 108 {
         if i < 104 {
          if i < 102 {
           Table::row(73465200, -18000, 3600, "EDT")
          } else {
           if i < 103 {
            Table::row(89186400, -18000, 0, "EST")
           } else {
            Table::row(104914800, -18000, 3600, "EDT")
           }
          }
         } else {
          if i < 106 {
           if i < 105 {
            Table::row(120636000, -18000, 0, "EST")
           } else {
            Table::row(136364400, -18000, 3600, "EDT")
           }
          } else {
           if i < 107 {
            Table::row(152085600, -18000, 0, "EST")
           } else {
            Table::row(167814000, -18000, 3600, "EDT")
           }
          }
         }
        } else {
         if i < 112 {
          if i < 110 {
           if i < 109 {
            Table::row(183535200, -18000, 0, "EST")
           } else {
            Table::row(199263600, -18000, 3600, "EDT")
           }
          } else {
           if i < 111 {
            Table::row(215589600, -18000, 0, "EST")
           } else {
            Table::row(230713200, -18000, 3600, "EDT")
           }
          }
         } else {
          if i < 114 {
           if i < 113 {
            Table::row(247039200, -18000, 0, "EST")
           } else {
            Table::row(262767600, -18000, 3600, "EDT")
           }
          } else {
           if i < 115 {
            Table::row(278488800, -18000, 0, "EST")
           } else {
            Table::row(294217200, -18000, 3600, "EDT")
           }
          }
         }
        }
       }
      }
     }
    } else {
     if i < 174 {
      if i < 145 {
       if i < 130 {
        if i < 123 {
         if i < 119 {
          if i < 117 {
           Table::row(309938400, -18000, 0, "EST")
          } else {
           if i < 118 {
            Table::row(325666800, -18000, 3600, "EDT")
           } else {
            Table::row(341388000, -18000, 0, "EST")
           }
          }
         } else {
          if i < 121 {
           if i < 120 {
            Table::row(357116400, -18000, 3600, "EDT")
           } else {
            Table::row(372837600, -18000, 0, "EST")
           }
          } else {
           if i < 122 {
            Table::row(388566000, -18000, 3600, "EDT")
           } else {
            Table::row(404892000, -18000, 0, "EST")
           }
          }
         }
        } else {
         if i < 126 {
          if i < 124 {
           Table::row(420015600, -18000, 3600, "EDT")
          } else {
           if i < 125 {
            Table::row(436341600, -18000, 0, "EST")
           } else {
            Table::row(452070000, -18000, 3600, "EDT")
           }
          }
         } else {
          if i < 128 {
           if i < 127 {
            Table::row(467791200, -18000, 0, "EST")
           } else {
            Table::row(483519600, -18000, 3600, "EDT")
           }
          } else {
           if i < 129 {
            Table::row(499240800, -18000, 0, "EST")
           } else {
            Table::row(514969200, -18000, 3600, "EDT")
           }
          }
         }
        }
       } else {
        if i < 137 {
         if i < 133 {
          if i < 131 {
           Table::row(530690400, -18000, 0, "EST")
          } else {
           if i < 132 {
            Table::row(544604400, -18000, 3600, "EDT")
           } else {
            Table::row(562140000, -18000, 0, "EST")
           }
          }
         } else {
          if i < 135 {
           if i < 134 {
            Table::row(576054000, -18000, 3600, "EDT")
           } else {
            Table::row(594194400, -18000, 0, "EST")
           }
          } else {
           if i < 136 {
            Table::row(607503600, -18000, 3600, "EDT")
           } else {
            Table::row(625644000, -18000, 0, "EST")
           }
          }
         }
        } else {
         if i < 141 {
          if i < 139 {
           if i < 138 {
            Table::row(638953200, -18000, 3600, "EDT")
           } else {
            Table::row(657093600, -18000, 0, "EST")
           }
          } else {
           if i < 140 {
            Table::row(671007600, -18000, 3600, "EDT")
           } else {
            Table::row(688543200, -18000, 0, "EST")
           }
          }
         } else {
          if i < 143 {
           if i < 142 {
            Table::row(702457200, -18000, 3600, "EDT")
           } else {
            Table::row(719992800, -18000, 0, "EST")
           }
          } else {
           if i < 144 {
            Table::row(733906800, -18000, 3600, "EDT")
           } else {
            Table::row(752047200, -18000, 0, "EST")
           }
          }
         }
        }
       }
      } else {
       if i < 159 {
        if i < 152 {
         if i < 148 {
          if i < 146 {
           Table::row(765356400, -18000, 3600, "EDT")
          } else {
           if i < 147 {
            Table::row(783496800, -18000, 0, "EST")
           } else {
            Table::row(796806000, -18000, 3600, "EDT")
           }
          }
         } else {
          if i < 150 {
           if i < 149 {
            Table::row(814946400, -18000, 0, "EST")
           } else {
            Table::row(828860400, -18000, 3600, "EDT")
           }
          } else {
           if i < 151 {
            Table::row(846396000, -18000, 0, "EST")
           } else {
            Table::row(860310000, -18000, 3600, "EDT")
           }
          }
         }
        } else {
         if i < 155 {
          if i < 153 {
           Table::row(877845600, -18000, 0, "EST")
          } else {
           if i < 154 {
            Table::row(891759600, -18000, 3600, "EDT")
           } else {
            Table::row(909295200, -18000, 0, "EST")
           }
          }
         } else {
          if i < 157 {
           if i < 156 {
            Table::row(923209200, -18000, 3600, "EDT")
           } else {
            Table::row(941349600, -18000, 0, "EST")
           }
          } else {
           if i < 158 {
            Table::row(954658800, -18000, 3600, "EDT")
           } else {
            Table::row(972799200, -18000, 0, "EST")
           }
          }
         }
        }
       } else {
        if i < 166 {
         if i < 162 {
          if i < 160 {
           Table::row(986108400, -18000, 3600, "EDT")
          } else {
           if i < 161 {
            Table::row(1004248800, -18000, 0, "EST")
           } else {
            Table::row(1018162800, -18000, 3600, "EDT")
           }
          }
         } else {
          if i < 164 {
           if i < 163 {
            Table::row(1035698400, -18000, 0, "EST")
           } else {
            Table::row(1049612400, -18000, 3600, "EDT")
           }
          } else {
           if i < 165 {
            Table::row(1067148000, -18000, 0, "EST")
           } else {
            Table::row(1081062000, -18000, 3600, "EDT")
           }
          }
         }
        } else {
         if i < 170 {
          if i < 168 {
           if i < 167 {
            Table::row(1099202400, -18000, 0, "EST")
           } else {
            Table::row(1112511600, -18000, 3600, "EDT")
           }
          } else {
           if i < 169 {
            Table::row(1130652000, -18000, 0, "EST")
           } else {
            Table::row(1143961200, -18000, 3600, "EDT")
           }
          }
         } else {
          if i < 172 {
           if i < 171 {
            Table::row(1162101600, -18000, 0, "EST")
           } else {
            Table::row(1173596400, -18000, 3600, "EDT")
           }
          } else {
           if i < 173 {
            Table::row(1194156000, -18000, 0, "EST")
           } else {
            Table::row(1205046000, -18000, 3600, "EDT")
           }
          }
         }
        }
       }
      }
     } else {
      if i < 203 {
       if i < 188 {
        if i < 181 {
         if i < 177 {
          if i < 175 {
           Table::row(1225605600, -18000, 0, "EST")
          } else {
           if i < 176 {
            Table::row(1236495600, -18000, 3600, "EDT")
           } else {
            Table::row(1257055200, -18000, 0, "EST")
           }
          }
         } else {
          if i < 179 {
           if i < 178 {
            Table::row(1268550000, -18000, 3600, "EDT")
           } else {
            Table::row(1289109600, -18000, 0, "EST")
           }
          } else {
           if i < 180 {
            Table::row(1299999600, -18000, 3600, "EDT")
           } else {
            Table::row(1320559200, -18000, 0, "EST")
           }
          }
         }
        } else {
         if i < 184 {
          if i < 182 {
           Table::row(1331449200, -18000, 3600, "EDT")
          } else {
           if i < 183 {
            Table::row(1352008800, -18000, 0, "EST")
           } else {
            Table::row(1362898800, -18000, 3600, "EDT")
           }
          }
         } else {
          if i < 186 {
           if i < 185 {
            Table::row(1383458400, -18000, 0, "EST")
           } else {
            Table::row(1394348400, -18000, 3600, "EDT")
           }
          } else {
           if i < 187 {
            Table::row(1414908000, -18000, 0, "EST")
           } else {
            Table::row(1425798000, -18000, 3600, "EDT")
           }
          }
         }
        }
       } else {
        if i < 195 {
         if i < 191 {
          if i < 189 {
           Table::row(1446357600, -18000, 0, "EST")
          } else {
           if i < 190 {
            Table::row(1457852400, -18000, 3600, "EDT")
           } else {
            Table::row(1478412000, -18000, 0, "EST")
           }
          }
         } else {
          if i < 193 {
           if i < 192 {
            Table::row(1489302000, -18000, 3600, "EDT")
           } else {
            Table::row(1509861600, -18000, 0, "EST")
           }
          } else {
           if i < 194 {
            Table::row(1520751600, -18000, 3600, "EDT")
           } else {
            Table::row(1541311200, -18000, 0, "EST")
           }
          }
         }
        } else {
         if i < 199 {
          if i < 197 {
           if i < 196 {
            Table::row(1552201200, -18000, 3600, "EDT")
           } else {
            Table::row(1572760800, -18000, 0, "EST")
           }
          } else {
           if i < 198 {
            Table::row(1583650800, -18000, 3600, "EDT")
           } else {
            Table::row(1604210400, -18000, 0, "EST")
           }
          }
         } else {
          if i < 201 {
           if i < 200 {
            Table::row(1615705200, -18000, 3600, "EDT")
           } else {
            Table::row(1636264800, -18000, 0, "EST")
           }
          } else {
           if i < 202 {
            Table::row(1647154800, -18000, 3600, "EDT")
           } else {
            Table::row(1667714400, -18000, 0, "EST")
           }
          }
         }
        }
       }
      } else {
       if i < 218 {
        if i < 210 {
         if i < 206 {
          if i < 204 {
           Table::row(1678604400, -18000, 3600, "EDT")
          } else {
           if i < 205 {
            Table::row(1699164000, -18000, 0, "EST")
           } else {
            Table::row(1710054000, -18000, 3600, "EDT")
           }
          }
         } else {
          if i < 208 {
           if i < 207 {
            Table::row(1730613600, -18000, 0, "EST")
           } else {
            Table::row(1741503600, -18000, 3600, "EDT")
           }
          } else {
           if i < 209 {
            Table::row(1762063200, -18000, 0, "EST")
           } else {
            Table::row(1772953200, -18000, 3600, "EDT")
           }
          }
         }
        } else {
         if i < 214 {
          if i < 212 {
           if i < 211 {
            Table::row(1793512800, -18000, 0, "EST")
           } else {
            Table::row(1805007600, -18000, 3600, "EDT")
           }
          } else {
           if i < 213 {
            Table::row(1825567200, -18000, 0, "EST")
           } else {
            Table::row(1836457200, -18000, 3600, "EDT")
           }
          }
         } else {
          if i < 216 {
           if i < 215 {
            Table::row(1857016800, -18000, 0, "EST")
           } else {
            Table::row(1867906800, -18000, 3600, "EDT")
           }
          } else {
           if i < 217 {
            Table::row(1888466400, -18000, 0, "EST")
           } else {
            Table::row(1899356400, -18000, 3600, "EDT")
           }
          }
         }
        }
       } else {
        if i < 225 {
         if i < 221 {
          if i < 219 {
           Table::row(1919916000, -18000, 0, "EST")
          } else {
           if i < 220 {
            Table::row(1930806000, -18000, 3600, "EDT")
           } else {
            Table::row(1951365600, -18000, 0, "EST")
           }
          }
         } else {
          if i < 223 {
           if i < 222 {
            Table::row(1962860400, -18000, 3600, "EDT")
           } else {
            Table::row(1983420000, -18000, 0, "EST")
           }
          } else {
           if i < 224 {
            Table::row(1994310000, -18000, 3600, "EDT")
           } else {
            Table::row(2014869600, -18000, 0, "EST")
           }
          }
         }
        } else {
         if i < 229 {
          if i < 227 {
           if i < 226 {
            Table::row(2025759600, -18000, 3600, "EDT")
           } else {
            Table::row(2046319200, -18000, 0, "EST")
           }
          } else {
           if i < 228 {
            Table::row(2057209200, -18000, 3600, "EDT")
           } else {
            Table::row(2077768800, -18000, 0, "EST")
           }
          }
         } else {
          if i < 231 {
           if i < 230 {
            Table::row(2088658800, -18000, 3600, "EDT")
           } else {
            Table::row(2109218400, -18000, 0, "EST")
           }
          } else {
           if i < 232 {
            Table::row(2120108400, -18000, 3600, "EDT")
           } else {
            Table::row(2140668000, -18000, 0, "EST")
           }
          }
         }
        }
       }
      }
     }
    }
}

/// The rows of the table of the zone `America/Nipigon`.
pub open spec fn nipigon_rows() -> spec_fn(int) -> (i64, FixedTimespan) {
    |i: int| nipigon_row(i)
}

/// The table of the zone `America/Nipigon`.
pub open spec fn nipigon() -> Table {
    Table::listed(Table::row(0, -19052, 0, "LMT").1, 233, nipigon_rows())
}

/// Row `i` of the table of the zone `America/Nome`.
pub open spec fn nome_row(i: int) -> (i64, FixedTimespan) {
    if i < 72 {
     if i < 36 {
      if i < 18 {
       if i < 9 {
        if i < 4 {
         if i < 2 {
          if i < 1 {
           Table::row(-3225223727, -39698, 0, "LMT")
          } else {
           Table::row(-2188947502, -39600, 0, "NST")
          }
         } else {
          if i < 3 {
           Table::row(-880196400, -39600, 3600, "NWT")
          } else {
           Table::row(-769395600, -39600, 3600, "NPT")
          }
         }
        } else {
         if i < 6 {
          if i < 5 {
           Table::row(-765374400, -39600, 0, "NST")
          } else {
           Table::row(-86878800, -39600, 0, "BST")
          }
         } else {
          if i < 7 {
           Table::row(-21466800, -39600, 3600, "BDT")
          } else {
           if i < 8 {
            Table::row(-5745600, -39600, 0, "BST")
           } else {
            Table::row(9982800, -39600, 3600, "BDT")
           }
          }
         }
        }
       } else {
        if i < 13 {
         if i < 11 {
          if i < 10 {
           Table::row(25704000, -39600, 0, "BST")
          } else {
           Table::row(41432400, -39600, 3600, "BDT")
          }
         } else {
          if i < 12 {
           Table::row(57758400, -39600, 0, "BST")
          } else {
           Table::row(73486800, -39600, 3600, "BDT")
          }
         }
        } else {
         if i < 15 {
          if i < 14 {
           Table::row(89208000, -39600, 0, "BST")
          } else {
           Table::row(104936400, -39600, 3600, "BDT")
          }
         } else {
          if i < 16 {
           Table::row(120657600, -39600, 0, "BST")
          } else {
           if i < 17 {
            Table::row(126709200, -39600, 3600, "BDT")
           } else {
            Table::row(152107200, -39600, 0, "BST")
           }
          }
         }
        }
       }
      } else {
       if i < 27 {
        if i < 22 {
         if i < 20 {
          if i < 19 {
           Table::row(162392400, -39600, 3600, "BDT")
          } else {
           Table::row(183556800, -39600, 0, "BST")
          }
         } else {
          if i < 21 {
           Table::row(199285200, -39600, 3600, "BDT")
          } else {
           Table::row(215611200, -39600, 0, "BST")
          }
         }
        } else {
         if i < 24 {
          if i < 23 {
           Table::row(230734800, -39600, 3600, "BDT")
          } else {
           Table::row(247060800, -39600, 0, "BST")
          }
         } else {
          if i < 25 {
           Table::row(262789200, -39600, 3600, "BDT")
          } else {
           if i < 26 {
            Table::row(278510400, -39600, 0, "BST")
           } else {
            Table::row(294238800, -39600, 3600, "BDT")
           }
          }
         }
        }
       } else {
        if i < 31 {
         if i < 29 {
          if i < 28 {
           Table::row(309960000, -39600, 0, "BST")
          } else {
           Table::row(325688400, -39600, 3600, "BDT")
          }
         } else {
          if i < 30 {
           Table::row(341409600, -39600, 0, "BST")
          } else {
           Table::row(357138000, -39600, 3600, "BDT")
          }
         }
        } else {
         if i < 33 {
          if i < 32 {
           Table::row(372859200, -39600, 0, "BST")
          } else {
           Table::row(388587600, -39600, 3600, "BDT")
          }
         } else {
          if i < 34 {
           Table::row(404913600, -39600, 0, "BST")
          } else {
           if i < 35 {
            Table::row(420037200, -39600, 3600, "BDT")
           } else {
            Table::row(436363200, -32400, 0, "YST")
           }
          }
         }
        }
       }
      }
     } else {
      if i < 54 {
       if i < 45 {
        if i < 40 {
         if i < 38 {
          if i < 37 {
           Table::row(439030800, -32400, 0, "AKST")
          } else {
           Table::row(452084400, -32400, 3600, "AKDT")
          }
         } else {
          if i < 39 {
           Table::row(467805600, -32400, 0, "AKST")
          } else {
           Table::row(483534000, -32400, 3600, "AKDT")
          }
         }
        } else {
         if i < 42 {
          if i < 41 {
           Table::row(499255200, -32400, 0, "AKST")
          } else {
           Table::row(514983600, -32400, 3600, "AKDT")
          }
         } else {
          if i < 43 {
           Table::row(530704800, -32400, 0, "AKST")
          } else {
           if i < 44 {
            Table::row(544618800, -32400, 3600, "AKDT")
           } else {
            Table::row(562154400, -32400, 0, "AKST")
           }
          }
         }
        }
       } else {
        if i < 49 {
         if i < 47 {
          if i < 46 {
           Table::row(576068400, -32400, 3600, "AKDT")
          } else {
           Table::row(594208800, -32400, 0, "AKST")
          }
         } else {
          if i < 48 {
           Table::row(607518000, -32400, 3600, "AKDT")
          } else {
           Table::row(625658400, -32400, 0, "AKST")
          }
         }
        } else {
         if i < 51 {
          if i < 50 {
           Table::row(638967600, -32400, 3600, "AKDT")
          } else {
           Table::row(657108000, -32400, 0, "AKST")
          }
         } else {
          if i < 52 {
           Table::row(671022000, -32400, 3600, "AKDT")
          } else {
           if i < 53 {
            Table::row(688557600, -32400, 0, "AKST")
           } else {
            Table::row(702471600, -32400, 3600, "AKDT")
           }
          }
         }
        }
       }
      } else {
       if i < 63 {
        if i < 58 {
         if i < 56 {
          if i < 55 {
           Table::row(720007200, -32400, 0, "AKST")
          } else {
           Table::row(733921200, -32400, 3600, "AKDT")
          }
         } else {
          if i < 57 {
           Table::row(752061600, -32400, 0, "AKST")
          } else {
           Table::row(765370800, -32400, 3600, "AKDT")
          }
         }
        } else {
         if i < 60 {
          if i < 59 {
           Table::row(783511200, -32400, 0, "AKST")
          } else {
           Table::row(796820400, -32400, 3600, "AKDT")
          }
         } else {
          if i < 61 {
           Table::row(814960800, -32400, 0, "AKST")
          } else {
           if i < 62 {
            Table::row(828874800, -32400, 3600, "AKDT")
           } else {
            Table::row(846410400, -32400, 0, "AKST")
           }
          }
         }
        }
       } else {
        if i < 67 {
         if i < 65 {
          if i < 64 {
           Table::row(860324400, -32400, 3600, "AKDT")
          } else {
           Table::row(877860000, -32400, 0, "AKST")
          }
         } else {
          if i < 66 {
           Table::row(891774000, -32400, 3600, "AKDT")
          } else {
           Table::row(909309600, -32400, 0, "AKST")
          }
         }
        } else {
         if i < 69 {
          if i < 68 {
           Table::row(923223600, -32400, 3600, "AKDT")
          } else {
           Table::row(941364000, -32400, 0, "AKST")
          }
         } else {
          if i < 70 {
           Table::row(954673200, -32400, 3600, "AKDT")
          } else {
           if i < 71 {
            Table::row(972813600, -32400, 0, "AKST")
           } else {
            Table::row(986122800, -32400, 3600, "AKDT")
           }
          }
         }
        }
       }
      }
     }
    } else {
     if i < 108 {
      if i < 90 {
       if i < 81 {
        if i < 76 {
         if i < 74 {
          if i < 73 {
           Table::row(1004263200, -32400, 0, "AKST")
          } else {
           Table::row(1018177200, -32400, 3600, "AKDT")
          }
         } else {
          if i < 75 {
           Table::row(1035712800, -32400, 0, "AKST")
          } else {
           Table::row(1049626800, -32400, 3600, "AKDT")
          }
         }
        } else {
         if i < 78 {
          if i < 77 {
           Table::row(1067162400, -32400, 0, "AKST")
          } else {
           Table::row(1081076400, -32400, 3600, "AKDT")
          }
         } else {
          if i < 79 {
           Table::row(1099216800, -32400, 0, "AKST")
          } else {
           if i < 80 {
            Table::row(1112526000, -32400, 3600, "AKDT")
           } else {
            Table::row(1130666400, -32400, 0, "AKST")
           }
          }
         }
        }
       } else {
        if i < 85 {
         if i < 83 {
          if i < 82 {
           Table::row(1143975600, -32400, 3600, "AKDT")
          } else {
           Table::row(1162116000, -32400, 0, "AKST")
          }
         } else {
          if i < 84 {
           Table::row(1173610800, -32400, 3600, "AKDT")
          } else {
           Table::row(1194170400, -32400, 0, "AKST")
          }
         }
        } else {
         if i < 87 {
          if i < 86 {
           Table::row(1205060400, -32400, 3600, "AKDT")
          } else {
           Table::row(1225620000, -32400, 0, "AKST")
          }
         } else {
          if i < 88 {
           Table::row(1236510000, -32400, 3600, "AKDT")
          } else {
           if i < 89 {
            Table::row(1257069600, -32400, 0, "AKST")
           } else {
            Table::row(1268564400, -32400, 3600, "AKDT")
           }
          }
         }
        }
       }
      } else {
       if i < 99 {
        if i < 94 {
         if i < 92 {
          if i < 91 {
           Table::row(1289124000, -32400, 0, "AKST")
          } else {
           Table::row(1300014000, -32400, 3600, "AKDT")
          }
         } else {
          if i < 93 {
           Table::row(1320573600, -32400, 0, "AKST")
          } else {
           Table::row(1331463600, -32400, 3600, "AKDT")
          }
         }
        } else {
         if i < 96 {
          if i < 95 {
           Table::row(1352023200, -32400, 0, "AKST")
          } else {
           Table::row(1362913200, -32400, 3600, "AKDT")
          }
         } else {
          if i < 97 {
           Table::row(1383472800, -32400, 0, "AKST")
          } else {
           if i < 98 {
            Table::row(1394362800, -32400, 3600, "AKDT")
           } else {
            Table::row(1414922400, -32400, 0, "AKST")
           }
          }
         }
        }
       } else {
        if i < 103 {
         if i < 101 {
          if i < 100 {
           Table::row(1425812400, -32400, 3600, "AKDT")
          } else {
           Table::row(1446372000, -32400, 0, "AKST")
          }
         } else {
          if i < 102 {
           Table::row(1457866800, -32400, 3600, "AKDT")
          } else {
           Table::row(1478426400, -32400, 0, "AKST")
          }
         }
        } else {
         if i < 105 {
          if i < 104 {
           Table::row(1489316400, -32400, 3600, "AKDT")
          } else {
           Table::row(1509876000, -32400, 0, "AKST")
          }
         } else {
          if i < 106 {
           Table::row(1520766000, -32400, 3600, "AKDT")
          } else {
           if i < 107 {
            Table::row(1541325600, -32400, 0, "AKST")
           } else {
            Table::row(1552215600, -32400, 3600, "AKDT")
           }
          }
         }
        }
       }
      }
     } else {
      if i < 126 {
       if i < 117 {
        if i < 112 {
         if i < 110 {
          if i < 109 {
           Table::row(1572775200, -32400, 0, "AKST")
          } else {
           Table::row(1583665200, -32400, 3600, "AKDT")
          }
         } else {
          if i < 111 {
           Table::row(1604224800, -32400, 0, "AKST")
          } else {
           Table::row(1615719600, -32400, 3600, "AKDT")
          }
         }
        } else {
         if i < 114 {
          if i < 113 {
           Table::row(1636279200, -32400, 0, "AKST")
          } else {
           Table::row(1647169200, -32400, 3600, "AKDT")
          }
         } else {
          if i < 115 {
           Table::row(1667728800, -32400, 0, "AKST")
          } else {
           if i < 116 {
            Table::row(1678618800, -32400, 3600, "AKDT")
           } else {
            Table::row(1699178400, -32400, 0, "AKST")
           }
          }
         }
        }
       } else {
        if i < 121 {
         if i < 119 {
          if i < 118 {
           Table::row(1710068400, -32400, 3600, "AKDT")
          } else {
           Table::row(1730628000, -32400, 0, "AKST")
          }
         } else {
          if i < 120 {
           Table::row(1741518000, -32400, 3600, "AKDT")
          } else {
           Table::row(1762077600, -32400, 0, "AKST")
          }
         }
        } else {
         if i < 123 {
          if i < 122 {
           Table::row(1772967600, -32400, 3600, "AKDT")
          } else {
           Table::row(1793527200, -32400, 0, "AKST")
          }
         } else {
          if i < 124 {
           Table::row(1805022000, -32400, 3600, "AKDT")
          } else {
           if i < 125 {
            Table::row(1825581600, -32400, 0, "AKST")
           } else {
            Table::row(1836471600, -32400, 3600, "AKDT")
           }
          }
         }
        }
       }
      } else {
       if i < 135 {
        if i < 130 {
         if i < 128 {
          if i < 127 {
           Table::row(1857031200, -32400, 0, "AKST")
          } else {
           Table::row(1867921200, -32400, 3600, "AKDT")
          }
         } else {
          if i < 129 {
           Table::row(1888480800, -32400, 0, "AKST")
          } else {
           Table::row(1899370800, -32400, 3600, "AKDT")
          }
         }
        } else {
         if i < 132 {
          if i < 131 {
           Table::row(1919930400, -32400, 0, "AKST")
          } else {
           Table::row(1930820400, -32400, 3600, "AKDT")
          }
         } else {
          if i < 133 {
           Table::row(1951380000, -32400, 0, "AKST")
          } else {
           if i < 134 {
            Table::row(1962874800, -32400, 3600, "AKDT")
           } else {
            Table::row(1983434400, -32400, 0, "AKST")
           }
          }
         }
        }
       } else {
        if i < 140 {
         if i < 137 {
          if i < 136 {
           Table::row(1994324400, -32400, 3600, "AKDT")
          } else {
           Table::row(2014884000, -32400, 0, "AKST")
          }
         } else {
          if i < 138 {
           Table::row(2025774000, -32400, 3600, "AKDT")
          } else {
           if i < 139 {
            Table::row(2046333600, -32400, 0, "AKST")
           } else {
            Table::row(2057223600, -32400, 3600, "AKDT")
           }
          }
         }
        } else {
         if i < 142 {
          if i < 141 {
           Table::row(2077783200, -32400, 0, "AKST")
          } else {
           Table::row(2088673200, -32400, 3600, "AKDT")
          }
         } else {
          if i < 143 {
           Table::row(2109232800, -32400, 0, "AKST")
          } else {
           if i < 144 {
            Table::row(2120122800, -32400, 3600, "AKDT")
           } else {
            Table::row(2140682400, -32400, 0, "AKST")
           }
          }
         }
        }
       }
      }
     }
    }
}

/// The rows of the table of the zone `America/Nome`.
pub open spec fn nome_rows() -> spec_fn(int) -> (i64, FixedTimespan) {
    |i: int| nome_row(i)
}

/// The table of the zone `America/Nome`.
pub open spec fn nome() -> Table {
    Table::listed(Table::row(0, 46702, 0, "LMT").1, 145, nome_rows())
}

/// Row `i` of the table of the zone `America/Noronha`.
pub open spec fn noronha_row(i: int) -> (i64, FixedTimespan) {
    if i < 20 {
     if i < 10 {
      if i < 5 {
       if i < 2 {
        if i < 1 {
         Table::row(-1767217820, -7200, 0, "-02")
        } else {
         Table::row(-1206961200, -7200, 3600, "-01")
        }
       } else {
        if i < 3 {
         Table::row(-1191366000, -7200, 0, "-02")
        } else {
         if i < 4 {
          Table::row(-1175378400, -7200, 3600, "-01")
         } else {
          Table::row(-1159830000, -7200, 0, "-02")
         }
        }
       }
      } else {
       if i < 7 {
        if i < 6 {
         Table::row(-633823200, -7200, 3600, "-01")
        } else {
         Table::row(-622072800, -7200, 0, "-02")
        }
       } else {
        if i < 8 {
         Table::row(-602287200, -7200, 3600, "-01")
        } else {
         if i < 9 {
          Table::row(-591836400, -7200, 0, "-02")
         } else {
          Table::row(-570751200, -7200, 3600, "-01")
         }
        }
       }
      }
     } else {
      if i < 15 {
       if i < 12 {
        if i < 11 {
         Table::row(-560214000, -7200, 0, "-02")
        } else {
         Table::row(-539128800, -7200, 3600, "-01")
        }
       } else {
        if i < 13 {
         Table::row(-531356400, -7200, 0, "-02")
        } else {
         if i < 14 {
          Table::row(-191368800, -7200, 3600, "-01")
         } else {
          Table::row(-184201200, -7200, 0, "-02")
         }
        }
       }
      } else {
       if i < 17 {
        if i < 16 {
         Table::row(-155167200, -7200, 3600, "-01")
        } else {
         Table::row(-150073200, -7200, 0, "-02")
        }
       } else {
        if i < 18 {
         Table::row(-128901600, -7200, 3600, "-01")
        } else {
         if i < 19 {
          Table::row(-121129200, -7200, 0, "-02")
         } else {
          Table::row(-99957600, -7200, 3600, "-01")
         }
        }
       }
      }
     }
    } else {
     if i < 30 {
      if i < 25 {
       if i < 22 {
        if i < 21 {
         Table::row(-89593200, -7200, 0, "-02")
        } else {
         Table::row(-68421600, -7200, 3600, "-01")
        }
       } else {
        if i < 23 {
         Table::row(-57970800, -7200, 0, "-02")
        } else {
         if i < 24 {
          Table::row(499744800, -7200, 3600, "-01")
         } else {
          Table::row(511232400, -7200, 0, "-02")
         }
        }
       }
      } else {
       if i < 27 {
        if i < 26 {
         Table::row(530589600, -7200, 3600, "-01")
        } else {
         Table::row(540262800, -7200, 0, "-02")
        }
       } else {
        if i < 28 {
         Table::row(562125600, -7200, 3600, "-01")
        } else {
         if i < 29 {
          Table::row(571194000, -7200, 0, "-02")
         } else {
          Table::row(592970400, -7200, 3600, "-01")
         }
        }
       }
      }
     } else {
      if i < 35 {
       if i < 32 {
        if i < 31 {
         Table::row(602038800, -7200, 0, "-02")
        } else {
         Table::row(624420000, -7200, 3600, "-01")
        }
       } else {
        if i < 33 {
         Table::row(634698000, -7200, 0, "-02")
        } else {
         if i < 34 {
          Table::row(938916000, -7200, 3600, "-01")
         } else {
          Table::row(951613200, -7200, 0, "-02")
         }
        }
       }
      } else {
       if i < 37 {
        if i < 36 {
         Table::row(970970400, -7200, 3600, "-01")
        } else {
         Table::row(971571600, -7200, 0, "-02")
        }
       } else {
        if i < 38 {
         Table::row(1003024800, -7200, 3600, "-01")
        } else {
         if i < 39 {
          Table::row(1013907600, -7200, 0, "-02")
         } else {
          Table::row(2147483647, -7200, 0, "-02")
         }
        }
       }
      }
     }
    }
}

/// The rows of the table of the zone `America/Noronha`.
pub open spec fn noronha_rows() -> spec_fn(int) -> (i64, FixedTimespan) {
    |i: int| noronha_row(i)
}

/// The table of the zone `America/Noronha`.
pub open spec fn noronha() -> Table {
    Table::listed(Table::row(0, -7780, 0, "LMT").1, 40, noronha_rows())
}

/// Row `i` of the table of the zone `America/North_Dakota/Beulah`.
pub open spec fn north_dakota_beulah_row(i: int) -> (i64, FixedTimespan) {
    if i < 75 {
     if i < 37 {
      if i < 18 {
       if i < 9 {
        if i < 4 {
         if i < 2 {
          if i < 1 {
           Table::row(-2717643600, -25200, 0, "MST")
          } else {
           Table::row(-1633273200, -25200, 3600, "MDT")
          }
         } else {
          if i < 3 {
           Table::row(-1615132800, -25200, 0, "MST")
          } else {
           Table::row(-1601823600, -25200, 3600, "MDT")
          }
         }
        } else {
         if i < 6 {
          if i < 5 {
           Table::row(-1583683200, -25200, 0, "MST")
          } else {
           Table::row(-880210800, -25200, 3600, "MWT")
          }
         } else {
          if i < 7 {
           Table::row(-769395600, -25200, 3600, "MPT")
          } else {
           if i < 8 {
            Table::row(-765388800, -25200, 0, "MST")
           } else {
            Table::row(-84380400, -25200, 3600, "MDT")
           }
          }
         }
        }
       } else {
        if i < 13 {
         if i < 11 {
          if i < 10 {
           Table::row(-68659200, -25200, 0, "MST")
          } else {
           Table::row(-52930800, -25200, 3600, "MDT")
          }
         } else {
          if i < 12 {
           Table::row(-37209600, -25200, 0, "MST")
          } else {
           Table::row(-21481200, -25200, 3600, "MDT")
          }
         }
        } else {
         if i < 15 {
          if i < 14 {
           Table::row(-5760000, -25200, 0, "MST")
          } else {
           Table::row(9968400, -25200, 3600, "MDT")
          }
         } else {
          if i < 16 {
           Table::row(25689600, -25200, 0, "MST")
          } else {
           if i < 17 {
            Table::row(41418000, -25200, 3600, "MDT")
           } else {
            Table::row(57744000, -25200, 0, "MST")
           }
          }
         }
        }
       }
      } else {
       if i < 27 {
        if i < 22 {
         if i < 20 {
          if i < 19 {
           Table::row(73472400, -25200, 3600, "MDT")
          } else {
           Table::row(89193600, -25200, 0, "MST")
          }
         } else {
          if i < 21 {
           Table::row(104922000, -25200, 3600, "MDT")
          } else {
           Table::row(120643200, -25200, 0, "MST")
          }
         }
        } else {
         if i < 24 {
          if i < 23 {
           Table::row(126694800, -25200, 3600, "MDT")
          } else {
           Table::row(152092800, -25200, 0, "MST")
          }
         } else {
          if i < 25 {
           Table::row(162378000, -25200, 3600, "MDT")
          } else {
           if i < 26 {
            Table::row(183542400, -25200, 0, "MST")
           } else {
            Table::row(199270800, -25200, 3600, "MDT")
           }
          }
         }
        }
       } else {
        if i < 32 {
         if i < 29 {
          if i < 28 {
           Table::row(215596800, -25200, 0, "MST")
          } else {
           Table::row(230720400, -25200, 3600, "MDT")
          }
         } else {
          if i < 30 {
           Table::row(247046400, -25200, 0, "MST")
          } else {
           if i < 31 {
            Table::row(262774800, -25200, 3600, "MDT")
           } else {
            Table::row(278496000, -25200, 0, "MST")
           }
          }
         }
        } else {
         if i < 34 {
          if i < 33 {
           Table::row(294224400, -25200, 3600, "MDT")
          } else {
           Table::row(309945600, -25200, 0, "MST")
          }
         } else {
          if i < 35 {
           Table::row(325674000, -25200, 3600, "MDT")
          } else {
           if i < 36 {
            Table::row(341395200, -25200, 0, "MST")
           } else {
            Table::row(357123600, -25200, 3600, "MDT")
           }
          }
         }
        }
       }
      }
     } else {
      if i < 56 {
       if i < 46 {
        if i < 41 {
         if i < 39 {
          if i < 38 {
           Table::row(372844800, -25200, 0, "MST")
          } else {
           Table::row(388573200, -25200, 3600, "MDT")
          }
         } else {
          if i < 40 {
           Table::row(404899200, -25200, 0, "MST")
          } else {
           Table::row(420022800, -25200, 3600, "MDT")
          }
         }
        } else {
         if i < 43 {
          if i < 42 {
           Table::row(436348800, -25200, 0, "MST")
          } else {
           Table::row(452077200, -25200, 3600, "MDT")
          }
         } else {
          if i < 44 {
           Table::row(467798400, -25200, 0, "MST")
          } else {
           if i < 45 {
            Table::row(483526800, -25200, 3600, "MDT")
           } else {
            Table::row(499248000, -25200, 0, "MST")
           }
          }
         }
        }
       } else {
        if i < 51 {
         if i < 48 {
          if i < 47 {
           Table::row(514976400, -25200, 3600, "MDT")
          } else {
           Table::row(530697600, -25200, 0, "MST")
          }
         } else {
          if i < 49 {
           Table::row(544611600, -25200, 3600, "MDT")
          } else {
           if i < 50 {
            Table::row(562147200, -25200, 0, "MST")
           } else {
            Table::row(576061200, -25200, 3600, "MDT")
           }
          }
         }
        } else {
         if i < 53 {
          if i < 52 {
           Table::row(594201600, -25200, 0, "MST")
          } else {
           Table::row(607510800, -25200, 3600, "MDT")
          }
         } else {
          if i < 54 {
           Table::row(625651200, -25200, 0, "MST")
          } else {
           if i < 55 {
            Table::row(638960400, -25200, 3600, "MDT")
           } else {
            Table::row(657100800, -25200, 0, "MST")
           }
          }
         }
        }
       }
      } else {
       if i < 65 {
        if i < 60 {
         if i < 58 {
          if i < 57 {
           Table::row(671014800, -25200, 3600, "MDT")
          } else {
           Table::row(688550400, -25200, 0, "MST")
          }
         } else {
          if i < 59 {
           Table::row(702464400, -25200, 3600, "MDT")
          } else {
           Table::row(720000000, -25200, 0, "MST")
          }
         }
        } else {
         if i < 62 {
          if i < 61 {
           Table::row(733914000, -25200, 3600, "MDT")
          } else {
           Table::row(752054400, -25200, 0, "MST")
          }
         } else {
          if i < 63 {
           Table::row(765363600, -25200, 3600, "MDT")
          } else {
           if i < 64 {
            Table::row(783504000, -25200, 0, "MST")
           } else {
            Table::row(796813200, -25200, 3600, "MDT")
           }
          }
         }
        }
       } else {
        if i < 70 {
         if i < 67 {
          if i < 66 {
           Table::row(814953600, -25200, 0, "MST")
          } else {
           Table::row(828867600, -25200, 3600, "MDT")
          }
         } else {
          if i < 68 {
           Table::row(846403200, -25200, 0, "MST")
          } else {
           if i < 69 {
            Table::row(860317200, -25200, 3600, "MDT")
           } else {
            Table::row(877852800, -25200, 0, "MST")
           }
          }
         }
        } else {
         if i < 72 {
          if i < 71 {
           Table::row(891766800, -25200, 3600, "MDT")
          } else {
           Table::row(909302400, -25200, 0, "MST")
          }
         } else {
          if i < 73 {
           Table::row(923216400, -25200, 3600, "MDT")
          } else {
           if i < 74 {
            Table::row(941356800, -25200, 0, "MST")
           } else {
            Table::row(954666000, -25200, 3600, "MDT")
           }
          }
         }
        }
       }
      }
     }
    } else {
     if i < 112 {
      if i < 93 {
       if i < 84 {
        if i < 79 {
         if i < 77 {
          if i < 76 {
           Table::row(972806400, -25200, 0, "MST")
          } else {
           Table::row(986115600, -25200, 3600, "MDT")
          }
         } else {
          if i < 78 {
           Table::row(1004256000, -25200, 0, "MST")
          } else {
           Table::row(1018170000, -25200, 3600, "MDT")
          }
         }
        } else {
         if i < 81 {
          if i < 80 {
           Table::row(1035705600, -25200, 0, "MST")
          } else {
           Table::row(1049619600, -25200, 3600, "MDT")
          }
         } else {
          if i < 82 {
           Table::row(1067155200, -25200, 0, "MST")
          } else {
           if i < 83 {
            Table::row(1081069200, -25200, 3600, "MDT")
           } else {
            Table::row(1099209600, -25200, 0, "MST")
           }
          }
         }
        }
       } else {
        if i < 88 {
         if i < 86 {
          if i < 85 {
           Table::row(1112518800, -25200, 3600, "MDT")
          } else {
           Table::row(1130659200, -25200, 0, "MST")
          }
         } else {
          if i < 87 {
           Table::row(1143968400, -25200, 3600, "MDT")
          } else {
           Table::row(1162108800, -25200, 0, "MST")
          }
         }
        } else {
         if i < 90 {
          if i < 89 {
           Table::row(1173603600, -25200, 3600, "MDT")
          } else {
           Table::row(1194163200, -25200, 0, "MST")
          }
         } else {
          if i < 91 {
           Table::row(1205053200, -25200, 3600, "MDT")
          } else {
           if i < 92 {
            Table::row(1225612800, -25200, 0, "MST")
           } else {
            Table::row(1236502800, -25200, 3600, "MDT")
           }
          }
         }
        }
       }
      } else {
       if i < 102 {
        if i < 97 {
         if i < 95 {
          if i < 94 {
           Table::row(1257062400, -25200, 0, "MST")
          } else {
           Table::row(1268557200, -25200, 3600, "MDT")
          }
         } else {
          if i < 96 {
           Table::row(1289116800, -21600, 0, "CST")
          } else {
           Table::row(1300003200, -21600, 3600, "CDT")
          }
         }
        } else {
         if i < 99 {
          if i < 98 {
           Table::row(1320562800, -21600, 0, "CST")
          } else {
           Table::row(1331452800, -21600, 3600, "CDT")
          }
         } else {
          if i < 100 {
           Table::row(1352012400, -21600, 0, "CST")
          } else {
           if i < 101 {
            Table::row(1362902400, -21600, 3600, "CDT")
           } else {
            Table::row(1383462000, -21600, 0, "CST")
           }
          }
         }
        }
       } else {
        if i < 107 {
         if i < 104 {
          if i < 103 {
           Table::row(1394352000, -21600, 3600, "CDT")
          } else {
           Table::row(1414911600, -21600, 0, "CST")
          }
         } else {
          if i < 105 {
           Table::row(1425801600, -21600, 3600, "CDT")
          } else {
           if i < 106 {
            Table::row(1446361200, -21600, 0, "CST")
           } else {
            Table::row(1457856000, -21600, 3600, "CDT")
           }
          }
         }
        } else {
         if i < 109 {
          if i < 108 {
           Table::row(1478415600, -21600, 0, "CST")
          } else {
           Table::row(1489305600, -21600, 3600, "CDT")
          }
         } else {
          if i < 110 {
           Table::row(1509865200, -21600, 0, "CST")
          } else {
           if i < 111 {
            Table::row(1520755200, -21600, 3600, "CDT")
           } else {
            Table::row(1541314800, -21600, 0, "CST")
           }
          }
         }
        }
       }
      }
     } else {
      if i < 131 {
       if i < 121 {
        if i < 116 {
         if i < 114 {
          if i < 113 {
           Table::row(1552204800, -21600, 3600, "CDT")
          } else {
           Table::row(1572764400, -21600, 0, "CST")
          }
         } else {
          if i < 115 {
           Table::row(1583654400, -21600, 3600, "CDT")
          } else {
           Table::row(1604214000, -21600, 0, "CST")
          }
         }
        } else {
         if i < 118 {
          if i < 117 {
           Table::row(1615708800, -21600, 3600, "CDT")
          } else {
           Table::row(1636268400, -21600, 0, "CST")
          }
         } else {
          if i < 119 {
           Table::row(1647158400, -21600, 3600, "CDT")
          } else {
           if i < 120 {
            Table::row(1667718000, -21600, 0, "CST")
           } else {
            Table::row(1678608000, -21600, 3600, "CDT")
           }
          }
         }
        }
       } else {
        if i < 126 {
         if i < 123 {
          if i < 122 {
           Table::row(1699167600, -21600, 0, "CST")
          } else {
           Table::row(1710057600, -21600, 3600, "CDT")
          }
         } else {
          if i < 124 {
           Table::row(1730617200, -21600, 0, "CST")
          } else {
           if i < 125 {
            Table::row(1741507200, -21600, 3600, "CDT")
           } else {
            Table::row(1762066800, -21600, 0, "CST")
           }
          }
         }
        } else {
         if i < 128 {
          if i < 127 {
           Table::row(1772956800, -21600, 3600, "CDT")
          } else {
           Table::row(1793516400, -21600, 0, "CST")
          }
         } else {
          if i < 129 {
           Table::row(1805011200, -21600, 3600, "CDT")
          } else {
           if i < 130 {
            Table::row(1825570800, -21600, 0, "CST")
           } else {
            Table::row(1836460800, -21600, 3600, "CDT")
           }
          }
         }
        }
       }
      } else {
       if i < 140 {
        if i < 135 {
         if i < 133 {
          if i < 132 {
           Table::row(1857020400, -21600, 0, "CST")
          } else {
           Table::row(1867910400, -21600, 3600, "CDT")
          }
         } else {
          if i < 134 {
           Table::row(1888470000, -21600, 0, "CST")
          } else {
           Table::row(1899360000, -21600, 3600, "CDT")
          }
         }
        } else {
         if i < 137 {
          if i < 136 {
           Table::row(1919919600, -21600, 0, "CST")
          } else {
           Table::row(1930809600, -21600, 3600, "CDT")
          }
         } else {
          if i < 138 {
           Table::row(1951369200, -21600, 0, "CST")
          } else {
           if i < 139 {
            Table::row(1962864000, -21600, 3600, "CDT")
           } else {
            Table::row(1983423600, -21600, 0, "CST")
           }
          }
         }
        }
       } else {
        if i < 145 {
         if i < 142 {
          if i < 141 {
           Table::row(1994313600, -21600, 3600, "CDT")
          } else {
           Table::row(2014873200, -21600, 0, "CST")
          }
         } else {
          if i < 143 {
           Table::row(2025763200, -21600, 3600, "CDT")
          } else {
           if i < 144 {
            Table::row(2046322800, -21600, 0, "CST")
           } else {
            Table::row(2057212800, -21600, 3600, "CDT")
           }
          }
         }
        } else {
         if i < 147 {
          if i < 146 {
           Table::row(2077772400, -21600, 0, "CST")
          } else {
           Table::row(2088662400, -21600, 3600, "CDT")
          }
         } else {
          if i < 148 {
           Table::row(2109222000, -21600, 0, "CST")
          } else {
           if i < 149 {
            Table::row(2120112000, -21600, 3600, "CDT")
           } else {
            Table::row(2140671600, -21600, 0, "CST")
           }
          }
         }
        }
       }
      }
     }
    }
}

/// The rows of the table of the zone `America/North_Dakota/Beulah`.
pub open spec fn north_dakota_beulah_rows() -> spec_fn(int) -> (i64, FixedTimespan) {
    |i: int| north_dakota_beulah_row(i)
}

/// The table of the zone `America/North_Dakota/Beulah`.
pub open spec fn north_dakota_beulah() -> Table {
    Table::listed(Table::row(0, -24427, 0, "LMT").1, 150, north_dakota_beulah_rows())
}

/// Row `i` of the table of the zone `America/North_Dakota/Center`.
pub open spec fn north_dakota_center_row(i: int) -> (i64, FixedTimespan) {
    if i < 75 {
     if i < 37 {
      if i < 18 {
       if i < 9 {
        if i < 4 {
         if i < 2 {
          if i < 1 {
           Table::row(-2717643600, -25200, 0, "MST")
          } else {
           Table::row(-1633273200, -25200, 3600, "MDT")
          }
         } else {
          if i < 3 {
           Table::row(-1615132800, -25200, 0, "MST")
          } else {
           Table::row(-1601823600, -25200, 3600, "MDT")
          }
         }
        } else {
         if i < 6 {
          if i < 5 {
           Table::row(-1583683200, -25200, 0, "MST")
          } else {
           Table::row(-880210800, -25200, 3600, "MWT")
          }
         } else {
          if i < 7 {
           Table::row(-769395600, -25200, 3600, "MPT")
          } else {
           if i < 8 {
            Table::row(-765388800, -25200, 0, "MST")
           } else {
            Table::row(-84380400, -25200, 3600, "MDT")
           }
          }
         }
        }
       } else {
        if i < 13 {
         if i < 11 {
          if i < 10 {
           Table::row(-68659200, -25200, 0, "MST")
          } else {
           Table::row(-52930800, -25200, 3600, "MDT")
          }
         } else {
          if i < 12 {
           Table::row(-37209600, -25200, 0, "MST")
          } else {
           Table::row(-21481200, -25200, 3600, "MDT")
          }
         }
        } else {
         if i < 15 {
          if i < 14 {
           Table::row(-5760000, -25200, 0, "MST")
          } else {
           Table::row(9968400, -25200, 3600, "MDT")
          }
         } else {
          if i < 16 {
           Table::row(25689600, -25200, 0, "MST")
          } else {
           if i < 17 {
            Table::row(41418000, -25200, 3600, "MDT")
           } else {
            Table::row(57744000, -25200, 0, "MST")
           }
          }
         }
        }
       }
      } else {
       if i < 27 {
        if i < 22 {
         if i < 20 {
          if i < 19 {
           Table::row(73472400, -25200, 3600, "MDT")
          } else {
           Table::row(89193600, -25200, 0, "MST")
          }
         } else {
          if i < 21 {
           Table::row(104922000, -25200, 3600, "MDT")
          } else {
           Table::row(120643200, -25200, 0, "MST")
          }
         }
        } else {
         if i < 24 {
          if i < 23 {
           Table::row(126694800, -25200, 3600, "MDT")
          } else {
           Table::row(152092800, -25200, 0, "MST")
          }
         } else {
          if i < 25 {
           Table::row(162378000, -25200, 3600, "MDT")
          } else {
           if i < 26 {
            Table::row(183542400, -25200, 0, "MST")
           } else {
            Table::row(199270800, -25200, 3600, "MDT")
           }
          }
         }
        }
       } else {
        if i < 32 {
         if i < 29 {
          if i < 28 {
           Table::row(215596800, -25200, 0, "MST")
          } else {
           Table::row(230720400, -25200, 3600, "MDT")
          }
         } else {
          if i < 30 {
           Table::row(247046400, -25200, 0, "MST")
          } else {
           if i < 31 {
            Table::row(262774800, -25200, 3600, "MDT")
           } else {
            Table::row(278496000, -25200, 0, "MST")
           }
          }
         }
        } else {
         if i < 34 {
          if i < 33 {
           Table::row(294224400, -25200, 3600, "MDT")
          } else {
           Table::row(309945600, -25200, 0, "MST")
          }
         } else {
          if i < 35 {
           Table::row(325674000, -25200, 3600, "MDT")
          } else {
           if i < 36 {
            Table::row(341395200, -25200, 0, "MST")
           } else {
            Table::row(357123600, -25200, 3600, "MDT")
           }
          }
         }
        }
       }
      }
     } else {
      if i < 56 {
       if i < 46 {
        if i < 41 {
         if i < 39 {
          if i < 38 {
           Table::row(372844800, -25200, 0, "MST")
          } else {
           Table::row(388573200, -25200, 3600, "MDT")
          }
         } else {
          if i < 40 {
           Table::row(404899200, -25200, 0, "MST")
          } else {
           Table::row(420022800, -25200, 3600, "MDT")
          }
         }
        } else {
         if i < 43 {
          if i < 42 {
           Table::row(436348800, -25200, 0, "MST")
          } else {
           Table::row(452077200, -25200, 3600, "MDT")
          }
         } else {
          if i < 44 {
           Table::row(467798400, -25200, 0, "MST")
          } else {
           if i < 45 {
            Table::row(483526800, -25200, 3600, "MDT")
           } else {
            Table::row(499248000, -25200, 0, "MST")
           }
          }
         }
        }
       } else {
        if i < 51 {
         if i < 48 {
          if i < 47 {
           Table::row(514976400, -25200, 3600, "MDT")
          } else {
           Table::row(530697600, -25200, 0, "MST")
          }
         } else {
          if i < 49 {
           Table::row(544611600, -25200, 3600, "MDT")
          } else {
           if i < 50 {
            Table::row(562147200, -25200, 0, "MST")
           } else {
            Table::row(576061200, -25200, 3600, "MDT")
           }
          }
         }
        } else {
         if i < 53 {
          if i < 52 {
           Table::row(594201600, -25200, 0, "MST")
          } else {
           Table::row(607510800, -25200, 3600, "MDT")
          }
         } else {
          if i < 54 {
           Table::row(625651200, -25200, 0, "MST")
          } else {
           if i < 55 {
            Table::row(638960400, -25200, 3600, "MDT")
           } else {
            Table::row(657100800, -25200, 0, "MST")
           }
          }
         }
        }
       }
      } else {
       if i < 65 {
        if i < 60 {
         if i < 58 {
          if i < 57 {
           Table::row(671014800, -25200, 3600, "MDT")
          } else {
           Table::row(688550400, -25200, 0, "MST")
          }
         } else {
          if i < 59 {
           Table::row(702464400, -25200, 3600, "MDT")
          } else {
           Table::row(720000000, -21600, 0, "CST")
          }
         }
        } else {
         if i < 62 {
          if i < 61 {
           Table::row(733910400, -21600, 3600, "CDT")
          } else {
           Table::row(752050800, -21600, 0, "CST")
          }
         } else {
          if i < 63 {
           Table::row(765360000, -21600, 3600, "CDT")
          } else {
           if i < 64 {
            Table::row(783500400, -21600, 0, "CST")
           } else {
            Table::row(796809600, -21600, 3600, "CDT")
           }
          }
         }
        }
       } else {
        if i < 70 {
         if i < 67 {
          if i < 66 {
           Table::row(814950000, -21600, 0, "CST")
          } else {
           Table::row(828864000, -21600, 3600, "CDT")
          }
         } else {
          if i < 68 {
           Table::row(846399600, -21600, 0, "CST")
          } else {
           if i < 69 {
            Table::row(860313600, -21600, 3600, "CDT")
           } else {
            Table::row(877849200, -21600, 0, "CST")
           }
          }
         }
        } else {
         if i < 72 {
          if i < 71 {
           Table::row(891763200, -21600, 3600, "CDT")
          } else {
           Table::row(909298800, -21600, 0, "CST")
          }
         } else {
          if i < 73 {
           Table::row(923212800, -21600, 3600, "CDT")
          } else {
           if i < 74 {
            Table::row(941353200, -21600, 0, "CST")
           } else {
            Table::row(954662400, -21600, 3600, "CDT")
           }
          }
         }
        }
       }
      }
     }
    } else {
     if i < 112 {
      if i < 93 {
       if i < 84 {
        if i < 79 {
         if i < 77 {
          if i < 76 {
           Table::row(972802800, -21600, 0, "CST")
          } else {
           Table::row(986112000, -21600, 3600, "CDT")
          }
         } else {
          if i < 78 {
           Table::row(1004252400, -21600, 0, "CST")
          } else {
           Table::row(1018166400, -21600, 3600, "CDT")
          }
         }
        } else {
         if i < 81 {
          if i < 80 {
           Table::row(1035702000, -21600, 0, "CST")
          } else {
           Table::row(1049616000, -21600, 3600, "CDT")
          }
         } else {
          if i < 82 {
           Table::row(1067151600, -21600, 0, "CST")
          } else {
           if i < 83 {
            Table::row(1081065600, -21600, 3600, "CDT")
           } else {
            Table::row(1099206000, -21600, 0, "CST")
           }
          }
         }
        }
       } else {
        if i < 88 {
         if i < 86 {
          if i < 85 {
           Table::row(1112515200, -21600, 3600, "CDT")
          } else {
           Table::row(1130655600, -21600, 0, "CST")
          }
         } else {
          if i < 87 {
           Table::row(1143964800, -21600, 3600, "CDT")
          } else {
           Table::row(1162105200, -21600, 0, "CST")
          }
         }
        } else {
         if i < 90 {
          if i < 89 {
           Table::row(1173600000, -21600, 3600, "CDT")
          } else {
           Table::row(1194159600, -21600, 0, "CST")
          }
         } else {
          if i < 91 {
           Table::row(1205049600, -21600, 3600, "CDT")
          } else {
           if i < 92 {
            Table::row(1225609200, -21600, 0, "CST")
           } else {
            Table::row(1236499200, -21600, 3600, "CDT")
           }
          }
         }
        }
       }
      } else {
       if i < 102 {
        if i < 97 {
         if i < 95 {
          if i < 94 {
           Table::row(1257058800, -21600, 0, "CST")
          } else {
           Table::row(1268553600, -21600, 3600, "CDT")
          }
         } else {
          if i < 96 {
           Table::row(1289113200, -21600, 0, "CST")
          } else {
           Table::row(1300003200, -21600, 3600, "CDT")
          }
         }
        } else {
         if i < 99 {
          if i < 98 {
           Table::row(1320562800, -21600, 0, "CST")
          } else {
           Table::row(1331452800, -21600, 3600, "CDT")
          }
         } else {
          if i < 100 {
           Table::row(1352012400, -21600, 0, "CST")
          } else {
           if i < 101 {
            Table::row(1362902400, -21600, 3600, "CDT")
           } else {
            Table::row(1383462000, -21600, 0, "CST")
           }
          }
         }
        }
       } else {
        if i < 107 {
         if i < 104 {
          if i < 103 {
           Table::row(1394352000, -21600, 3600, "CDT")
          } else {
           Table::row(1414911600, -21600, 0, "CST")
          }
         } else {
          if i < 105 {
           Table::row(1425801600, -21600, 3600, "CDT")
          } else {
           if i < 106 {
            Table::row(1446361200, -21600, 0, "CST")
           } else {
            Table::row(1457856000, -21600, 3600, "CDT")
           }
          }
         }
        } else {
         if i < 109 {
          if i < 108 {
           Table::row(1478415600, -21600, 0, "CST")
          } else {
           Table::row(1489305600, -21600, 3600, "CDT")
          }
         } else {
          if i < 110 {
           Table::row(1509865200, -21600, 0, "CST")
          } else {
           if i < 111 {
            Table::row(1520755200, -21600, 3600, "CDT")
           } else {
            Table::row(1541314800, -21600, 0, "CST")
           }
          }
         }
        }
       }
      }
     } else {
      if i < 131 {
       if i < 121 {
        if i < 116 {
         if i < 114 {
          if i < 113 {
           Table::row(1552204800, -21600, 3600, "CDT")
          } else {
           Table::row(1572764400, -21600, 0, "CST")
          }
         } else {
          if i < 115 {
           Table::row(1583654400, -21600, 3600, "CDT")
          } else {
           Table::row(1604214000, -21600, 0, "CST")
          }
         }
        } else {
         if i < 118 {
          if i < 117 {
           Table::row(1615708800, -21600, 3600, "CDT")
          } else {
           Table::row(1636268400, -21600, 0, "CST")
          }
         } else {
          if i < 119 {
           Table::row(1647158400, -21600, 3600, "CDT")
          } else {
           if i < 120 {
            Table::row(1667718000, -21600, 0, "CST")
           } else {
            Table::row(1678608000, -21600, 3600, "CDT")
           }
          }
         }
        }
       } else {
        if i < 126 {
         if i < 123 {
          if i < 122 {
           Table::row(1699167600, -21600, 0, "CST")
          } else {
           Table::row(1710057600, -21600, 3600, "CDT")
          }
         } else {
          if i < 124 {
           Table::row(1730617200, -21600, 0, "CST")
          } else {
           if i < 125 {
            Table::row(1741507200, -21600, 3600, "CDT")
           } else {
            Table::row(1762066800, -21600, 0, "CST")
           }
          }
         }
        } else {
         if i < 128 {
          if i < 127 {
           Table::row(1772956800, -21600, 3600, "CDT")
          } else {
           Table::row(1793516400, -21600, 0, "CST")
          }
         } else {
          if i < 129 {
           Table::row(1805011200, -21600, 3600, "CDT")
          } else {
           if i < 130 {
            Table::row(1825570800, -21600, 0, "CST")
           } else {
            Table::row(1836460800, -21600, 3600, "CDT")
           }
          }
         }
        }
       }
      } else {
       if i < 140 {
        if i < 135 {
         if i < 133 {
          if i < 132 {
           Table::row(1857020400, -21600, 0, "CST")
          } else {
           Table::row(1867910400, -21600, 3600, "CDT")
          }
         } else {
          if i < 134 {
           Table::row(1888470000, -21600, 0, "CST")
          } else {
           Table::row(1899360000, -21600, 3600, "CDT")
          }
         }
        } else {
         if i < 137 {
          if i < 136 {
           Table::row(1919919600, -21600, 0, "CST")
          } else {
           Table::row(1930809600, -21600, 3600, "CDT")
          }
         } else {
          if i < 138 {
           Table::row(1951369200, -21600, 0, "CST")
          } else {
           if i < 139 {
            Table::row(1962864000, -21600, 3600, "CDT")
           } else {
            Table::row(1983423600, -21600, 0, "CST")
           }
          }
         }
        }
       } else {
        if i < 145 {
         if i < 142 {
          if i < 141 {
           Table::row(1994313600, -21600, 3600, "CDT")
          } else {
           Table::row(2014873200, -21600, 0, "CST")
          }
         } else {
          if i < 143 {
           Table::row(2025763200, -21600, 3600, "CDT")
          } else {
           if i < 144 {
            Table::row(2046322800, -21600, 0, "CST")
           } else {
            Table::row(2057212800, -21600, 3600, "CDT")
           }
          }
         }
        } else {
         if i < 147 {
          if i < 146 {
           Table::row(2077772400, -21600, 0, "CST")
          } else {
           Table::row(2088662400, -21600, 3600, "CDT")
          }
         } else {
          if i < 148 {
           Table::row(2109222000, -21600, 0, "CST")
          } else {
           if i < 149 {
            Table::row(2120112000, -21600, 3600, "CDT")
           } else {
            Table::row(2140671600, -21600, 0, "CST")
           }
          }
         }
        }
       }
      }
     }
    }
}

/// The rows of the table of the zone `America/North_Dakota/Center`.
pub open spec fn north_dakota_center_rows() -> spec_fn(int) -> (i64, FixedTimespan) {
    |i: int| north_dakota_center_row(i)
}

/// The table of the zone `America/North_Dakota/Center`.
pub open spec fn north_dakota_center() -> Table {
    Table::listed(Table::row(0, -24312, 0, "LMT").1, 150, north_dakota_center_rows())
}

/// Row `i` of the table of the zone `America/North_Dakota/New_Salem`.
pub open spec fn north_dakota_new_salem_row(i: int) -> (i64, FixedTimespan) {
    if i < 75 {
     if i < 37 {
      if i < 18 {
       if i < 9 {
        if i < 4 {
         if i < 2 {
          if i < 1 {
           Table::row(-2717643600, -25200, 0, "MST")
          } else {
           Table::row(-1633273200, -25200, 3600, "MDT")
          }
         } else {
          if i < 3 {
           Table::row(-1615132800, -25200, 0, "MST")
          } else {
           Table::row(-1601823600, -25200, 3600, "MDT")
          }
         }
        } else {
         if i < 6 {
          if i < 5 {
           Table::row(-1583683200, -25200, 0, "MST")
          } else {
           Table::row(-880210800, -25200, 3600, "MWT")
          }
         } else {
          if i < 7 {
           Table::row(-769395600, -25200, 3600, "MPT")
          } else {
           if i < 8 {
            Table::row(-765388800, -25200, 0, "MST")
           } else {
            Table::row(-84380400, -25200, 3600, "MDT")
           }
          }
         }
        }
       } else {
        if i < 13 {
         if i < 11 {
          if i < 10 {
           Table::row(-68659200, -25200, 0, "MST")
          } else {
           Table::row(-52930800, -25200, 3600, "MDT")
          }
         } else {
          if i < 12 {
           Table::row(-37209600, -25200, 0, "MST")
          } else {
           Table::row(-21481200, -25200, 3600, "MDT")
          }
         }
        } else {
         if i < 15 {
          if i < 14 {
           Table::row(-5760000, -25200, 0, "MST")
          } else {
           Table::row(9968400, -25200, 3600, "MDT")
          }
         } else {
          if i < 16 {
           Table::row(25689600, -25200, 0, "MST")
          } else {
           if i < 17 {
            Table::row(41418000, -25200, 3600, "MDT")
           } else {
            Table::row(57744000, -25200, 0, "MST")
           }
          }
         }
        }
       }
      } else {
       if i < 27 {
        if i < 22 {
         if i < 20 {
          if i < 19 {
           Table::row(73472400, -25200, 3600, "MDT")
          } else {
           Table::row(89193600, -25200, 0, "MST")
          }
         } else {
          if i < 21 {
           Table::row(104922000, -25200, 3600, "MDT")
          } else {
           Table::row(120643200, -25200, 0, "MST")
          }
         }
        } else {
         if i < 24 {
          if i < 23 {
           Table::row(126694800, -25200, 3600, "MDT")
          } else {
           Table::row(152092800, -25200, 0, "MST")
          }
         } else {
          if i < 25 {
           Table::row(162378000, -25200, 3600, "MDT")
          } else {
           if i < 26 {
            Table::row(183542400, -25200, 0, "MST")
           } else {
            Table::row(199270800, -25200, 3600, "MDT")
           }
          }
         }
        }
       } else {
        if i < 32 {
         if i < 29 {
          if i < 28 {
           Table::row(215596800, -25200, 0, "MST")
          } else {
           Table::row(230720400, -25200, 3600, "MDT")
          }
         } else {
          if i < 30 {
           Table::row(247046400, -25200, 0, "MST")
          } else {
           if i < 31 {
            Table::row(262774800, -25200, 3600, "MDT")
           } else {
            Table::row(278496000, -25200, 0, "MST")
           }
          }
         }
        } else {
         if i < 34 {
          if i < 33 {
           Table::row(294224400, -25200, 3600, "MDT")
          } else {
           Table::row(309945600, -25200, 0, "MST")
          }
         } else {
          if i < 35 {
           Table::row(325674000, -25200, 3600, "MDT")
          } else {
           if i < 36 {
            Table::row(341395200, -25200, 0, "MST")
           } else {
            Table::row(357123600, -25200, 3600, "MDT")
           }
          }
         }
        }
       }
      }
     } else {
      if i < 56 {
       if i < 46 {
        if i < 41 {
         if i < 39 {
          if i < 38 {
           Table::row(372844800, -25200, 0, "MST")
          } else {
           Table::row(388573200, -25200, 3600, "MDT")
          }
         } else {
          if i < 40 {
           Table::row(404899200, -25200, 0, "MST")
          } else {
           Table::row(420022800, -25200, 3600, "MDT")
          }
         }
        } else {
         if i < 43 {
          if i < 42 {
           Table::row(436348800, -25200, 0, "MST")
          } else {
           Table::row(452077200, -25200, 3600, "MDT")
          }
         } else {
          if i < 44 {
           Table::row(467798400, -25200, 0, "MST")
          } else {
           if i < 45 {
            Table::row(483526800, -25200, 3600, "MDT")
           } else {
            Table::row(499248000, -25200, 0, "MST")
           }
          }
         }
        }
       } else {
        if i < 51 {
         if i < 48 {
          if i < 47 {
           Table::row(514976400, -25200, 3600, "MDT")
          } else {
           Table::row(530697600, -25200, 0, "MST")
          }
         } else {
          if i < 49 {
           Table::row(544611600, -25200, 3600, "MDT")
          } else {
           if i < 50 {
            Table::row(562147200, -25200, 0, "MST")
           } else {
            Table::row(576061200, -25200, 3600, "MDT")
           }
          }
         }
        } else {
         if i < 53 {
          if i < 52 {
           Table::row(594201600, -25200, 0, "MST")
          } else {
           Table::row(607510800, -25200, 3600, "MDT")
          }
         } else {
          if i < 54 {
           Table::row(625651200, -25200, 0, "MST")
          } else {
           if i < 55 {
            Table::row(638960400, -25200, 3600, "MDT")
           } else {
            Table::row(657100800, -25200, 0, "MST")
           }
          }
         }
        }
       }
      } else {
       if i < 65 {
        if i < 60 {
         if i < 58 {
          if i < 57 {
           Table::row(671014800, -25200, 3600, "MDT")
          } else {
           Table::row(688550400, -25200, 0, "MST")
          }
         } else {
          if i < 59 {
           Table::row(702464400, -25200, 3600, "MDT")
          } else {
           Table::row(720000000, -25200, 0, "MST")
          }
         }
        } else {
         if i < 62 {
          if i < 61 {
           Table::row(733914000, -25200, 3600, "MDT")
          } else {
           Table::row(752054400, -25200, 0, "MST")
          }
         } else {
          if i < 63 {
           Table::row(765363600, -25200, 3600, "MDT")
          } else {
           if i < 64 {
            Table::row(783504000, -25200, 0, "MST")
           } else {
            Table::row(796813200, -25200, 3600, "MDT")
           }
          }
         }
        }
       } else {
        if i < 70 {
         if i < 67 {
          if i < 66 {
           Table::row(814953600, -25200, 0, "MST")
          } else {
           Table::row(828867600, -25200, 3600, "MDT")
          }
         } else {
          if i < 68 {
           Table::row(846403200, -25200, 0, "MST")
          } else {
           if i < 69 {
            Table::row(860317200, -25200, 3600, "MDT")
           } else {
            Table::row(877852800, -25200, 0, "MST")
           }
          }
         }
        } else {
         if i < 72 {
          if i < 71 {
           Table::row(891766800, -25200, 3600, "MDT")
          } else {
           Table::row(909302400, -25200, 0, "MST")
          }
         } else {
          if i < 73 {
           Table::row(923216400, -25200, 3600, "MDT")
          } else {
           if i < 74 {
            Table::row(941356800, -25200, 0, "MST")
           } else {
            Table::row(954666000, -25200, 3600, "MDT")
           }
          }
         }
        }
       }
      }
     }
    } else {
     if i < 112 {
      if i < 93 {
       if i < 84 {
        if i < 79 {
         if i < 77 {
          if i < 76 {
           Table::row(972806400, -25200, 0, "MST")
          } else {
           Table::row(986115600, -25200, 3600, "MDT")
          }
         } else {
          if i < 78 {
           Table::row(1004256000, -25200, 0, "MST")
          } else {
           Table::row(1018170000, -25200, 3600, "MDT")
          }
         }
        } else {
         if i < 81 {
          if i < 80 {
           Table::row(1035705600, -25200, 0, "MST")
          } else {
           Table::row(1049619600, -25200, 3600, "MDT")
          }
         } else {
          if i < 82 {
           Table::row(1067155200, -21600, 0, "CST")
          } else {
           if i < 83 {
            Table::row(1081065600, -21600, 3600, "CDT")
           } else {
            Table::row(1099206000, -21600, 0, "CST")
           }
          }
         }
        }
       } else {
        if i < 88 {
         if i < 86 {
          if i < 85 {
           Table::row(1112515200, -21600, 3600, "CDT")
          } else {
           Table::row(1130655600, -21600, 0, "CST")
          }
         } else {
          if i < 87 {
           Table::row(1143964800, -21600, 3600, "CDT")
          } else {
           Table::row(1162105200, -21600, 0, "CST")
          }
         }
        } else {
         if i < 90 {
          if i < 89 {
           Table::row(1173600000, -21600, 3600, "CDT")
          } else {
           Table::row(1194159600, -21600, 0, "CST")
          }
         } else {
          if i < 91 {
           Table::row(1205049600, -21600, 3600, "CDT")
          } else {
           if i < 92 {
            Table::row(1225609200, -21600, 0, "CST")
           } else {
            Table::row(1236499200, -21600, 3600, "CDT")
           }
          }
         }
        }
       }
      } else {
       if i < 102 {
        if i < 97 {
         if i < 95 {
          if i < 94 {
           Table::row(1257058800, -21600, 0, "CST")
          } else {
           Table::row(1268553600, -21600, 3600, "CDT")
          }
         } else {
          if i < 96 {
           Table::row(1289113200, -21600, 0, "CST")
          } else {
           Table::row(1300003200, -21600, 3600, "CDT")
          }
         }
        } else {
         if i < 99 {
          if i < 98 {
           Table::row(1320562800, -21600, 0, "CST")
          } else {
           Table::row(1331452800, -21600, 3600, "CDT")
          }
         } else {
          if i < 100 {
           Table::row(1352012400, -21600, 0, "CST")
          } else {
           if i < 101 {
            Table::row(1362902400, -21600, 3600, "CDT")
           } else {
            Table::row(1383462000, -21600, 0, "CST")
           }
          }
         }
        }
       } else {
        if i < 107 {
         if i < 104 {
          if i < 103 {
           Table::row(1394352000, -21600, 3600, "CDT")
          } else {
           Table::row(1414911600, -21600, 0, "CST")
          }
         } else {
          if i < 105 {
           Table::row(1425801600, -21600, 3600, "CDT")
          } else {
           if i < 106 {
            Table::row(1446361200, -21600, 0, "CST")
           } else {
            Table::row(1457856000, -21600, 3600, "CDT")
           }
          }
         }
        } else {
         if i < 109 {
          if i < 108 {
           Table::row(1478415600, -21600, 0, "CST")
          } else {
           Table::row(1489305600, -21600, 3600, "CDT")
          }
         } else {
          if i < 110 {
           Table::row(1509865200, -21600, 0, "CST")
          } else {
           if i < 111 {
            Table::row(1520755200, -21600, 3600, "CDT")
           } else {
            Table::row(1541314800, -21600, 0, "CST")
           }
          }
         }
        }
       }
      }
     } else {
      if i < 131 {
       if i < 121 {
        if i < 116 {
         if i < 114 {
          if i < 113 {
           Table::row(1552204800, -21600, 3600, "CDT")
          } else {
           Table::row(1572764400, -21600, 0, "CST")
          }
         } else {
          if i < 115 {
           Table::row(1583654400, -21600, 3600, "CDT")
          } else {
           Table::row(1604214000, -21600, 0, "CST")
          }
         }
        } else {
         if i < 118 {
          if i < 117 {
           Table::row(1615708800, -21600, 3600, "CDT")
          } else {
           Table::row(1636268400, -21600, 0, "CST")
          }
         } else {
          if i < 119 {
           Table::row(1647158400, -21600, 3600, "CDT")
          } else {
           if i < 120 {
            Table::row(1667718000, -21600, 0, "CST")
           } else {
            Table::row(1678608000, -21600, 3600, "CDT")
           }
          }
         }
        }
       } else {
        if i < 126 {
         if i < 123 {
          if i < 122 {
           Table::row(1699167600, -21600, 0, "CST")
          } else {
           Table::row(1710057600, -21600, 3600, "CDT")
          }
         } else {
          if i < 124 {
           Table::row(1730617200, -21600, 0, "CST")
          } else {
           if i < 125 {
            Table::row(1741507200, -21600, 3600, "CDT")
           } else {
            Table::row(1762066800, -21600, 0, "CST")
           }
          }
         }
        } else {
         if i < 128 {
          if i < 127 {
           Table::row(1772956800, -21600, 3600, "CDT")
          } else {
           Table::row(1793516400, -21600, 0, "CST")
          }
         } else {
          if i < 129 {
           Table::row(1805011200, -21600, 3600, "CDT")
          } else {
           if i < 130 {
            Table::row(1825570800, -21600, 0, "CST")
           } else {
            Table::row(1836460800, -21600, 3600, "CDT")
           }
          }
         }
        }
       }
      } else {
       if i < 140 {
        if i < 135 {
         if i < 133 {
          if i < 132 {
           Table::row(1857020400, -21600, 0, "CST")
          } else {
           Table::row(1867910400, -21600, 3600, "CDT")
          }
         } else {
          if i < 134 {
           Table::row(1888470000, -21600, 0, "CST")
          } else {
           Table::row(1899360000, -21600, 3600, "CDT")
          }
         }
        } else {
         if i < 137 {
          if i < 136 {
           Table::row(1919919600, -21600, 0, "CST")
          } else {
           Table::row(1930809600, -21600, 3600, "CDT")
          }
         } else {
          if i < 138 {
           Table::row(1951369200, -21600, 0, "CST")
          } else {
           if i < 139 {
            Table::row(1962864000, -21600, 3600, "CDT")
           } else {
            Table::row(1983423600, -21600, 0, "CST")
           }
          }
         }
        }
       } else {
        if i < 145 {
         if i < 142 {
          if i < 141 {
           Table::row(1994313600, -21600, 3600, "CDT")
          } else {
           Table::row(2014873200, -21600, 0, "CST")
          }
         } else {
          if i < 143 {
           Table::row(2025763200, -21600, 3600, "CDT")
          } else {
           if i < 144 {
            Table::row(2046322800, -21600, 0, "CST")
           } else {
            Table::row(2057212800, -21600, 3600, "CDT")
           }
          }
         }
        } else {
         if i < 147 {
          if i < 146 {
           Table::row(2077772400, -21600, 0, "CST")
          } else {
           Table::row(2088662400, -21600, 3600, "CDT")
          }
         } else {
          if i < 148 {
           Table::row(2109222000, -21600, 0, "CST")
          } else {
           if i < 149 {
            Table::row(2120112000, -21600, 3600, "CDT")
           } else {
            Table::row(2140671600, -21600, 0, "CST")
           }
          }
         }
        }
       }
      }
     }
    }
}

/// The rows of the table of the zone `America/North_Dakota/New_Salem`.
pub open spec fn north_dakota_new_salem_rows() -> spec_fn(int) -> (i64, FixedTimespan) {
    |i: int| north_dakota_new_salem_row(i)
}

/// The table of the zone `America/North_Dakota/New_Salem`.
pub open spec fn north_dakota_new_salem() -> Table {
    Table::listed(Table::row(0, -24339, 0, "LMT").1, 150, north_dakota_new_salem_rows())
}

/// Row `i` of the table of the zone `America/Nuuk`.
pub open spec fn nuuk_row(i: int) -> (i64, FixedTimespan) {
    if i < 58 {
     if i < 29 {
      if i < 14 {
       if i < 7 {
        if i < 3 {
         if i < 1 {
          Table::row(-1686083584, -10800, 0, "-03")
         } else {
          if i < 2 {
           Table::row(323845200, -10800, 3600, "-02")
          } else {
           Table::row(338950800, -10800, 0, "-03")
          }
         }
        } else {
         if i < 5 {
          if i < 4 {
           Table::row(354675600, -10800, 3600, "-02")
          } else {
           Table::row(370400400, -10800, 0, "-03")
          }
         } else {
          if i < 6 {
           Table::row(386125200, -10800, 3600, "-02")
          } else {
           Table::row(401850000, -10800, 0, "-03")
          }
         }
        }
       } else {
        if i < 10 {
         if i < 8 {
          Table::row(417574800, -10800, 3600, "-02")
         } else {
          if i < 9 {
           Table::row(433299600, -10800, 0, "-03")
          } else {
           Table::row(449024400, -10800, 3600, "-02")
          }
         }
        } else {
         if i < 12 {
          if i < 11 {
           Table::row(465354000, -10800, 0, "-03")
          } else {
           Table::row(481078800, -10800, 3600, "-02")
          }
         } else {
          if i < 13 {
           Table::row(496803600, -10800, 0, "-03")
          } else {
           Table::row(512528400, -10800, 3600, "-02")
          }
         }
        }
       }
      } else {
       if i < 21 {
        if i < 17 {
         if i < 15 {
          Table::row(528253200, -10800, 0, "-03")
         } else {
          if i < 16 {
           Table::row(543978000, -10800, 3600, "-02")
          } else {
           Table::row(559702800, -10800, 0, "-03")
          }
         }
        } else {
         if i < 19 {
          if i < 18 {
           Table::row(575427600, -10800, 3600, "-02")
          } else {
           Table::row(591152400, -10800, 0, "-03")
          }
         } else {
          if i < 20 {
           Table::row(606877200, -10800, 3600, "-02")
          } else {
           Table::row(622602000, -10800, 0, "-03")
          }
         }
        }
       } else {
        if i < 25 {
         if i < 23 {
          if i < 22 {
           Table::row(638326800, -10800, 3600, "-02")
          } else {
           Table::row(654656400, -10800, 0, "-03")
          }
         } else {
          if i < 24 {
           Table::row(670381200, -10800, 3600, "-02")
          } else {
           Table::row(686106000, -10800, 0, "-03")
          }
         }
        } else {
         if i < 27 {
          if i < 26 {
           Table::row(701830800, -10800, 3600, "-02")
          } else {
           Table::row(717555600, -10800, 0, "-03")
          }
         } else {
          if i < 28 {
           Table::row(733280400, -10800, 3600, "-02")
          } else {
           Table::row(749005200, -10800, 0, "-03")
          }
         }
        }
       }
      }
     } else {
      if i < 43 {
       if i < 36 {
        if i < 32 {
         if i < 30 {
          Table::row(764730000, -10800, 3600, "-02")
         } else {
          if i < 31 {
           Table::row(780454800, -10800, 0, "-03")
          } else {
           Table::row(796179600, -10800, 3600, "-02")
          }
         }
        } else {
         if i < 34 {
          if i < 33 {
           Table::row(811904400, -10800, 0, "-03")
          } else {
           Table::row(828234000, -10800, 3600, "-02")
          }
         } else {
          if i < 35 {
           Table::row(846378000, -10800, 0, "-03")
          } else {
           Table::row(859683600, -10800, 3600, "-02")
          }
         }
        }
       } else {
        if i < 39 {
         if i < 37 {
          Table::row(877827600, -10800, 0, "-03")
         } else {
          if i < 38 {
           Table::row(891133200, -10800, 3600, "-02")
          } else {
           Table::row(909277200, -10800, 0, "-03")
          }
         }
        } else {
         if i < 41 {
          if i < 40 {
           Table::row(922582800, -10800, 3600, "-02")
          } else {
           Table::row(941331600, -10800, 0, "-03")
          }
         } else {
          if i < 42 {
           Table::row(954032400, -10800, 3600, "-02")
          } else {
           Table::row(972781200, -10800, 0, "-03")
          }
         }
        }
       }
      } else {
       if i < 50 {
        if i < 46 {
         if i < 44 {
          Table::row(985482000, -10800, 3600, "-02")
         } else {
          if i < 45 {
           Table::row(1004230800, -10800, 0, "-03")
          } else {
           Table::row(1017536400, -10800, 3600, "-02")
          }
         }
        } else {
         if i < 48 {
          if i < 47 {
           Table::row(1035680400, -10800, 0, "-03")
          } else {
           Table::row(1048986000, -10800, 3600, "-02")
          }
         } else {
          if i < 49 {
           Table::row(1067130000, -10800, 0, "-03")
          } else {
           Table::row(1080435600, -10800, 3600, "-02")
          }
         }
        }
       } else {
        if i < 54 {
         if i < 52 {
          if i < 51 {
           Table::row(1099184400, -10800, 0, "-03")
          } else {
           Table::row(1111885200, -10800, 3600, "-02")
          }
         } else {
          if i < 53 {
           Table::row(1130634000, -10800, 0, "-03")
          } else {
           Table::row(1143334800, -10800, 3600, "-02")
          }
         }
        } else {
         if i < 56 {
          if i < 55 {
           Table::row(1162083600, -10800, 0, "-03")
          } else {
           Table::row(1174784400, -10800, 3600, "-02")
          }
         } else {
          if i < 57 {
           Table::row(1193533200, -10800, 0, "-03")
          } else {
           Table::row(1206838800, -10800, 3600, "-02")
          }
         }
        }
       }
      }
     }
    } else {
     if i < 87 {
      if i < 72 {
       if i < 65 {
        if i < 61 {
         if i < 59 {
          Table::row(1224982800, -10800, 0, "-03")
         } else {
          if i < 60 {
           Table::row(1238288400, -10800, 3600, "-02")
          } else {
           Table::row(1256432400, -10800, 0, "-03")
          }
         }
        } else {
         if i < 63 {
          if i < 62 {
           Table::row(1269738000, -10800, 3600, "-02")
          } else {
           Table::row(1288486800, -10800, 0, "-03")
          }
         } else {
          if i < 64 {
           Table::row(1301187600, -10800, 3600, "-02")
          } else {
           Table::row(1319936400, -10800, 0, "-03")
          }
         }
        }
       } else {
        if i < 68 {
         if i < 66 {
          Table::row(1332637200, -10800, 3600, "-02")
         } else {
          if i < 67 {
           Table::row(1351386000, -10800, 0, "-03")
          } else {
           Table::row(1364691600, -10800, 3600, "-02")
          }
         }
        } else {
         if i < 70 {
          if i < 69 {
           Table::row(1382835600, -10800, 0, "-03")
          } else {
           Table::row(1396141200, -10800, 3600, "-02")
          }
         } else {
          if i < 71 {
           Table::row(1414285200, -10800, 0, "-03")
          } else {
           Table::row(1427590800, -10800, 3600, "-02")
          }
         }
        }
       }
      } else {
       if i < 79 {
        if i < 75 {
         if i < 73 {
          Table::row(1445734800, -10800, 0, "-03")
         } else {
          if i < 74 {
           Table::row(1459040400, -10800, 3600, "-02")
          } else {
           Table::row(1477789200, -10800, 0, "-03")
          }
         }
        } else {
         if i < 77 {
          if i < 76 {
           Table::row(1490490000, -10800, 3600, "-02")
          } else {
           Table::row(1509238800, -10800, 0, "-03")
          }
         } else {
          if i < 78 {
           Table::row(1521939600, -10800, 3600, "-02")
          } else {
           Table::row(1540688400, -10800, 0, "-03")
          }
         }
        }
       } else {
        if i < 83 {
         if i < 81 {
          if i < 80 {
           Table::row(1553994000, -10800, 3600, "-02")
          } else {
           Table::row(1572138000, -10800, 0, "-03")
          }
         } else {
          if i < 82 {
           Table::row(1585443600, -10800, 3600, "-02")
          } else {
           Table::row(1603587600, -10800, 0, "-03")
          }
         }
        } else {
         if i < 85 {
          if i < 84 {
           Table::row(1616893200, -10800, 3600, "-02")
          } else {
           Table::row(1635642000, -10800, 0, "-03")
          }
         } else {
          if i < 86 {
           Table::row(1648342800, -10800, 3600, "-02")
          } else {
           Table::row(1667091600, -10800, 0, "-03")
          }
         }
        }
       }
      }
     } else {
      if i < 102 {
       if i < 94 {
        if i < 90 {
         if i < 88 {
          Table::row(1679792400, -7200, 0, "-02")
         } else {
          if i < 89 {
           Table::row(1711846800, -7200, 3600, "-01")
          } else {
           Table::row(1729990800, -7200, 0, "-02")
          }
         }
        } else {
         if i < 92 {
          if i < 91 {
           Table::row(1743296400, -7200, 3600, "-01")
          } else {
           Table::row(1761440400, -7200, 0, "-02")
          }
         } else {
          if i < 93 {
           Table::row(1774746000, -7200, 3600, "-01")
          } else {
           Table::row(1792890000, -7200, 0, "-02")
          }
         }
        }
       } else {
        if i < 98 {
         if i < 96 {
          if i < 95 {
           Table::row(1806195600, -7200, 3600, "-01")
          } else {
           Table::row(1824944400, -7200, 0, "-02")
          }
         } else {
          if i < 97 {
           Table::row(1837645200, -7200, 3600, "-01")
          } else {
           Table::row(1856394000, -7200, 0, "-02")
          }
         }
        } else {
         if i < 100 {
          if i < 99 {
           Table::row(1869094800, -7200, 3600, "-01")
          } else {
           Table::row(1887843600, -7200, 0, "-02")
          }
         } else {
          if i < 101 {
           Table::row(1901149200, -7200, 3600, "-01")
          } else {
           Table::row(1919293200, -7200, 0, "-02")
          }
         }
        }
       }
      } else {
       if i < 109 {
        if i < 105 {
         if i < 103 {
          Table::row(1932598800, -7200, 3600, "-01")
         } else {
          if i < 104 {
           Table::row(1950742800, -7200, 0, "-02")
          } else {
           Table::row(1964048400, -7200, 3600, "-01")
          }
         }
        } else {
         if i < 107 {
          if i < 106 {
           Table::row(1982797200, -7200, 0, "-02")
          } else {
           Table::row(1995498000, -7200, 3600, "-01")
          }
         } else {
          if i < 108 {
           Table::row(2014246800, -7200, 0, "-02")
          } else {
           Table::row(2026947600, -7200, 3600, "-01")
          }
         }
        }
       } else {
        if i < 113 {
         if i < 111 {
          if i < 110 {
           Table::row(2045696400, -7200, 0, "-02")
          } else {
           Table::row(2058397200, -7200, 3600, "-01")
          }
         } else {
          if i < 112 {
           Table::row(2077146000, -7200, 0, "-02")
          } else {
           Table::row(2090451600, -7200, 3600, "-01")
          }
         }
        } else {
         if i < 115 {
          if i < 114 {
           Table::row(2108595600, -7200, 0, "-02")
          } else {
           Table::row(2121901200, -7200, 3600, "-01")
          }
         } else {
          if i < 116 {
           Table::row(2140045200, -7200, 0, "-02")
          } else {
           Table::row(2147483647, -7200, 0, "-02")
          }
         }
        }
       }
      }
     }
    }
}

/// The rows of the table of the zone `America/Nuuk`.
pub open spec fn nuuk_rows() -> spec_fn(int) -> (i64, FixedTimespan) {
    |i: int| nuuk_row(i)
}

/// The table of the zone `America/Nuuk`.
pub open spec fn nuuk() -> Table {
    Table::listed(Table::row(0, -12416, 0, "LMT").1, 117, nuuk_rows())
}

/// Row `i` of the table of the zone `America/Ojinaga`.
pub open spec fn ojinaga_row(i: int) -> (i64, FixedTimespan) {
    if i < 45 {
     if i < 22 {
      if i < 11 {
       if i < 5 {
        if i < 2 {
         if i < 1 {
          Table::row(-1514739600, -25200, 0, "MST")
         } else {
          Table::row(-1343149200, -21600, 0, "CST")
         }
        } else {
         if i < 3 {
          Table::row(-1234807200, -25200, 0, "MST")
         } else {
          if i < 4 {
           Table::row(-1220461200, -25200, 3600, "MDT")
          } else {
           Table::row(-1207159200, -25200, 0, "MST")
          }
         }
        }
       } else {
        if i < 8 {
         if i < 6 {
          Table::row(-1191344400, -21600, 0, "CST")
         } else {
          if i < 7 {
           Table::row(828864000, -21600, 3600, "CDT")
          } else {
           Table::row(846399600, -21600, 0, "CST")
          }
         }
        } else {
         if i < 9 {
          Table::row(860313600, -21600, 3600, "CDT")
         } else {
          if i < 10 {
           Table::row(877849200, -21600, 0, "CST")
          } else {
           Table::row(891766800, -25200, 3600, "MDT")
          }
         }
        }
       }
      } else {
       if i < 16 {
        if i < 13 {
         if i < 12 {
          Table::row(909302400, -25200, 0, "MST")
         } else {
          Table::row(923216400, -25200, 3600, "MDT")
         }
        } else {
         if i < 14 {
          Table::row(941356800, -25200, 0, "MST")
         } else {
          if i < 15 {
           Table::row(954666000, -25200, 3600, "MDT")
          } else {
           Table::row(972806400, -25200, 0, "MST")
          }
         }
        }
       } else {
        if i < 19 {
         if i < 17 {
          Table::row(989139600, -25200, 3600, "MDT")
         } else {
          if i < 18 {
           Table::row(1001836800, -25200, 0, "MST")
          } else {
           Table::row(1018170000, -25200, 3600, "MDT")
          }
         }
        } else {
         if i < 20 {
          Table::row(1035705600, -25200, 0, "MST")
         } else {
          if i < 21 {
           Table::row(1049619600, -25200, 3600, "MDT")
          } else {
           Table::row(1067155200, -25200, 0, "MST")
          }
         }
        }
       }
      }
     } else {
      if i < 33 {
       if i < 27 {
        if i < 24 {
         if i < 23 {
          Table::row(1081069200, -25200, 3600, "MDT")
         } else {
          Table::row(1099209600, -25200, 0, "MST")
         }
        } else {
         if i < 25 {
          Table::row(1112518800, -25200, 3600, "MDT")
         } else {
          if i < 26 {
           Table::row(1130659200, -25200, 0, "MST")
          } else {
           Table::row(1143968400, -25200, 3600, "MDT")
          }
         }
        }
       } else {
        if i < 30 {
         if i < 28 {
          Table::row(1162108800, -25200, 0, "MST")
         } else {
          if i < 29 {
           Table::row(1175418000, -25200, 3600, "MDT")
          } else {
           Table::row(1193558400, -25200, 0, "MST")
          }
         }
        } else {
         if i < 31 {
          Table::row(1207472400, -25200, 3600, "MDT")
         } else {
          if i < 32 {
           Table::row(1225008000, -25200, 0, "MST")
          } else {
           Table::row(1238922000, -25200, 3600, "MDT")
          }
         }
        }
       }
      } else {
       if i < 39 {
        if i < 36 {
         if i < 34 {
          Table::row(1256457600, -25200, 0, "MST")
         } else {
          if i < 35 {
           Table::row(1268557200, -25200, 3600, "MDT")
          } else {
           Table::row(1289116800, -25200, 0, "MST")
          }
         }
        } else {
         if i < 37 {
          Table::row(1300006800, -25200, 3600, "MDT")
         } else {
          if i < 38 {
           Table::row(1320566400, -25200, 0, "MST")
          } else {
           Table::row(1331456400, -25200, 3600, "MDT")
          }
         }
        }
       } else {
        if i < 42 {
         if i < 40 {
          Table::row(1352016000, -25200, 0, "MST")
         } else {
          if i < 41 {
           Table::row(1362906000, -25200, 3600, "MDT")
          } else {
           Table::row(1383465600, -25200, 0, "MST")
          }
         }
        } else {
         if i < 43 {
          Table::row(1394355600, -25200, 3600, "MDT")
         } else {
          if i < 44 {
           Table::row(1414915200, -25200, 0, "MST")
          } else {
           Table::row(1425805200, -25200, 3600, "MDT")
          }
         }
        }
       }
      }
     }
    } else {
     if i < 67 {
      if i < 56 {
       if i < 50 {
        if i < 47 {
         if i < 46 {
          Table::row(1446364800, -25200, 0, "MST")
         } else {
          Table::row(1457859600, -25200, 3600, "MDT")
         }
        } else {
         if i < 48 {
          Table::row(1478419200, -25200, 0, "MST")
         } else {
          if i < 49 {
           Table::row(1489309200, -25200, 3600, "MDT")
          } else {
           Table::row(1509868800, -25200, 0, "MST")
          }
         }
        }
       } else {
        if i < 53 {
         if i < 51 {
          Table::row(1520758800, -25200, 3600, "MDT")
         } else {
          if i < 52 {
           Table::row(1541318400, -25200, 0, "MST")
          } else {
           Table::row(1552208400, -25200, 3600, "MDT")
          }
         }
        } else {
         if i < 54 {
          Table::row(1572768000, -25200, 0, "MST")
         } else {
          if i < 55 {
           Table::row(1583658000, -25200, 3600, "MDT")
          } else {
           Table::row(1604217600, -25200, 0, "MST")
          }
         }
        }
       }
      } else {
       if i < 61 {
        if i < 58 {
         if i < 57 {
          Table::row(1615712400, -25200, 3600, "MDT")
         } else {
          Table::row(1636272000, -25200, 0, "MST")
         }
        } else {
         if i < 59 {
          Table::row(1647162000, -25200, 3600, "MDT")
         } else {
          if i < 60 {
           Table::row(1667116800, -21600, 0, "CST")
          } else {
           Table::row(1678608000, -21600, 3600, "CDT")
          }
         }
        }
       } else {
        if i < 64 {
         if i < 62 {
          Table::row(1699167600, -21600, 0, "CST")
         } else {
          if i < 63 {
           Table::row(1710057600, -21600, 3600, "CDT")
          } else {
           Table::row(1730617200, -21600, 0, "CST")
          }
         }
        } else {
         if i < 65 {
          Table::row(1741507200, -21600, 3600, "CDT")
         } else {
          if i < 66 {
           Table::row(1762066800, -21600, 0, "CST")
          } else {
           Table::row(1772956800, -21600, 3600, "CDT")
          }
         }
        }
       }
      }
     } else {
      if i < 78 {
       if i < 72 {
        if i < 69 {
         if i < 68 {
          Table::row(1793516400, -21600, 0, "CST")
         } else {
          Table::row(1805011200, -21600, 3600, "CDT")
         }
        } else {
         if i < 70 {
          Table::row(1825570800, -21600, 0, "CST")
         } else {
          if i < 71 {
           Table::row(1836460800, -21600, 3600, "CDT")
          } else {
           Table::row(1857020400, -21600, 0, "CST")
          }
         }
        }
       } else {
        if i < 75 {
         if i < 73 {
          Table::row(1867910400, -21600, 3600, "CDT")
         } else {
          if i < 74 {
           Table::row(1888470000, -21600, 0, "CST")
          } else {
           Table::row(1899360000, -21600, 3600, "CDT")
          }
         }
        } else {
         if i < 76 {
          Table::row(1919919600, -21600, 0, "CST")
         } else {
          if i < 77 {
           Table::row(1930809600, -21600, 3600, "CDT")
          } else {
           Table::row(1951369200, -21600, 0, "CST")
          }
         }
        }
       }
      } else {
       if i < 84 {
        if i < 81 {
         if i < 79 {
          Table::row(1962864000, -21600, 3600, "CDT")
         } else {
          if i < 80 {
           Table::row(1983423600, -21600, 0, "CST")
          } else {
           Table::row(1994313600, -21600, 3600, "CDT")
          }
         }
        } else {
         if i < 82 {
          Table::row(2014873200, -21600, 0, "CST")
         } else {
          if i < 83 {
           Table::row(2025763200, -21600, 3600, "CDT")
          } else {
           Table::row(2046322800, -21600, 0, "CST")
          }
         }
        }
       } else {
        if i < 87 {
         if i < 85 {
          Table::row(2057212800, -21600, 3600, "CDT")
         } else {
          if i < 86 {
           Table::row(2077772400, -21600, 0, "CST")
          } else {
           Table::row(2088662400, -21600, 3600, "CDT")
          }
         }
        } else {
         if i < 88 {
          Table::row(2109222000, -21600, 0, "CST")
         } else {
          if i < 89 {
           Table::row(2120112000, -21600, 3600, "CDT")
          } else {
           Table::row(2140671600, -21600, 0, "CST")
          }
         }
        }
       }
      }
     }
    }
}

/// The rows of the table of the zone `America/Ojinaga`.
pub open spec fn ojinaga_rows() -> spec_fn(int) -> (i64, FixedTimespan) {
    |i: int| ojinaga_row(i)
}

/// The table of the zone `America/Ojinaga`.
pub open spec fn ojinaga() -> Table {
    Table::listed(Table::row(0, -25060, 0, "LMT").1, 90, ojinaga_rows())
}

/// Row `i` of the table of the zone `America/Panama`.
pub open spec fn panama_row(i: int) -> (i64, FixedTimespan) {
    if i < 1 {
     Table::row(-2524502512, -19176, 0, "CMT")
    } else {
     Table::row(-1946918424, -18000, 0, "EST")
    }
}

/// The rows of the table of the zone `America/Panama`.
pub open spec fn panama_rows() -> spec_fn(int) -> (i64, FixedTimespan) {
    |i: int| panama_row(i)
}

/// The table of the zone `America/Panama`.
pub open spec fn panama() -> Table {
    Table::listed(Table::row(0, -19088, 0, "LMT").1, 2, panama_rows())
}

/// Row `i` of the table of the zone `America/Pangnirtung`.
pub open spec fn pangnirtung_row(i: int) -> (i64, FixedTimespan) {
    if i < 67 {
     if i < 33 {
      if i < 16 {
       if i < 8 {
        if i < 4 {
         if i < 2 {
          if i < 1 {
           Table::row(-865296000, -18000, 3600, "EWT")
          } else {
           Table::row(-769395600, -18000, 3600, "EPT")
          }
         } else {
          if i < 3 {
           Table::row(-765396000, -18000, 0, "EST")
          } else {
           Table::row(73465200, -18000, 3600, "EDT")
          }
         }
        } else {
         if i < 6 {
          if i < 5 {
           Table::row(89186400, -18000, 0, "EST")
          } else {
           Table::row(104914800, -18000, 3600, "EDT")
          }
         } else {
          if i < 7 {
           Table::row(120636000, -18000, 0, "EST")
          } else {
           Table::row(136364400, -18000, 3600, "EDT")
          }
         }
        }
       } else {
        if i < 12 {
         if i < 10 {
          if i < 9 {
           Table::row(152085600, -18000, 0, "EST")
          } else {
           Table::row(167814000, -18000, 3600, "EDT")
          }
         } else {
          if i < 11 {
           Table::row(183535200, -18000, 0, "EST")
          } else {
           Table::row(199263600, -18000, 3600, "EDT")
          }
         }
        } else {
         if i < 14 {
          if i < 13 {
           Table::row(215589600, -18000, 0, "EST")
          } else {
           Table::row(230713200, -18000, 3600, "EDT")
          }
         } else {
          if i < 15 {
           Table::row(247039200, -18000, 0, "EST")
          } else {
           Table::row(262767600, -18000, 3600, "EDT")
          }
         }
        }
       }
      } else {
       if i < 24 {
        if i < 20 {
         if i < 18 {
          if i < 17 {
           Table::row(278488800, -18000, 0, "EST")
          } else {
           Table::row(294217200, -18000, 3600, "EDT")
          }
         } else {
          if i < 19 {
           Table::row(309938400, -18000, 0, "EST")
          } else {
           Table::row(325666800, -18000, 3600, "EDT")
          }
         }
        } else {
         if i < 22 {
          if i < 21 {
           Table::row(341388000, -18000, 0, "EST")
          } else {
           Table::row(357116400, -18000, 3600, "EDT")
          }
         } else {
          if i < 23 {
           Table::row(372837600, -18000, 0, "EST")
          } else {
           Table::row(388566000, -18000, 3600, "EDT")
          }
         }
        }
       } else {
        if i < 28 {
         if i < 26 {
          if i < 25 {
           Table::row(404892000, -18000, 0, "EST")
          } else {
           Table::row(420015600, -18000, 3600, "EDT")
          }
         } else {
          if i < 27 {
           Table::row(436341600, -18000, 0, "EST")
          } else {
           Table::row(452070000, -18000, 3600, "EDT")
          }
         }
        } else {
         if i < 30 {
          if i < 29 {
           Table::row(467791200, -18000, 0, "EST")
          } else {
           Table::row(483519600, -18000, 3600, "EDT")
          }
         } else {
          if i < 31 {
           Table::row(499240800, -18000, 0, "EST")
          } else {
           if i < 32 {
            Table::row(514969200, -18000, 3600, "EDT")
           } else {
            Table::row(530690400, -18000, 0, "EST")
           }
          }
         }
        }
       }
      }
     } else {
      if i < 50 {
       if i < 41 {
        if i < 37 {
         if i < 35 {
          if i < 34 {
           Table::row(544604400, -18000, 3600, "EDT")
          } else {
           Table::row(562140000, -18000, 0, "EST")
          }
         } else {
          if i < 36 {
           Table::row(576054000, -18000, 3600, "EDT")
          } else {
           Table::row(594194400, -18000, 0, "EST")
          }
         }
        } else {
         if i < 39 {
          if i < 38 {
           Table::row(607503600, -18000, 3600, "EDT")
          } else {
           Table::row(625644000, -18000, 0, "EST")
          }
         } else {
          if i < 40 {
           Table::row(638953200, -18000, 3600, "EDT")
          } else {
           Table::row(657093600, -18000, 0, "EST")
          }
         }
        }
       } else {
        if i < 45 {
         if i < 43 {
          if i < 42 {
           Table::row(671007600, -18000, 3600, "EDT")
          } else {
           Table::row(688543200, -18000, 0, "EST")
          }
         } else {
          if i < 44 {
           Table::row(702457200, -18000, 3600, "EDT")
          } else {
           Table::row(719992800, -18000, 0, "EST")
          }
         }
        } else {
         if i < 47 {
          if i < 46 {
           Table::row(733906800, -18000, 3600, "EDT")
          } else {
           Table::row(752047200, -18000, 0, "EST")
          }
         } else {
          if i < 48 {
           Table::row(765356400, -18000, 3600, "EDT")
          } else {
           if i < 49 {
            Table::row(783496800, -18000, 0, "EST")
           } else {
            Table::row(796806000, -18000, 3600, "EDT")
           }
          }
         }
        }
       }
      } else {
       if i < 58 {
        if i < 54 {
         if i < 52 {
          if i < 51 {
           Table::row(814946400, -18000, 0, "EST")
          } else {
           Table::row(828860400, -18000, 3600, "EDT")
          }
         } else {
          if i < 53 {
           Table::row(846396000, -18000, 0, "EST")
          } else {
           Table::row(860310000, -18000, 3600, "EDT")
          }
         }
        } else {
         if i < 56 {
          if i < 55 {
           Table::row(877845600, -18000, 0, "EST")
          } else {
           Table::row(891759600, -18000, 3600, "EDT")
          }
         } else {
          if i < 57 {
           Table::row(909295200, -18000, 0, "EST")
          } else {
           Table::row(923209200, -18000, 3600, "EDT")
          }
         }
        }
       } else {
        if i < 62 {
         if i < 60 {
          if i < 59 {
           Table::row(941349600, -21600, 0, "CST")
          } else {
           Table::row(954662400, -21600, 3600, "CDT")
          }
         } else {
          if i < 61 {
           Table::row(972802800, -18000, 0, "EST")
          } else {
           Table::row(986108400, -18000, 3600, "EDT")
          }
         }
        } else {
         if i < 64 {
          if i < 63 {
           Table::row(1004248800, -18000, 0, "EST")
          } else {
           Table::row(1018162800, -18000, 3600, "EDT")
          }
         } else {
          if i < 65 {
           Table::row(1035698400, -18000, 0, "EST")
          } else {
           if i < 66 {
            Table::row(1049612400, -18000, 3600, "EDT")
           } else {
            Table::row(1067148000, -18000, 0, "EST")
           }
          }
         }
        }
       }
      }
     }
    } else {
     if i < 101 {
      if i < 84 {
       if i < 75 {
        if i < 71 {
         if i < 69 {
          if i < 68 {
           Table::row(1081062000, -18000, 3600, "EDT")
          } else {
           Table::row(1099202400, -18000, 0, "EST")
          }
         } else {
          if i < 70 {
           Table::row(1112511600, -18000, 3600, "EDT")
          } else {
           Table::row(1130652000, -18000, 0, "EST")
          }
         }
        } else {
         if i < 73 {
          if i < 72 {
           Table::row(1143961200, -18000, 3600, "EDT")
          } else {
           Table::row(1162101600, -18000, 0, "EST")
          }
         } else {
          if i < 74 {
           Table::row(1173596400, -18000, 3600, "EDT")
          } else {
           Table::row(1194156000, -18000, 0, "EST")
          }
         }
        }
       } else {
        if i < 79 {
         if i < 77 {
          if i < 76 {
           Table::row(1205046000, -18000, 3600, "EDT")
          } else {
           Table::row(1225605600, -18000, 0, "EST")
          }
         } else {
          if i < 78 {
           Table::row(1236495600, -18000, 3600, "EDT")
          } else {
           Table::row(1257055200, -18000, 0, "EST")
          }
         }
        } else {
         if i < 81 {
          if i < 80 {
           Table::row(1268550000, -18000, 3600, "EDT")
          } else {
           Table::row(1289109600, -18000, 0, "EST")
          }
         } else {
          if i < 82 {
           Table::row(1299999600, -18000, 3600, "EDT")
          } else {
           if i < 83 {
            Table::row(1320559200, -18000, 0, "EST")
           } else {
            Table::row(1331449200, -18000, 3600, "EDT")
           }
          }
         }
        }
       }
      } else {
       if i < 92 {
        if i < 88 {
         if i < 86 {
          if i < 85 {
           Table::row(1352008800, -18000, 0, "EST")
          } else {
           Table::row(1362898800, -18000, 3600, "EDT")
          }
         } else {
          if i < 87 {
           Table::row(1383458400, -18000, 0, "EST")
          } else {
           Table::row(1394348400, -18000, 3600, "EDT")
          }
         }
        } else {
         if i < 90 {
          if i < 89 {
           Table::row(1414908000, -18000, 0, "EST")
          } else {
           Table::row(1425798000, -18000, 3600, "EDT")
          }
         } else {
          if i < 91 {
           Table::row(1446357600, -18000, 0, "EST")
          } else {
           Table::row(1457852400, -18000, 3600, "EDT")
          }
         }
        }
       } else {
        if i < 96 {
         if i < 94 {
          if i < 93 {
           Table::row(1478412000, -18000, 0, "EST")
          } else {
           Table::row(1489302000, -18000, 3600, "EDT")
          }
         } else {
          if i < 95 {
           Table::row(1509861600, -18000, 0, "EST")
          } else {
           Table::row(1520751600, -18000, 3600, "EDT")
          }
         }
        } else {
         if i < 98 {
          if i < 97 {
           Table::row(1541311200, -18000, 0, "EST")
          } else {
           Table::row(1552201200, -18000, 3600, "EDT")
          }
         } else {
          if i < 99 {
           Table::row(1572760800, -18000, 0, "EST")
          } else {
           if i < 100 {
            Table::row(1583650800, -18000, 3600, "EDT")
           } else {
            Table::row(1604210400, -18000, 0, "EST")
           }
          }
         }
        }
       }
      }
     } else {
      if i < 118 {
       if i < 109 {
        if i < 105 {
         if i < 103 {
          if i < 102 {
           Table::row(1615705200, -18000, 3600, "EDT")
          } else {
           Table::row(1636264800, -18000, 0, "EST")
          }
         } else {
          if i < 104 {
           Table::row(1647154800, -18000, 3600, "EDT")
          } else {
           Table::row(1667714400, -18000, 0, "EST")
          }
         }
        } else {
         if i < 107 {
          if i < 106 {
           Table::row(1678604400, -18000, 3600, "EDT")
          } else {
           Table::row(1699164000, -18000, 0, "EST")
          }
         } else {
          if i < 108 {
           Table::row(1710054000, -18000, 3600, "EDT")
          } else {
           Table::row(1730613600, -18000, 0, "EST")
          }
         }
        }
       } else {
        if i < 113 {
         if i < 111 {
          if i < 110 {
           Table::row(1741503600, -18000, 3600, "EDT")
          } else {
           Table::row(1762063200, -18000, 0, "EST")
          }
         } else {
          if i < 112 {
           Table::row(1772953200, -18000, 3600, "EDT")
          } else {
           Table::row(1793512800, -18000, 0, "EST")
          }
         }
        } else {
         if i < 115 {
          if i < 114 {
           Table::row(1805007600, -18000, 3600, "EDT")
          } else {
           Table::row(1825567200, -18000, 0, "EST")
          }
         } else {
          if i < 116 {
           Table::row(1836457200, -18000, 3600, "EDT")
          } else {
           if i < 117 {
            Table::row(1857016800, -18000, 0, "EST")
           } else {
            Table::row(1867906800, -18000, 3600, "EDT")
           }
          }
         }
        }
       }
      } else {
       if i < 126 {
        if i < 122 {
         if i < 120 {
          if i < 119 {
           Table::row(1888466400, -18000, 0, "EST")
          } else {
           Table::row(1899356400, -18000, 3600, "EDT")
          }
         } else {
          if i < 121 {
           Table::row(1919916000, -18000, 0, "EST")
          } else {
           Table::row(1930806000, -18000, 3600, "EDT")
          }
         }
        } else {
         if i < 124 {
          if i < 123 {
           Table::row(1951365600, -18000, 0, "EST")
          } else {
           Table::row(1962860400, -18000, 3600, "EDT")
          }
         } else {
          if i < 125 {
           Table::row(1983420000, -18000, 0, "EST")
          } else {
           Table::row(1994310000, -18000, 3600, "EDT")
          }
         }
        }
       } else {
        if i < 130 {
         if i < 128 {
          if i < 127 {
           Table::row(2014869600, -18000, 0, "EST")
          } else {
           Table::row(2025759600, -18000, 3600, "EDT")
          }
         } else {
          if i < 129 {
           Table::row(2046319200, -18000, 0, "EST")
          } else {
           Table::row(2057209200, -18000, 3600, "EDT")
          }
         }
        } else {
         if i < 132 {
          if i < 131 {
           Table::row(2077768800, -18000, 0, "EST")
          } else {
           Table::row(2088658800, -18000, 3600, "EDT")
          }
         } else {
          if i < 133 {
           Table::row(2109218400, -18000, 0, "EST")
          } else {
           if i < 134 {
            Table::row(2120108400, -18000, 3600, "EDT")
           } else {
            Table::row(2140668000, -18000, 0, "EST")
           }
          }
         }
        }
       }
      }
     }
    }
}

/// The rows of the table of the zone `America/Pangnirtung`.
pub open spec fn pangnirtung_rows() -> spec_fn(int) -> (i64, FixedTimespan) {
    |i: int| pangnirtung_row(i)
}

/// The table of the zone `America/Pangnirtung`.
pub open spec fn pangnirtung() -> Table {
    Table::listed(Table::row(0, 0, 0, "-00").1, 135, pangnirtung_rows())
}

/// Row `i` of the table of the zone `America/Paramaribo`.
pub open spec fn paramaribo_row(i: int) -> (i64, FixedTimespan) {
    if i < 2 {
     if i < 1 {
      Table::row(-1861906760, -13252, 0, "PMT")
     } else {
      Table::row(-1104524348, -13236, 0, "PMT")
     }
    } else {
     if i < 3 {
      Table::row(-765317964, -12600, 0, "-0330")
     } else {
      if i < 4 {
       Table::row(465449400, -10800, 0, "-03")
      } else {
       Table::row(2147483647, -10800, 0, "-03")
      }
     }
    }
}

/// The rows of the table of the zone `America/Paramaribo`.
pub open spec fn paramaribo_rows() -> spec_fn(int) -> (i64, FixedTimespan) {
    |i: int| paramaribo_row(i)
}

/// The table of the zone `America/Paramaribo`.
pub open spec fn paramaribo() -> Table {
    Table::listed(Table::row(0, -13240, 0, "LMT").1, 5, paramaribo_rows())
}

/// Row `i` of the table of the zone `America/Phoenix`.
pub open spec fn phoenix_row(i: int) -> (i64, FixedTimespan) {
    if i < 5 {
     if i < 2 {
      if i < 1 {
       Table::row(-2717643600, -25200, 0, "MST")
      } else {
       Table::row(-1633273200, -25200, 3600, "MDT")
      }
     } else {
      if i < 3 {
       Table::row(-1615132800, -25200, 0, "MST")
      } else {
       if i < 4 {
        Table::row(-1601823600, -25200, 3600, "MDT")
       } else {
        Table::row(-1583683200, -25200, 0, "MST")
       }
      }
     }
    } else {
     if i < 8 {
      if i < 6 {
       Table::row(-880210800, -25200, 3600, "MWT")
      } else {
       if i < 7 {
        Table::row(-820519140, -25200, 0, "MST")
       } else {
        Table::row(-812653140, -25200, 3600, "MWT")
       }
      }
     } else {
      if i < 9 {
       Table::row(-796845540, -25200, 0, "MST")
      } else {
       if i < 10 {
        Table::row(-84380400, -25200, 3600, "MDT")
       } else {
        Table::row(-68659200, -25200, 0, "MST")
       }
      }
     }
    }
}

/// The rows of the table of the zone `America/Phoenix`.
pub open spec fn phoenix_rows() -> spec_fn(int) -> (i64, FixedTimespan) {
    |i: int| phoenix_row(i)
}

/// The table of the zone `America/Phoenix`.
pub open spec fn phoenix() -> Table {
    Table::listed(Table::row(0, -26898, 0, "LMT").1, 11, phoenix_rows())
}

/// Row `i` of the table of the zone `America/Port-au-Prince`.
pub open spec fn port_au_prince_row(i: int) -> (i64, FixedTimespan) {
    if i < 43 {
     if i < 21 {
      if i < 10 {
       if i < 5 {
        if i < 2 {
         if i < 1 {
          Table::row(-2524504240, -17340, 0, "PPMT")
         } else {
          Table::row(-1670483460, -18000, 0, "EST")
         }
        } else {
         if i < 3 {
          Table::row(421218000, -18000, 3600, "EDT")
         } else {
          if i < 4 {
           Table::row(436334400, -18000, 0, "EST")
          } else {
           Table::row(452062800, -18000, 3600, "EDT")
          }
         }
        }
       } else {
        if i < 7 {
         if i < 6 {
          Table::row(467784000, -18000, 0, "EST")
         } else {
          Table::row(483512400, -18000, 3600, "EDT")
         }
        } else {
         if i < 8 {
          Table::row(499233600, -18000, 0, "EST")
         } else {
          if i < 9 {
           Table::row(514962000, -18000, 3600, "EDT")
          } else {
           Table::row(530683200, -18000, 0, "EST")
          }
         }
        }
       }
      } else {
       if i < 15 {
        if i < 12 {
         if i < 11 {
          Table::row(546411600, -18000, 3600, "EDT")
         } else {
          Table::row(562132800, -18000, 0, "EST")
         }
        } else {
         if i < 13 {
          Table::row(576050400, -18000, 3600, "EDT")
         } else {
          if i < 14 {
           Table::row(594194400, -18000, 0, "EST")
          } else {
           Table::row(607500000, -18000, 3600, "EDT")
          }
         }
        }
       } else {
        if i < 18 {
         if i < 16 {
          Table::row(625644000, -18000, 0, "EST")
         } else {
          if i < 17 {
           Table::row(638949600, -18000, 3600, "EDT")
          } else {
           Table::row(657093600, -18000, 0, "EST")
          }
         }
        } else {
         if i < 19 {
          Table::row(671004000, -18000, 3600, "EDT")
         } else {
          if i < 20 {
           Table::row(688543200, -18000, 0, "EST")
          } else {
           Table::row(702453600, -18000, 3600, "EDT")
          }
         }
        }
       }
      }
     } else {
      if i < 32 {
       if i < 26 {
        if i < 23 {
         if i < 22 {
          Table::row(719992800, -18000, 0, "EST")
         } else {
          Table::row(733903200, -18000, 3600, "EDT")
         }
        } else {
         if i < 24 {
          Table::row(752047200, -18000, 0, "EST")
         } else {
          if i < 25 {
           Table::row(765352800, -18000, 3600, "EDT")
          } else {
           Table::row(783496800, -18000, 0, "EST")
          }
         }
        }
       } else {
        if i < 29 {
         if i < 27 {
          Table::row(796802400, -18000, 3600, "EDT")
         } else {
          if i < 28 {
           Table::row(814946400, -18000, 0, "EST")
          } else {
           Table::row(828856800, -18000, 3600, "EDT")
          }
         }
        } else {
         if i < 30 {
          Table::row(846396000, -18000, 0, "EST")
         } else {
          if i < 31 {
           Table::row(860306400, -18000, 3600, "EDT")
          } else {
           Table::row(877845600, -18000, 0, "EST")
          }
         }
        }
       }
      } else {
       if i < 37 {
        if i < 34 {
         if i < 33 {
          Table::row(1112504400, -18000, 3600, "EDT")
         } else {
          Table::row(1130644800, -18000, 0, "EST")
         }
        } else {
         if i < 35 {
          Table::row(1143954000, -18000, 3600, "EDT")
         } else {
          if i < 36 {
           Table::row(1162094400, -18000, 0, "EST")
          } else {
           Table::row(1331449200, -18000, 3600, "EDT")
          }
         }
        }
       } else {
        if i < 40 {
         if i < 38 {
          Table::row(1352008800, -18000, 0, "EST")
         } else {
          if i < 39 {
           Table::row(1362898800, -18000, 3600, "EDT")
          } else {
           Table::row(1383458400, -18000, 0, "EST")
          }
         }
        } else {
         if i < 41 {
          Table::row(1394348400, -18000, 3600, "EDT")
         } else {
          if i < 42 {
           Table::row(1414908000, -18000, 0, "EST")
          } else {
           Table::row(1425798000, -18000, 3600, "EDT")
          }
         }
        }
       }
      }
     }
    } else {
     if i < 64 {
      if i < 53 {
       if i < 48 {
        if i < 45 {
         if i < 44 {
          Table::row(1446357600, -18000, 0, "EST")
         } else {
          Table::row(1489302000, -18000, 3600, "EDT")
         }
        } else {
         if i < 46 {
          Table::row(1509861600, -18000, 0, "EST")
         } else {
          if i < 47 {
           Table::row(1520751600, -18000, 3600, "EDT")
          } else {
           Table::row(1541311200, -18000, 0, "EST")
          }
         }
        }
       } else {
        if i < 50 {
         if i < 49 {
          Table::row(1552201200, -18000, 3600, "EDT")
         } else {
          Table::row(1572760800, -18000, 0, "EST")
         }
        } else {
         if i < 51 {
          Table::row(1583650800, -18000, 3600, "EDT")
         } else {
          if i < 52 {
           Table::row(1604210400, -18000, 0, "EST")
          } else {
           Table::row(1615705200, -18000, 3600, "EDT")
          }
         }
        }
       }
      } else {
       if i < 58 {
        if i < 55 {
         if i < 54 {
          Table::row(1636264800, -18000, 0, "EST")
         } else {
          Table::row(1647154800, -18000, 3600, "EDT")
         }
        } else {
         if i < 56 {
          Table::row(1667714400, -18000, 0, "EST")
         } else {
          if i < 57 {
           Table::row(1678604400, -18000, 3600, "EDT")
          } else {
           Table::row(1699164000, -18000, 0, "EST")
          }
         }
        }
       } else {
        if i < 61 {
         if i < 59 {
          Table::row(1710054000, -18000, 3600, "EDT")
         } else {
          if i < 60 {
           Table::row(1730613600, -18000, 0, "EST")
          } else {
           Table::row(1741503600, -18000, 3600, "EDT")
          }
         }
        } else {
         if i < 62 {
          Table::row(1762063200, -18000, 0, "EST")
         } else {
          if i < 63 {
           Table::row(1772953200, -18000, 3600, "EDT")
          } else {
           Table::row(1793512800, -18000, 0, "EST")
          }
         }
        }
       }
      }
     } else {
      if i < 75 {
       if i < 69 {
        if i < 66 {
         if i < 65 {
          Table::row(1805007600, -18000, 3600, "EDT")
         } else {
          Table::row(1825567200, -18000, 0, "EST")
         }
        } else {
         if i < 67 {
          Table::row(1836457200, -18000, 3600, "EDT")
         } else {
          if i < 68 {
           Table::row(1857016800, -18000, 0, "EST")
          } else {
           Table::row(1867906800, -18000, 3600, "EDT")
          }
         }
        }
       } else {
        if i < 72 {
         if i < 70 {
          Table::row(1888466400, -18000, 0, "EST")
         } else {
          if i < 71 {
           Table::row(1899356400, -18000, 3600, "EDT")
          } else {
           Table::row(1919916000, -18000, 0, "EST")
          }
         }
        } else {
         if i < 73 {
          Table::row(1930806000, -18000, 3600, "EDT")
         } else {
          if i < 74 {
           Table::row(1951365600, -18000, 0, "EST")
          } else {
           Table::row(1962860400, -18000, 3600, "EDT")
          }
         }
        }
       }
      } else {
       if i < 80 {
        if i < 77 {
         if i < 76 {
          Table::row(1983420000, -18000, 0, "EST")
         } else {
          Table::row(1994310000, -18000, 3600, "EDT")
         }
        } else {
         if i < 78 {
          Table::row(2014869600, -18000, 0, "EST")
         } else {
          if i < 79 {
           Table::row(2025759600, -18000, 3600, "EDT")
          } else {
           Table::row(2046319200, -18000, 0, "EST")
          }
         }
        }
       } else {
        if i < 83 {
         if i < 81 {
          Table::row(2057209200, -18000, 3600, "EDT")
         } else {
          if i < 82 {
           Table::row(2077768800, -18000, 0, "EST")
          } else {
           Table::row(2088658800, -18000, 3600, "EDT")
          }
         }
        } else {
         if i < 84 {
          Table::row(2109218400, -18000, 0, "EST")
         } else {
          if i < 85 {
           Table::row(2120108400, -18000, 3600, "EDT")
          } else {
           Table::row(2140668000, -18000, 0, "EST")
          }
         }
        }
       }
      }
     }
    }
}

/// The rows of the table of the zone `America/Port-au-Prince`.
pub open spec fn port_au_prince_rows() -> spec_fn(int) -> (i64, FixedTimespan) {
    |i: int| port_au_prince_row(i)
}

/// The table of the zone `America/Port-au-Prince`.
pub open spec fn port_au_prince() -> Table {
    Table::listed(Table::row(0, -17360, 0, "LMT").1, 86, port_au_prince_rows())
}

/// Row `i` of the table of the zone `America/Port_of_Spain`.
pub open spec fn port_of_spain_row(i: int) -> (i64, FixedTimespan) {
    Table::row(-1825098836, -14400, 0, "AST")
}

/// The rows of the table of the zone `America/Port_of_Spain`.
pub open spec fn port_of_spain_rows() -> spec_fn(int) -> (i64, FixedTimespan) {
    |i: int| port_of_spain_row(i)
}

/// The table of the zone `America/Port_of_Spain`.
pub open spec fn port_of_spain() -> Table {
    Table::listed(Table::row(0, -14764, 0, "LMT").1, 1, port_of_spain_rows())
}

/// Row `i` of the table of the zone `America/Porto_Acre`.
pub open spec fn porto_acre_row(i: int) -> (i64, FixedTimespan) {
    if i < 16 {
     if i < 8 {
      if i < 4 {
       if i < 2 {
        if i < 1 {
         Table::row(-1767209328, -18000, 0, "-05")
        } else {
         Table::row(-1206950400, -18000, 3600, "-04")
        }
       } else {
        if i < 3 {
         Table::row(-1191355200, -18000, 0, "-05")
        } else {
         Table::row(-1175367600, -18000, 3600, "-04")
        }
       }
      } else {
       if i < 6 {
        if i < 5 {
         Table::row(-1159819200, -18000, 0, "-05")
        } else {
         Table::row(-633812400, -18000, 3600, "-04")
        }
       } else {
        if i < 7 {
         Table::row(-622062000, -18000, 0, "-05")
        } else {
         Table::row(-602276400, -18000, 3600, "-04")
        }
       }
      }
     } else {
      if i < 12 {
       if i < 10 {
        if i < 9 {
         Table::row(-591825600, -18000, 0, "-05")
        } else {
         Table::row(-570740400, -18000, 3600, "-04")
        }
       } else {
        if i < 11 {
         Table::row(-560203200, -18000, 0, "-05")
        } else {
         Table::row(-539118000, -18000, 3600, "-04")
        }
       }
      } else {
       if i < 14 {
        if i < 13 {
         Table::row(-531345600, -18000, 0, "-05")
        } else {
         Table::row(-191358000, -18000, 3600, "-04")
        }
       } else {
        if i < 15 {
         Table::row(-184190400, -18000, 0, "-05")
        } else {
         Table::row(-155156400, -18000, 3600, "-04")
        }
       }
      }
     }
    } else {
     if i < 24 {
      if i < 20 {
       if i < 18 {
        if i < 17 {
         Table::row(-150062400, -18000, 0, "-05")
        } else {
         Table::row(-128890800, -18000, 3600, "-04")
        }
       } else {
        if i < 19 {
         Table::row(-121118400, -18000, 0, "-05")
        } else {
         Table::row(-99946800, -18000, 3600, "-04")
        }
       }
      } else {
       if i < 22 {
        if i < 21 {
         Table::row(-89582400, -18000, 0, "-05")
        } else {
         Table::row(-68410800, -18000, 3600, "-04")
        }
       } else {
        if i < 23 {
         Table::row(-57960000, -18000, 0, "-05")
        } else {
         Table::row(499755600, -18000, 3600, "-04")
        }
       }
      }
     } else {
      if i < 28 {
       if i < 26 {
        if i < 25 {
         Table::row(511243200, -18000, 0, "-05")
        } else {
         Table::row(530600400, -18000, 3600, "-04")
        }
       } else {
        if i < 27 {
         Table::row(540273600, -18000, 0, "-05")
        } else {
         Table::row(562136400, -18000, 3600, "-04")
        }
       }
      } else {
       if i < 30 {
        if i < 29 {
         Table::row(571204800, -18000, 0, "-05")
        } else {
         Table::row(1214283600, -14400, 0, "-04")
        }
       } else {
        if i < 31 {
         Table::row(1384056000, -18000, 0, "-05")
        } else {
         Table::row(2147483647, -18000, 0, "-05")
        }
       }
      }
     }
    }
}

/// The rows of the table of the zone `America/Porto_Acre`.
pub open spec fn porto_acre_rows() -> spec_fn(int) -> (i64, FixedTimespan) {
    |i: int| porto_acre_row(i)
}

/// The table of the zone `America/Porto_Acre`.
pub open spec fn porto_acre() -> Table {
    Table::listed(Table::row(0, -16272, 0, "LMT").1, 32, porto_acre_rows())
}

/// Row `i` of the table of the zone `America/Porto_Velho`.
pub open spec fn porto_velho_row(i: int) -> (i64, FixedTimespan) {
    if i < 15 {
     if i < 7 {
      if i < 3 {
       if i < 1 {
        Table::row(-1767210264, -14400, 0, "-04")
       } else {
        if i < 2 {
         Table::row(-1206954000, -14400, 3600, "-03")
        } else {
         Table::row(-1191358800, -14400, 0, "-04")
        }
       }
      } else {
       if i < 5 {
        if i < 4 {
         Table::row(-1175371200, -14400, 3600, "-03")
        } else {
         Table::row(-1159822800, -14400, 0, "-04")
        }
       } else {
        if i < 6 {
         Table::row(-633816000, -14400, 3600, "-03")
        } else {
         Table::row(-622065600, -14400, 0, "-04")
        }
       }
      }
     } else {
      if i < 11 {
       if i < 9 {
        if i < 8 {
         Table::row(-602280000, -14400, 3600, "-03")
        } else {
         Table::row(-591829200, -14400, 0, "-04")
        }
       } else {
        if i < 10 {
         Table::row(-570744000, -14400, 3600, "-03")
        } else {
         Table::row(-560206800, -14400, 0, "-04")
        }
       }
      } else {
       if i < 13 {
        if i < 12 {
         Table::row(-539121600, -14400, 3600, "-03")
        } else {
         Table::row(-531349200, -14400, 0, "-04")
        }
       } else {
        if i < 14 {
         Table::row(-191361600, -14400, 3600, "-03")
        } else {
         Table::row(-184194000, -14400, 0, "-04")
        }
       }
      }
     }
    } else {
     if i < 22 {
      if i < 18 {
       if i < 16 {
        Table::row(-155160000, -14400, 3600, "-03")
       } else {
        if i < 17 {
         Table::row(-150066000, -14400, 0, "-04")
        } else {
         Table::row(-128894400, -14400, 3600, "-03")
        }
       }
      } else {
       if i < 20 {
        if i < 19 {
         Table::row(-121122000, -14400, 0, "-04")
        } else {
         Table::row(-99950400, -14400, 3600, "-03")
        }
       } else {
        if i < 21 {
         Table::row(-89586000, -14400, 0, "-04")
        } else {
         Table::row(-68414400, -14400, 3600, "-03")
        }
       }
      }
     } else {
      if i < 26 {
       if i < 24 {
        if i < 23 {
         Table::row(-57963600, -14400, 0, "-04")
        } else {
         Table::row(499752000, -14400, 3600, "-03")
        }
       } else {
        if i < 25 {
         Table::row(511239600, -14400, 0, "-04")
        } else {
         Table::row(530596800, -14400, 3600, "-03")
        }
       }
      } else {
       if i < 28 {
        if i < 27 {
         Table::row(540270000, -14400, 0, "-04")
        } else {
         Table::row(562132800, -14400, 3600, "-03")
        }
       } else {
        if i < 29 {
         Table::row(571201200, -14400, 0, "-04")
        } else {
         Table::row(2147483647, -14400, 0, "-04")
        }
       }
      }
     }
    }
}

/// The rows of the table of the zone `America/Porto_Velho`.
pub open spec fn porto_velho_rows() -> spec_fn(int) -> (i64, FixedTimespan) {
    |i: int| porto_velho_row(i)
}

/// The table of the zone `America/Porto_Velho`.
pub open spec fn porto_velho() -> Table {
    Table::listed(Table::row(0, -15336, 0, "LMT").1, 30, porto_velho_rows())
}

/// Row `i` of the table of the zone `America/Puerto_Rico`.
pub open spec fn puerto_rico_row(i: int) -> (i64, FixedTimespan) {
    if i < 2 {
     if i < 1 {
      Table::row(-2233035335, -14400, 0, "AST")
     } else {
      Table::row(-873057600, -14400, 3600, "AWT")
     }
    } else {
     if i < 3 {
      Table::row(-769395600, -14400, 3600, "APT")
     } else {
      Table::row(-765399600, -14400, 0, "AST")
     }
    }
}

/// The rows of the table of the zone `America/Puerto_Rico`.
pub open spec fn puerto_rico_rows() -> spec_fn(int) -> (i64, FixedTimespan) {
    |i: int| puerto_rico_row(i)
}

/// The table of the zone `America/Puerto_Rico`.
pub open spec fn puerto_rico() -> Table {
    Table::listed(Table::row(0, -15865, 0, "LMT").1, 4, puerto_rico_rows())
}

/// Row `i` of the table of the zone `America/Punta_Arenas`.
pub open spec fn punta_arenas_row(i: int) -> (i64, FixedTimespan) {
    if i < 59 {
     if i < 29 {
      if i < 14 {
       if i < 7 {
        if i < 3 {
         if i < 1 {
          Table::row(-2524504580, -16965, 0, "SMT")
         } else {
          if i < 2 {
           Table::row(-1892661435, -18000, 0, "-05")
          } else {
           Table::row(-1688410800, -16965, 0, "SMT")
          }
         }
        } else {
         if i < 5 {
          if i < 4 {
           Table::row(-1619205435, -14400, 0, "-04")
          } else {
           Table::row(-1593806400, -16965, 0, "SMT")
          }
         } else {
          if i < 6 {
           Table::row(-1335986235, -16965, 2565, "-04")
          } else {
           Table::row(-1317585600, -18000, 0, "-05")
          }
         }
        }
       } else {
        if i < 10 {
         if i < 8 {
          Table::row(-1304362800, -18000, 3600, "-04")
         } else {
          if i < 9 {
           Table::row(-1286049600, -18000, 0, "-05")
          } else {
           Table::row(-1272826800, -18000, 3600, "-04")
          }
         }
        } else {
         if i < 12 {
          if i < 11 {
           Table::row(-1254513600, -18000, 0, "-05")
          } else {
           Table::row(-1241290800, -18000, 3600, "-04")
          }
         } else {
          if i < 13 {
           Table::row(-1222977600, -18000, 0, "-05")
          } else {
           Table::row(-1209754800, -18000, 3600, "-04")
          }
         }
        }
       }
      } else {
       if i < 21 {
        if i < 17 {
         if i < 15 {
          Table::row(-1191355200, -18000, 0, "-05")
         } else {
          if i < 16 {
           Table::row(-1178132400, -14400, 0, "-04")
          } else {
           Table::row(-870552000, -18000, 0, "-05")
          }
         }
        } else {
         if i < 19 {
          if i < 18 {
           Table::row(-865278000, -14400, 0, "-04")
          } else {
           Table::row(-736632000, -18000, 3600, "-04")
          }
         } else {
          if i < 20 {
           Table::row(-718056000, -18000, 0, "-05")
          } else {
           Table::row(-713649600, -14400, 0, "-04")
          }
         }
        }
       } else {
        if i < 25 {
         if i < 23 {
          if i < 22 {
           Table::row(-36619200, -14400, 3600, "-03")
          } else {
           Table::row(-23922000, -14400, 0, "-04")
          }
         } else {
          if i < 24 {
           Table::row(-3355200, -14400, 3600, "-03")
          } else {
           Table::row(7527600, -14400, 0, "-04")
          }
         }
        } else {
         if i < 27 {
          if i < 26 {
           Table::row(24465600, -14400, 3600, "-03")
          } else {
           Table::row(37767600, -14400, 0, "-04")
          }
         } else {
          if i < 28 {
           Table::row(55915200, -14400, 3600, "-03")
          } else {
           Table::row(69217200, -14400, 0, "-04")
          }
         }
        }
       }
      }
     } else {
      if i < 44 {
       if i < 36 {
        if i < 32 {
         if i < 30 {
          Table::row(87969600, -14400, 3600, "-03")
         } else {
          if i < 31 {
           Table::row(100666800, -14400, 0, "-04")
          } else {
           Table::row(118209600, -14400, 3600, "-03")
          }
         }
        } else {
         if i < 34 {
          if i < 33 {
           Table::row(132116400, -14400, 0, "-04")
          } else {
           Table::row(150868800, -14400, 3600, "-03")
          }
         } else {
          if i < 35 {
           Table::row(163566000, -14400, 0, "-04")
          } else {
           Table::row(182318400, -14400, 3600, "-03")
          }
         }
        }
       } else {
        if i < 40 {
         if i < 38 {
          if i < 37 {
           Table::row(195620400, -14400, 0, "-04")
          } else {
           Table::row(213768000, -14400, 3600, "-03")
          }
         } else {
          if i < 39 {
           Table::row(227070000, -14400, 0, "-04")
          } else {
           Table::row(245217600, -14400, 3600, "-03")
          }
         }
        } else {
         if i < 42 {
          if i < 41 {
           Table::row(258519600, -14400, 0, "-04")
          } else {
           Table::row(277272000, -14400, 3600, "-03")
          }
         } else {
          if i < 43 {
           Table::row(289969200, -14400, 0, "-04")
          } else {
           Table::row(308721600, -14400, 3600, "-03")
          }
         }
        }
       }
      } else {
       if i < 51 {
        if i < 47 {
         if i < 45 {
          Table::row(321418800, -14400, 0, "-04")
         } else {
          if i < 46 {
           Table::row(340171200, -14400, 3600, "-03")
          } else {
           Table::row(353473200, -14400, 0, "-04")
          }
         }
        } else {
         if i < 49 {
          if i < 48 {
           Table::row(371620800, -14400, 3600, "-03")
          } else {
           Table::row(384922800, -14400, 0, "-04")
          }
         } else {
          if i < 50 {
           Table::row(403070400, -14400, 3600, "-03")
          } else {
           Table::row(416372400, -14400, 0, "-04")
          }
         }
        }
       } else {
        if i < 55 {
         if i < 53 {
          if i < 52 {
           Table::row(434520000, -14400, 3600, "-03")
          } else {
           Table::row(447822000, -14400, 0, "-04")
          }
         } else {
          if i < 54 {
           Table::row(466574400, -14400, 3600, "-03")
          } else {
           Table::row(479271600, -14400, 0, "-04")
          }
         }
        } else {
         if i < 57 {
          if i < 56 {
           Table::row(498024000, -14400, 3600, "-03")
          } else {
           Table::row(510721200, -14400, 0, "-04")
          }
         } else {
          if i < 58 {
           Table::row(529473600, -14400, 3600, "-03")
          } else {
           Table::row(545194800, -14400, 0, "-04")
          }
         }
        }
       }
      }
     }
    } else {
     if i < 88 {
      if i < 73 {
       if i < 66 {
        if i < 62 {
         if i < 60 {
          Table::row(560923200, -14400, 3600, "-03")
         } else {
          if i < 61 {
           Table::row(574225200, -14400, 0, "-04")
          } else {
           Table::row(592372800, -14400, 3600, "-03")
          }
         }
        } else {
         if i < 64 {
          if i < 63 {
           Table::row(605674800, -14400, 0, "-04")
          } else {
           Table::row(624427200, -14400, 3600, "-03")
          }
         } else {
          if i < 65 {
           Table::row(637124400, -14400, 0, "-04")
          } else {
           Table::row(653457600, -14400, 3600, "-03")
          }
         }
        }
       } else {
        if i < 69 {
         if i < 67 {
          Table::row(668574000, -14400, 0, "-04")
         } else {
          if i < 68 {
           Table::row(687326400, -14400, 3600, "-03")
          } else {
           Table::row(700628400, -14400, 0, "-04")
          }
         }
        } else {
         if i < 71 {
          if i < 70 {
           Table::row(718776000, -14400, 3600, "-03")
          } else {
           Table::row(732078000, -14400, 0, "-04")
          }
         } else {
          if i < 72 {
           Table::row(750225600, -14400, 3600, "-03")
          } else {
           Table::row(763527600, -14400, 0, "-04")
          }
         }
        }
       }
      } else {
       if i < 80 {
        if i < 76 {
         if i < 74 {
          Table::row(781675200, -14400, 3600, "-03")
         } else {
          if i < 75 {
           Table::row(794977200, -14400, 0, "-04")
          } else {
           Table::row(813729600, -14400, 3600, "-03")
          }
         }
        } else {
         if i < 78 {
          if i < 77 {
           Table::row(826426800, -14400, 0, "-04")
          } else {
           Table::row(845179200, -14400, 3600, "-03")
          }
         } else {
          if i < 79 {
           Table::row(859690800, -14400, 0, "-04")
          } else {
           Table::row(876628800, -14400, 3600, "-03")
          }
         }
        }
       } else {
        if i < 84 {
         if i < 82 {
          if i < 81 {
           Table::row(889930800, -14400, 0, "-04")
          } else {
           Table::row(906868800, -14400, 3600, "-03")
          }
         } else {
          if i < 83 {
           Table::row(923194800, -14400, 0, "-04")
          } else {
           Table::row(939528000, -14400, 3600, "-03")
          }
         }
        } else {
         if i < 86 {
          if i < 85 {
           Table::row(952830000, -14400, 0, "-04")
          } else {
           Table::row(971582400, -14400, 3600, "-03")
          }
         } else {
          if i < 87 {
           Table::row(984279600, -14400, 0, "-04")
          } else {
           Table::row(1003032000, -14400, 3600, "-03")
          }
         }
        }
       }
      }
     } else {
      if i < 103 {
       if i < 95 {
        if i < 91 {
         if i < 89 {
          Table::row(1015729200, -14400, 0, "-04")
         } else {
          if i < 90 {
           Table::row(1034481600, -14400, 3600, "-03")
          } else {
           Table::row(1047178800, -14400, 0, "-04")
          }
         }
        } else {
         if i < 93 {
          if i < 92 {
           Table::row(1065931200, -14400, 3600, "-03")
          } else {
           Table::row(1079233200, -14400, 0, "-04")
          }
         } else {
          if i < 94 {
           Table::row(1097380800, -14400, 3600, "-03")
          } else {
           Table::row(1110682800, -14400, 0, "-04")
          }
         }
        }
       } else {
        if i < 99 {
         if i < 97 {
          if i < 96 {
           Table::row(1128830400, -14400, 3600, "-03")
          } else {
           Table::row(1142132400, -14400, 0, "-04")
          }
         } else {
          if i < 98 {
           Table::row(1160884800, -14400, 3600, "-03")
          } else {
           Table::row(1173582000, -14400, 0, "-04")
          }
         }
        } else {
         if i < 101 {
          if i < 100 {
           Table::row(1192334400, -14400, 3600, "-03")
          } else {
           Table::row(1206846000, -14400, 0, "-04")
          }
         } else {
          if i < 102 {
           Table::row(1223784000, -14400, 3600, "-03")
          } else {
           Table::row(1237086000, -14400, 0, "-04")
          }
         }
        }
       }
      } else {
       if i < 110 {
        if i < 106 {
         if i < 104 {
          Table::row(1255233600, -14400, 3600, "-03")
         } else {
          if i < 105 {
           Table::row(1270350000, -14400, 0, "-04")
          } else {
           Table::row(1286683200, -14400, 3600, "-03")
          }
         }
        } else {
         if i < 108 {
          if i < 107 {
           Table::row(1304823600, -14400, 0, "-04")
          } else {
           Table::row(1313899200, -14400, 3600, "-03")
          }
         } else {
          if i < 109 {
           Table::row(1335668400, -14400, 0, "-04")
          } else {
           Table::row(1346558400, -14400, 3600, "-03")
          }
         }
        }
       } else {
        if i < 114 {
         if i < 112 {
          if i < 111 {
           Table::row(1367118000, -14400, 0, "-04")
          } else {
           Table::row(1378612800, -14400, 3600, "-03")
          }
         } else {
          if i < 113 {
           Table::row(1398567600, -14400, 0, "-04")
          } else {
           Table::row(1410062400, -14400, 3600, "-03")
          }
         }
        } else {
         if i < 116 {
          if i < 115 {
           Table::row(1463281200, -14400, 0, "-04")
          } else {
           Table::row(1471147200, -14400, 3600, "-03")
          }
         } else {
          if i < 117 {
           Table::row(1480820400, -10800, 0, "-03")
          } else {
           Table::row(2147483647, -10800, 0, "-03")
          }
         }
        }
       }
      }
     }
    }
}

/// The rows of the table of the zone `America/Punta_Arenas`.
pub open spec fn punta_arenas_rows() -> spec_fn(int) -> (i64, FixedTimespan) {
    |i: int| punta_arenas_row(i)
}

/// The table of the zone `America/Punta_Arenas`.
pub open spec fn punta_arenas() -> Table {
    Table::listed(Table::row(0, -17020, 0, "LMT").1, 118, punta_arenas_rows())
}

/// Row `i` of the table of the zone `America/Rainy_River`.
pub open spec fn rainy_river_row(i: int) -> (i64, FixedTimespan) {
    if i < 93 {
     if i < 46 {
      if i < 23 {
       if i < 11 {
        if i < 5 {
         if i < 2 {
          if i < 1 {
           Table::row(-2602258284, -21600, 0, "CST")
          } else {
           Table::row(-1694368800, -21600, 3600, "CDT")
          }
         } else {
          if i < 3 {
           Table::row(-1681671600, -21600, 0, "CST")
          } else {
           if i < 4 {
            Table::row(-1632067200, -21600, 3600, "CDT")
           } else {
            Table::row(-1615136400, -21600, 0, "CST")
           }
          }
         }
        } else {
         if i < 8 {
          if i < 6 {
           Table::row(-1029686400, -21600, 3600, "CDT")
          } else {
           if i < 7 {
            Table::row(-1018198800, -21600, 0, "CST")
           } else {
            Table::row(-880214400, -21600, 3600, "CWT")
           }
          }
         } else {
          if i < 9 {
           Table::row(-769395600, -21600, 3600, "CPT")
          } else {
           if i < 10 {
            Table::row(-765392400, -21600, 0, "CST")
           } else {
            Table::row(-746035200, -21600, 3600, "CDT")
           }
          }
         }
        }
       } else {
        if i < 17 {
         if i < 14 {
          if i < 12 {
           Table::row(-732733200, -21600, 0, "CST")
          } else {
           if i < 13 {
            Table::row(-715795200, -21600, 3600, "CDT")
           } else {
            Table::row(-702493200, -21600, 0, "CST")
           }
          }
         } else {
          if i < 15 {
           Table::row(-684345600, -21600, 3600, "CDT")
          } else {
           if i < 16 {
            Table::row(-671043600, -21600, 0, "CST")
           } else {
            Table::row(-652896000, -21600, 3600, "CDT")
           }
          }
         }
        } else {
         if i < 20 {
          if i < 18 {
           Table::row(-639594000, -21600, 0, "CST")
          } else {
           if i < 19 {
            Table::row(-620755200, -21600, 3600, "CDT")
           } else {
            Table::row(-607626000, -21600, 0, "CST")
           }
          }
         } else {
          if i < 21 {
           Table::row(-589392000, -21600, 3600, "CDT")
          } else {
           if i < 22 {
            Table::row(-576090000, -21600, 0, "CST")
           } else {
            Table::row(-557942400, -21600, 3600, "CDT")
           }
          }
         }
        }
       }
      } else {
       if i < 34 {
        if i < 28 {
         if i < 25 {
          if i < 24 {
           Table::row(-544640400, -21600, 0, "CST")
          } else {
           Table::row(-526492800, -21600, 3600, "CDT")
          }
         } else {
          if i < 26 {
           Table::row(-513190800, -21600, 0, "CST")
          } else {
           if i < 27 {
            Table::row(-495043200, -21600, 3600, "CDT")
           } else {
            Table::row(-481741200, -21600, 0, "CST")
           }
          }
         }
        } else {
         if i < 31 {
          if i < 29 {
           Table::row(-463593600, -21600, 3600, "CDT")
          } else {
           if i < 30 {
            Table::row(-450291600, -21600, 0, "CST")
           } else {
            Table::row(-431539200, -21600, 3600, "CDT")
           }
          }
         } else {
          if i < 32 {
           Table::row(-418237200, -21600, 0, "CST")
          } else {
           if i < 33 {
            Table::row(-400089600, -21600, 3600, "CDT")
           } else {
            Table::row(-386787600, -21600, 0, "CST")
           }
          }
         }
        }
       } else {
        if i < 40 {
         if i < 37 {
          if i < 35 {
           Table::row(-368640000, -21600, 3600, "CDT")
          } else {
           if i < 36 {
            Table::row(-355338000, -21600, 0, "CST")
           } else {
            Table::row(-337190400, -21600, 3600, "CDT")
           }
          }
         } else {
          if i < 38 {
           Table::row(-321469200, -21600, 0, "CST")
          } else {
           if i < 39 {
            Table::row(-305740800, -21600, 3600, "CDT")
           } else {
            Table::row(-292438800, -21600, 0, "CST")
           }
          }
         }
        } else {
         if i < 43 {
          if i < 41 {
           Table::row(-210787200, -21600, 3600, "CDT")
          } else {
           if i < 42 {
            Table::row(-198090000, -21600, 0, "CST")
           } else {
            Table::row(-116438400, -21600, 3600, "CDT")
           }
          }
         } else {
          if i < 44 {
           Table::row(-100108800, -21600, 0, "CST")
          } else {
           if i < 45 {
            Table::row(-84384000, -21600, 3600, "CDT")
           } else {
            Table::row(-68659200, -21600, 0, "CST")
           }
          }
         }
        }
       }
      }
     } else {
      if i < 69 {
       if i < 57 {
        if i < 51 {
         if i < 48 {
          if i < 47 {
           Table::row(-52934400, -21600, 3600, "CDT")
          } else {
           Table::row(-37209600, -21600, 0, "CST")
          }
         } else {
          if i < 49 {
           Table::row(-21484800, -21600, 3600, "CDT")
          } else {
           if i < 50 {
            Table::row(-5760000, -21600, 0, "CST")
           } else {
            Table::row(9964800, -21600, 3600, "CDT")
           }
          }
         }
        } else {
         if i < 54 {
          if i < 52 {
           Table::row(25689600, -21600, 0, "CST")
          } else {
           if i < 53 {
            Table::row(41414400, -21600, 3600, "CDT")
           } else {
            Table::row(57744000, -21600, 0, "CST")
           }
          }
         } else {
          if i < 55 {
           Table::row(73468800, -21600, 3600, "CDT")
          } else {
           if i < 56 {
            Table::row(89193600, -21600, 0, "CST")
           } else {
            Table::row(104918400, -21600, 3600, "CDT")
           }
          }
         }
        }
       } else {
        if i < 63 {
         if i < 60 {
          if i < 58 {
           Table::row(120643200, -21600, 0, "CST")
          } else {
           if i < 59 {
            Table::row(136368000, -21600, 3600, "CDT")
           } else {
            Table::row(152092800, -21600, 0, "CST")
           }
          }
         } else {
          if i < 61 {
           Table::row(167817600, -21600, 3600, "CDT")
          } else {
           if i < 62 {
            Table::row(183542400, -21600, 0, "CST")
           } else {
            Table::row(199267200, -21600, 3600, "CDT")
           }
          }
         }
        } else {
         if i < 66 {
          if i < 64 {
           Table::row(215596800, -21600, 0, "CST")
          } else {
           if i < 65 {
            Table::row(230716800, -21600, 3600, "CDT")
           } else {
            Table::row(247046400, -21600, 0, "CST")
           }
          }
         } else {
          if i < 67 {
           Table::row(262771200, -21600, 3600, "CDT")
          } else {
           if i < 68 {
            Table::row(278496000, -21600, 0, "CST")
           } else {
            Table::row(294220800, -21600, 3600, "CDT")
           }
          }
         }
        }
       }
      } else {
       if i < 81 {
        if i < 75 {
         if i < 72 {
          if i < 70 {
           Table::row(309945600, -21600, 0, "CST")
          } else {
           if i < 71 {
            Table::row(325670400, -21600, 3600, "CDT")
           } else {
            Table::row(341395200, -21600, 0, "CST")
           }
          }
         } else {
          if i < 73 {
           Table::row(357120000, -21600, 3600, "CDT")
          } else {
           if i < 74 {
            Table::row(372844800, -21600, 0, "CST")
           } else {
            Table::row(388569600, -21600, 3600, "CDT")
           }
          }
         }
        } else {
         if i < 78 {
          if i < 76 {
           Table::row(404899200, -21600, 0, "CST")
          } else {
           if i < 77 {
            Table::row(420019200, -21600, 3600, "CDT")
           } else {
            Table::row(436348800, -21600, 0, "CST")
           }
          }
         } else {
          if i < 79 {
           Table::row(452073600, -21600, 3600, "CDT")
          } else {
           if i < 80 {
            Table::row(467798400, -21600, 0, "CST")
           } else {
            Table::row(483523200, -21600, 3600, "CDT")
           }
          }
         }
        }
       } else {
        if i < 87 {
         if i < 84 {
          if i < 82 {
           Table::row(499248000, -21600, 0, "CST")
          } else {
           if i < 83 {
            Table::row(514972800, -21600, 3600, "CDT")
           } else {
            Table::row(530697600, -21600, 0, "CST")
           }
          }
         } else {
          if i < 85 {
           Table::row(544608000, -21600, 3600, "CDT")
          } else {
           if i < 86 {
            Table::row(562147200, -21600, 0, "CST")
           } else {
            Table::row(576057600, -21600, 3600, "CDT")
           }
          }
         }
        } else {
         if i < 90 {
          if i < 88 {
           Table::row(594201600, -21600, 0, "CST")
          } else {
           if i < 89 {
            Table::row(607507200, -21600, 3600, "CDT")
           } else {
            Table::row(625651200, -21600, 0, "CST")
           }
          }
         } else {
          if i < 91 {
           Table::row(638956800, -21600, 3600, "CDT")
          } else {
           if i < 92 {
            Table::row(657100800, -21600, 0, "CST")
           } else {
            Table::row(671011200, -21600, 3600, "CDT")
           }
          }
         }
        }
       }
      }
     }
    } else {
     if i < 139 {
      if i < 116 {
       if i < 104 {
        if i < 98 {
         if i < 95 {
          if i < 94 {
           Table::row(688550400, -21600, 0, "CST")
          } else {
           Table::row(702460800, -21600, 3600, "CDT")
          }
         } else {
          if i < 96 {
           Table::row(720000000, -21600, 0, "CST")
          } else {
           if i < 97 {
            Table::row(733910400, -21600, 3600, "CDT")
           } else {
            Table::row(752054400, -21600, 0, "CST")
           }
          }
         }
        } else {
         if i < 101 {
          if i < 99 {
           Table::row(765360000, -21600, 3600, "CDT")
          } else {
           if i < 100 {
            Table::row(783504000, -21600, 0, "CST")
           } else {
            Table::row(796809600, -21600, 3600, "CDT")
           }
          }
         } else {
          if i < 102 {
           Table::row(814953600, -21600, 0, "CST")
          } else {
           if i < 103 {
            Table::row(828864000, -21600, 3600, "CDT")
           } else {
            Table::row(846403200, -21600, 0, "CST")
           }
          }
         }
        }
       } else {
        if i < 110 {
         if i < 107 {
          if i < 105 {
           Table::row(860313600, -21600, 3600, "CDT")
          } else {
           if i < 106 {
            Table::row(877852800, -21600, 0, "CST")
           } else {
            Table::row(891763200, -21600, 3600, "CDT")
           }
          }
         } else {
          if i < 108 {
           Table::row(909302400, -21600, 0, "CST")
          } else {
           if i < 109 {
            Table::row(923212800, -21600, 3600, "CDT")
           } else {
            Table::row(941356800, -21600, 0, "CST")
           }
          }
         }
        } else {
         if i < 113 {
          if i < 111 {
           Table::row(954662400, -21600, 3600, "CDT")
          } else {
           if i < 112 {
            Table::row(972806400, -21600, 0, "CST")
           } else {
            Table::row(986112000, -21600, 3600, "CDT")
           }
          }
         } else {
          if i < 114 {
           Table::row(1004256000, -21600, 0, "CST")
          } else {
           if i < 115 {
            Table::row(1018166400, -21600, 3600, "CDT")
           } else {
            Table::row(1035705600, -21600, 0, "CST")
           }
          }
         }
        }
       }
      } else {
       if i < 127 {
        if i < 121 {
         if i < 118 {
          if i < 117 {
           Table::row(1049616000, -21600, 3600, "CDT")
          } else {
           Table::row(1067155200, -21600, 0, "CST")
          }
         } else {
          if i < 119 {
           Table::row(1081065600, -21600, 3600, "CDT")
          } else {
           if i < 120 {
            Table::row(1099209600, -21600, 0, "CST")
           } else {
            Table::row(1112515200, -21600, 3600, "CDT")
           }
          }
         }
        } else {
         if i < 124 {
          if i < 122 {
           Table::row(1130659200, -21600, 0, "CST")
          } else {
           if i < 123 {
            Table::row(1143964800, -21600, 3600, "CDT")
           } else {
            Table::row(1162105200, -21600, 0, "CST")
           }
          }
         } else {
          if i < 125 {
           Table::row(1173600000, -21600, 3600, "CDT")
          } else {
           if i < 126 {
            Table::row(1194159600, -21600, 0, "CST")
           } else {
            Table::row(1205049600, -21600, 3600, "CDT")
           }
          }
         }
        }
       } else {
        if i < 133 {
         if i < 130 {
          if i < 128 {
           Table::row(1225609200, -21600, 0, "CST")
          } else {
           if i < 129 {
            Table::row(1236499200, -21600, 3600, "CDT")
           } else {
            Table::row(1257058800, -21600, 0, "CST")
           }
          }
         } else {
          if i < 131 {
           Table::row(1268553600, -21600, 3600, "CDT")
          } else {
           if i < 132 {
            Table::row(1289113200, -21600, 0, "CST")
           } else {
            Table::row(1300003200, -21600, 3600, "CDT")
           }
          }
         }
        } else {
         if i < 136 {
          if i < 134 {
           Table::row(1320562800, -21600, 0, "CST")
          } else {
           if i < 135 {
            Table::row(1331452800, -21600, 3600, "CDT")
           } else {
            Table::row(1352012400, -21600, 0, "CST")
           }
          }
         } else {
          if i < 137 {
           Table::row(1362902400, -21600, 3600, "CDT")
          } else {
           if i < 138 {
            Table::row(1383462000, -21600, 0, "CST")
           } else {
            Table::row(1394352000, -21600, 3600, "CDT")
           }
          }
         }
        }
       }
      }
     } else {
      if i < 162 {
       if i < 150 {
        if i < 144 {
         if i < 141 {
          if i < 140 {
           Table::row(1414911600, -21600, 0, "CST")
          } else {
           Table::row(1425801600, -21600, 3600, "CDT")
          }
         } else {
          if i < 142 {
           Table::row(1446361200, -21600, 0, "CST")
          } else {
           if i < 143 {
            Table::row(1457856000, -21600, 3600, "CDT")
           } else {
            Table::row(1478415600, -21600, 0, "CST")
           }
          }
         }
        } else {
         if i < 147 {
          if i < 145 {
           Table::row(1489305600, -21600, 3600, "CDT")
          } else {
           if i < 146 {
            Table::row(1509865200, -21600, 0, "CST")
           } else {
            Table::row(1520755200, -21600, 3600, "CDT")
           }
          }
         } else {
          if i < 148 {
           Table::row(1541314800, -21600, 0, "CST")
          } else {
           if i < 149 {
            Table::row(1552204800, -21600, 3600, "CDT")
           } else {
            Table::row(1572764400, -21600, 0, "CST")
           }
          }
         }
        }
       } else {
        if i < 156 {
         if i < 153 {
          if i < 151 {
           Table::row(1583654400, -21600, 3600, "CDT")
          } else {
           if i < 152 {
            Table::row(1604214000, -21600, 0, "CST")
           } else {
            Table::row(1615708800, -21600, 3600, "CDT")
           }
          }
         } else {
          if i < 154 {
           Table::row(1636268400, -21600, 0, "CST")
          } else {
           if i < 155 {
            Table::row(1647158400, -21600, 3600, "CDT")
           } else {
            Table::row(1667718000, -21600, 0, "CST")
           }
          }
         }
        } else {
         if i < 159 {
          if i < 157 {
           Table::row(1678608000, -21600, 3600, "CDT")
          } else {
           if i < 158 {
            Table::row(1699167600, -21600, 0, "CST")
           } else {
            Table::row(1710057600, -21600, 3600, "CDT")
           }
          }
         } else {
          if i < 160 {
           Table::row(1730617200, -21600, 0, "CST")
          } else {
           if i < 161 {
            Table::row(1741507200, -21600, 3600, "CDT")
           } else {
            Table::row(1762066800, -21600, 0, "CST")
           }
          }
         }
        }
       }
      } else {
       if i < 174 {
        if i < 168 {
         if i < 165 {
          if i < 163 {
           Table::row(1772956800, -21600, 3600, "CDT")
          } else {
           if i < 164 {
            Table::row(1793516400, -21600, 0, "CST")
           } else {
            Table::row(1805011200, -21600, 3600, "CDT")
           }
          }
         } else {
          if i < 166 {
           Table::row(1825570800, -21600, 0, "CST")
          } else {
           if i < 167 {
            Table::row(1836460800, -21600, 3600, "CDT")
           } else {
            Table::row(1857020400, -21600, 0, "CST")
           }
          }
         }
        } else {
         if i < 171 {
          if i < 169 {
           Table::row(1867910400, -21600, 3600, "CDT")
          } else {
           if i < 170 {
            Table::row(1888470000, -21600, 0, "CST")
           } else {
            Table::row(1899360000, -21600, 3600, "CDT")
           }
          }
         } else {
          if i < 172 {
           Table::row(1919919600, -21600, 0, "CST")
          } else {
           if i < 173 {
            Table::row(1930809600, -21600, 3600, "CDT")
           } else {
            Table::row(1951369200, -21600, 0, "CST")
           }
          }
         }
        }
       } else {
        if i < 180 {
         if i < 177 {
          if i < 175 {
           Table::row(1962864000, -21600, 3600, "CDT")
          } else {
           if i < 176 {
            Table::row(1983423600, -21600, 0, "CST")
           } else {
            Table::row(1994313600, -21600, 3600, "CDT")
           }
          }
         } else {
          if i < 178 {
           Table::row(2014873200, -21600, 0, "CST")
          } else {
           if i < 179 {
            Table::row(2025763200, -21600, 3600, "CDT")
           } else {
            Table::row(2046322800, -21600, 0, "CST")
           }
          }
         }
        } else {
         if i < 183 {
          if i < 181 {
           Table::row(2057212800, -21600, 3600, "CDT")
          } else {
           if i < 182 {
            Table::row(2077772400, -21600, 0, "CST")
           } else {
            Table::row(2088662400, -21600, 3600, "CDT")
           }
          }
         } else {
          if i < 184 {
           Table::row(2109222000, -21600, 0, "CST")
          } else {
           if i < 185 {
            Table::row(2120112000, -21600, 3600, "CDT")
           } else {
            Table::row(2140671600, -21600, 0, "CST")
           }
          }
         }
        }
       }
      }
     }
    }
}

/// The rows of the table of the zone `America/Rainy_River`.
pub open spec fn rainy_river_rows() -> spec_fn(int) -> (i64, FixedTimespan) {
    |i: int| rainy_river_row(i)
}

/// The table of the zone `America/Rainy_River`.
pub open spec fn rainy_river() -> Table {
    Table::listed(Table::row(0, -23316, 0, "LMT").1, 186, rainy_river_rows())
}

/// Row `i` of the table of the zone `America/Rankin_Inlet`.
pub open spec fn rankin_inlet_row(i: int) -> (i64, FixedTimespan) {
    if i < 66 {
     if i < 33 {
      if i < 16 {
       if i < 8 {
        if i < 4 {
         if i < 2 {
          if i < 1 {
           Table::row(-410227200, -21600, 0, "CST")
          } else {
           Table::row(73468800, -21600, 3600, "CDT")
          }
         } else {
          if i < 3 {
           Table::row(89190000, -21600, 0, "CST")
          } else {
           Table::row(104918400, -21600, 3600, "CDT")
          }
         }
        } else {
         if i < 6 {
          if i < 5 {
           Table::row(120639600, -21600, 0, "CST")
          } else {
           Table::row(136368000, -21600, 3600, "CDT")
          }
         } else {
          if i < 7 {
           Table::row(152089200, -21600, 0, "CST")
          } else {
           Table::row(167817600, -21600, 3600, "CDT")
          }
         }
        }
       } else {
        if i < 12 {
         if i < 10 {
          if i < 9 {
           Table::row(183538800, -21600, 0, "CST")
          } else {
           Table::row(199267200, -21600, 3600, "CDT")
          }
         } else {
          if i < 11 {
           Table::row(215593200, -21600, 0, "CST")
          } else {
           Table::row(230716800, -21600, 3600, "CDT")
          }
         }
        } else {
         if i < 14 {
          if i < 13 {
           Table::row(247042800, -21600, 0, "CST")
          } else {
           Table::row(262771200, -21600, 3600, "CDT")
          }
         } else {
          if i < 15 {
           Table::row(278492400, -21600, 0, "CST")
          } else {
           Table::row(294220800, -21600, 3600, "CDT")
          }
         }
        }
       }
      } else {
       if i < 24 {
        if i < 20 {
         if i < 18 {
          if i < 17 {
           Table::row(309942000, -21600, 0, "CST")
          } else {
           Table::row(325670400, -21600, 3600, "CDT")
          }
         } else {
          if i < 19 {
           Table::row(341391600, -21600, 0, "CST")
          } else {
           Table::row(357120000, -21600, 3600, "CDT")
          }
         }
        } else {
         if i < 22 {
          if i < 21 {
           Table::row(372841200, -21600, 0, "CST")
          } else {
           Table::row(388569600, -21600, 3600, "CDT")
          }
         } else {
          if i < 23 {
           Table::row(404895600, -21600, 0, "CST")
          } else {
           Table::row(420019200, -21600, 3600, "CDT")
          }
         }
        }
       } else {
        if i < 28 {
         if i < 26 {
          if i < 25 {
           Table::row(436345200, -21600, 0, "CST")
          } else {
           Table::row(452073600, -21600, 3600, "CDT")
          }
         } else {
          if i < 27 {
           Table::row(467794800, -21600, 0, "CST")
          } else {
           Table::row(483523200, -21600, 3600, "CDT")
          }
         }
        } else {
         if i < 30 {
          if i < 29 {
           Table::row(499244400, -21600, 0, "CST")
          } else {
           Table::row(514972800, -21600, 3600, "CDT")
          }
         } else {
          if i < 31 {
           Table::row(530694000, -21600, 0, "CST")
          } else {
           if i < 32 {
            Table::row(544608000, -21600, 3600, "CDT")
           } else {
            Table::row(562143600, -21600, 0, "CST")
           }
          }
         }
        }
       }
      }
     } else {
      if i < 49 {
       if i < 41 {
        if i < 37 {
         if i < 35 {
          if i < 34 {
           Table::row(576057600, -21600, 3600, "CDT")
          } else {
           Table::row(594198000, -21600, 0, "CST")
          }
         } else {
          if i < 36 {
           Table::row(607507200, -21600, 3600, "CDT")
          } else {
           Table::row(625647600, -21600, 0, "CST")
          }
         }
        } else {
         if i < 39 {
          if i < 38 {
           Table::row(638956800, -21600, 3600, "CDT")
          } else {
           Table::row(657097200, -21600, 0, "CST")
          }
         } else {
          if i < 40 {
           Table::row(671011200, -21600, 3600, "CDT")
          } else {
           Table::row(688546800, -21600, 0, "CST")
          }
         }
        }
       } else {
        if i < 45 {
         if i < 43 {
          if i < 42 {
           Table::row(702460800, -21600, 3600, "CDT")
          } else {
           Table::row(719996400, -21600, 0, "CST")
          }
         } else {
          if i < 44 {
           Table::row(733910400, -21600, 3600, "CDT")
          } else {
           Table::row(752050800, -21600, 0, "CST")
          }
         }
        } else {
         if i < 47 {
          if i < 46 {
           Table::row(765360000, -21600, 3600, "CDT")
          } else {
           Table::row(783500400, -21600, 0, "CST")
          }
         } else {
          if i < 48 {
           Table::row(796809600, -21600, 3600, "CDT")
          } else {
           Table::row(814950000, -21600, 0, "CST")
          }
         }
        }
       }
      } else {
       if i < 57 {
        if i < 53 {
         if i < 51 {
          if i < 50 {
           Table::row(828864000, -21600, 3600, "CDT")
          } else {
           Table::row(846399600, -21600, 0, "CST")
          }
         } else {
          if i < 52 {
           Table::row(860313600, -21600, 3600, "CDT")
          } else {
           Table::row(877849200, -21600, 0, "CST")
          }
         }
        } else {
         if i < 55 {
          if i < 54 {
           Table::row(891763200, -21600, 3600, "CDT")
          } else {
           Table::row(909298800, -21600, 0, "CST")
          }
         } else {
          if i < 56 {
           Table::row(923212800, -21600, 3600, "CDT")
          } else {
           Table::row(941353200, -21600, 0, "CST")
          }
         }
        }
       } else {
        if i < 61 {
         if i < 59 {
          if i < 58 {
           Table::row(954662400, -21600, 3600, "CDT")
          } else {
           Table::row(972802800, -18000, 0, "EST")
          }
         } else {
          if i < 60 {
           Table::row(986112000, -21600, 3600, "CDT")
          } else {
           Table::row(1004252400, -21600, 0, "CST")
          }
         }
        } else {
         if i < 63 {
          if i < 62 {
           Table::row(1018166400, -21600, 3600, "CDT")
          } else {
           Table::row(1035702000, -21600, 0, "CST")
          }
         } else {
          if i < 64 {
           Table::row(1049616000, -21600, 3600, "CDT")
          } else {
           if i < 65 {
            Table::row(1067151600, -21600, 0, "CST")
           } else {
            Table::row(1081065600, -21600, 3600, "CDT")
           }
          }
         }
        }
       }
      }
     }
    } else {
     if i < 99 {
      if i < 82 {
       if i < 74 {
        if i < 70 {
         if i < 68 {
          if i < 67 {
           Table::row(1099206000, -21600, 0, "CST")
          } else {
           Table::row(1112515200, -21600, 3600, "CDT")
          }
         } else {
          if i < 69 {
           Table::row(1130655600, -21600, 0, "CST")
          } else {
           Table::row(1143964800, -21600, 3600, "CDT")
          }
         }
        } else {
         if i < 72 {
          if i < 71 {
           Table::row(1162105200, -21600, 0, "CST")
          } else {
           Table::row(1173600000, -21600, 3600, "CDT")
          }
         } else {
          if i < 73 {
           Table::row(1194159600, -21600, 0, "CST")
          } else {
           Table::row(1205049600, -21600, 3600, "CDT")
          }
         }
        }
       } else {
        if i < 78 {
         if i < 76 {
          if i < 75 {
           Table::row(1225609200, -21600, 0, "CST")
          } else {
           Table::row(1236499200, -21600, 3600, "CDT")
          }
         } else {
          if i < 77 {
           Table::row(1257058800, -21600, 0, "CST")
          } else {
           Table::row(1268553600, -21600, 3600, "CDT")
          }
         }
        } else {
         if i < 80 {
          if i < 79 {
           Table::row(1289113200, -21600, 0, "CST")
          } else {
           Table::row(1300003200, -21600, 3600, "CDT")
          }
         } else {
          if i < 81 {
           Table::row(1320562800, -21600, 0, "CST")
          } else {
           Table::row(1331452800, -21600, 3600, "CDT")
          }
         }
        }
       }
      } else {
       if i < 90 {
        if i < 86 {
         if i < 84 {
          if i < 83 {
           Table::row(1352012400, -21600, 0, "CST")
          } else {
           Table::row(1362902400, -21600, 3600, "CDT")
          }
         } else {
          if i < 85 {
           Table::row(1383462000, -21600, 0, "CST")
          } else {
           Table::row(1394352000, -21600, 3600, "CDT")
          }
         }
        } else {
         if i < 88 {
          if i < 87 {
           Table::row(1414911600, -21600, 0, "CST")
          } else {
           Table::row(1425801600, -21600, 3600, "CDT")
          }
         } else {
          if i < 89 {
           Table::row(1446361200, -21600, 0, "CST")
          } else {
           Table::row(1457856000, -21600, 3600, "CDT")
          }
         }
        }
       } else {
        if i < 94 {
         if i < 92 {
          if i < 91 {
           Table::row(1478415600, -21600, 0, "CST")
          } else {
           Table::row(1489305600, -21600, 3600, "CDT")
          }
         } else {
          if i < 93 {
           Table::row(1509865200, -21600, 0, "CST")
          } else {
           Table::row(1520755200, -21600, 3600, "CDT")
          }
         }
        } else {
         if i < 96 {
          if i < 95 {
           Table::row(1541314800, -21600, 0, "CST")
          } else {
           Table::row(1552204800, -21600, 3600, "CDT")
          }
         } else {
          if i < 97 {
           Table::row(1572764400, -21600, 0, "CST")
          } else {
           if i < 98 {
            Table::row(1583654400, -21600, 3600, "CDT")
           } else {
            Table::row(1604214000, -21600, 0, "CST")
           }
          }
         }
        }
       }
      }
     } else {
      if i < 116 {
       if i < 107 {
        if i < 103 {
         if i < 101 {
          if i < 100 {
           Table::row(1615708800, -21600, 3600, "CDT")
          } else {
           Table::row(1636268400, -21600, 0, "CST")
          }
         } else {
          if i < 102 {
           Table::row(1647158400, -21600, 3600, "CDT")
          } else {
           Table::row(1667718000, -21600, 0, "CST")
          }
         }
        } else {
         if i < 105 {
          if i < 104 {
           Table::row(1678608000, -21600, 3600, "CDT")
          } else {
           Table::row(1699167600, -21600, 0, "CST")
          }
         } else {
          if i < 106 {
           Table::row(1710057600, -21600, 3600, "CDT")
          } else {
           Table::row(1730617200, -21600, 0, "CST")
          }
         }
        }
       } else {
        if i < 111 {
         if i < 109 {
          if i < 108 {
           Table::row(1741507200, -21600, 3600, "CDT")
          } else {
           Table::row(1762066800, -21600, 0, "CST")
          }
         } else {
          if i < 110 {
           Table::row(1772956800, -21600, 3600, "CDT")
          } else {
           Table::row(1793516400, -21600, 0, "CST")
          }
         }
        } else {
         if i < 113 {
          if i < 112 {
           Table::row(1805011200, -21600, 3600, "CDT")
          } else {
           Table::row(1825570800, -21600, 0, "CST")
          }
         } else {
          if i < 114 {
           Table::row(1836460800, -21600, 3600, "CDT")
          } else {
           if i < 115 {
            Table::row(1857020400, -21600, 0, "CST")
           } else {
            Table::row(1867910400, -21600, 3600, "CDT")
           }
          }
         }
        }
       }
      } else {
       if i < 124 {
        if i < 120 {
         if i < 118 {
          if i < 117 {
           Table::row(1888470000, -21600, 0, "CST")
          } else {
           Table::row(1899360000, -21600, 3600, "CDT")
          }
         } else {
          if i < 119 {
           Table::row(1919919600, -21600, 0, "CST")
          } else {
           Table::row(1930809600, -21600, 3600, "CDT")
          }
         }
        } else {
         if i < 122 {
          if i < 121 {
           Table::row(1951369200, -21600, 0, "CST")
          } else {
           Table::row(1962864000, -21600, 3600, "CDT")
          }
         } else {
          if i < 123 {
           Table::row(1983423600, -21600, 0, "CST")
          } else {
           Table::row(1994313600, -21600, 3600, "CDT")
          }
         }
        }
       } else {
        if i < 128 {
         if i < 126 {
          if i < 125 {
           Table::row(2014873200, -21600, 0, "CST")
          } else {
           Table::row(2025763200, -21600, 3600, "CDT")
          }
         } else {
          if i < 127 {
           Table::row(2046322800, -21600, 0, "CST")
          } else {
           Table::row(2057212800, -21600, 3600, "CDT")
          }
         }
        } else {
         if i < 130 {
          if i < 129 {
           Table::row(2077772400, -21600, 0, "CST")
          } else {
           Table::row(2088662400, -21600, 3600, "CDT")
          }
         } else {
          if i < 131 {
           Table::row(2109222000, -21600, 0, "CST")
          } else {
           if i < 132 {
            Table::row(2120112000, -21600, 3600, "CDT")
           } else {
            Table::row(2140671600, -21600, 0, "CST")
           }
          }
         }
        }
       }
      }
     }
    }
}

/// The rows of the table of the zone `America/Rankin_Inlet`.
pub open spec fn rankin_inlet_rows() -> spec_fn(int) -> (i64, FixedTimespan) {
    |i: int| rankin_inlet_row(i)
}

/// The table of the zone `America/Rankin_Inlet`.
pub open spec fn rankin_inlet() -> Table {
    Table::listed(Table::row(0, 0, 0, "-00").1, 133, rankin_inlet_rows())
}

/// Row `i` of the table of the zone `America/Recife`.
pub open spec fn recife_row(i: int) -> (i64, FixedTimespan) {
    if i < 20 {
     if i < 10 {
      if i < 5 {
       if i < 2 {
        if i < 1 {
         Table::row(-1767217224, -10800, 0, "-03")
        } else {
         Table::row(-1206957600, -10800, 3600, "-02")
        }
       } else {
        if i < 3 {
         Table::row(-1191362400, -10800, 0, "-03")
        } else {
         if i < 4 {
          Table::row(-1175374800, -10800, 3600, "-02")
         } else {
          Table::row(-1159826400, -10800, 0, "-03")
         }
        }
       }
      } else {
       if i < 7 {
        if i < 6 {
         Table::row(-633819600, -10800, 3600, "-02")
        } else {
         Table::row(-622069200, -10800, 0, "-03")
        }
       } else {
        if i < 8 {
         Table::row(-602283600, -10800, 3600, "-02")
        } else {
         if i < 9 {
          Table::row(-591832800, -10800, 0, "-03")
         } else {
          Table::row(-570747600, -10800, 3600, "-02")
         }
        }
       }
      }
     } else {
      if i < 15 {
       if i < 12 {
        if i < 11 {
         Table::row(-560210400, -10800, 0, "-03")
        } else {
         Table::row(-539125200, -10800, 3600, "-02")
        }
       } else {
        if i < 13 {
         Table::row(-531352800, -10800, 0, "-03")
        } else {
         if i < 14 {
          Table::row(-191365200, -10800, 3600, "-02")
         } else {
          Table::row(-184197600, -10800, 0, "-03")
         }
        }
       }
      } else {
       if i < 17 {
        if i < 16 {
         Table::row(-155163600, -10800, 3600, "-02")
        } else {
         Table::row(-150069600, -10800, 0, "-03")
        }
       } else {
        if i < 18 {
         Table::row(-128898000, -10800, 3600, "-02")
        } else {
         if i < 19 {
          Table::row(-121125600, -10800, 0, "-03")
         } else {
          Table::row(-99954000, -10800, 3600, "-02")
         }
        }
       }
      }
     }
    } else {
     if i < 30 {
      if i < 25 {
       if i < 22 {
        if i < 21 {
         Table::row(-89589600, -10800, 0, "-03")
        } else {
         Table::row(-68418000, -10800, 3600, "-02")
        }
       } else {
        if i < 23 {
         Table::row(-57967200, -10800, 0, "-03")
        } else {
         if i < 24 {
          Table::row(499748400, -10800, 3600, "-02")
         } else {
          Table::row(511236000, -10800, 0, "-03")
         }
        }
       }
      } else {
       if i < 27 {
        if i < 26 {
         Table::row(530593200, -10800, 3600, "-02")
        } else {
         Table::row(540266400, -10800, 0, "-03")
        }
       } else {
        if i < 28 {
         Table::row(562129200, -10800, 3600, "-02")
        } else {
         if i < 29 {
          Table::row(571197600, -10800, 0, "-03")
         } else {
          Table::row(592974000, -10800, 3600, "-02")
         }
        }
       }
      }
     } else {
      if i < 35 {
       if i < 32 {
        if i < 31 {
         Table::row(602042400, -10800, 0, "-03")
        } else {
         Table::row(624423600, -10800, 3600, "-02")
        }
       } else {
        if i < 33 {
         Table::row(634701600, -10800, 0, "-03")
        } else {
         if i < 34 {
          Table::row(938919600, -10800, 3600, "-02")
         } else {
          Table::row(951616800, -10800, 0, "-03")
         }
        }
       }
      } else {
       if i < 37 {
        if i < 36 {
         Table::row(970974000, -10800, 3600, "-02")
        } else {
         Table::row(971575200, -10800, 0, "-03")
        }
       } else {
        if i < 38 {
         Table::row(1003028400, -10800, 3600, "-02")
        } else {
         if i < 39 {
          Table::row(1013911200, -10800, 0, "-03")
         } else {
          Table::row(2147483647, -10800, 0, "-03")
         }
        }
       }
      }
     }
    }
}

/// The rows of the table of the zone `America/Recife`.
pub open spec fn recife_rows() -> spec_fn(int) -> (i64, FixedTimespan) {
    |i: int| recife_row(i)
}

/// The table of the zone `America/Recife`.
pub open spec fn recife() -> Table {
    Table::listed(Table::row(0, -8376, 0, "LMT").1, 40, recife_rows())
}

/// Row `i` of the table of the zone `America/Regina`.
pub open spec fn regina_row(i: int) -> (i64, FixedTimespan) {
    if i < 26 {
     if i < 13 {
      if i < 6 {
       if i < 3 {
        if i < 1 {
         Table::row(-2030202084, -25200, 0, "MST")
        } else {
         if i < 2 {
          Table::row(-1632063600, -25200, 3600, "MDT")
         } else {
          Table::row(-1615132800, -25200, 0, "MST")
         }
        }
       } else {
        if i < 4 {
         Table::row(-1251651600, -25200, 3600, "MDT")
        } else {
         if i < 5 {
          Table::row(-1238349600, -25200, 0, "MST")
         } else {
          Table::row(-1220202000, -25200, 3600, "MDT")
         }
        }
       }
      } else {
       if i < 9 {
        if i < 7 {
         Table::row(-1206900000, -25200, 0, "MST")
        } else {
         if i < 8 {
          Table::row(-1188752400, -25200, 3600, "MDT")
         } else {
          Table::row(-1175450400, -25200, 0, "MST")
         }
        }
       } else {
        if i < 11 {
         if i < 10 {
          Table::row(-1156698000, -25200, 3600, "MDT")
         } else {
          Table::row(-1144000800, -25200, 0, "MST")
         }
        } else {
         if i < 12 {
          Table::row(-1125248400, -25200, 3600, "MDT")
         } else {
          Table::row(-1111946400, -25200, 0, "MST")
         }
        }
       }
      }
     } else {
      if i < 19 {
       if i < 16 {
        if i < 14 {
         Table::row(-1032714000, -25200, 3600, "MDT")
        } else {
         if i < 15 {
          Table::row(-1016992800, -25200, 0, "MST")
         } else {
          Table::row(-1001264400, -25200, 3600, "MDT")
         }
        }
       } else {
        if i < 17 {
         Table::row(-986148000, -25200, 0, "MST")
        } else {
         if i < 18 {
          Table::row(-969814800, -25200, 3600, "MDT")
         } else {
          Table::row(-954093600, -25200, 0, "MST")
         }
        }
       }
      } else {
       if i < 22 {
        if i < 20 {
         Table::row(-937760400, -25200, 3600, "MDT")
        } else {
         if i < 21 {
          Table::row(-922039200, -25200, 0, "MST")
         } else {
          Table::row(-906310800, -25200, 3600, "MDT")
         }
        }
       } else {
        if i < 24 {
         if i < 23 {
          Table::row(-890589600, -25200, 0, "MST")
         } else {
          Table::row(-880210800, -25200, 3600, "MWT")
         }
        } else {
         if i < 25 {
          Table::row(-769395600, -25200, 3600, "MPT")
         } else {
          Table::row(-765388800, -25200, 0, "MST")
         }
        }
       }
      }
     }
    } else {
     if i < 39 {
      if i < 32 {
       if i < 29 {
        if i < 27 {
         Table::row(-748450800, -25200, 3600, "MDT")
        } else {
         if i < 28 {
          Table::row(-732729600, -25200, 0, "MST")
         } else {
          Table::row(-715791600, -25200, 3600, "MDT")
         }
        }
       } else {
        if i < 30 {
         Table::row(-702489600, -25200, 0, "MST")
        } else {
         if i < 31 {
          Table::row(-684342000, -25200, 3600, "MDT")
         } else {
          Table::row(-671040000, -25200, 0, "MST")
         }
        }
       }
      } else {
       if i < 35 {
        if i < 33 {
         Table::row(-652892400, -25200, 3600, "MDT")
        } else {
         if i < 34 {
          Table::row(-639590400, -25200, 0, "MST")
         } else {
          Table::row(-620838000, -25200, 3600, "MDT")
         }
        }
       } else {
        if i < 37 {
         if i < 36 {
          Table::row(-608140800, -25200, 0, "MST")
         } else {
          Table::row(-589388400, -25200, 3600, "MDT")
         }
        } else {
         if i < 38 {
          Table::row(-576086400, -25200, 0, "MST")
         } else {
          Table::row(-557938800, -25200, 3600, "MDT")
         }
        }
       }
      }
     } else {
      if i < 46 {
       if i < 42 {
        if i < 40 {
         Table::row(-544636800, -25200, 0, "MST")
        } else {
         if i < 41 {
          Table::row(-526489200, -25200, 3600, "MDT")
         } else {
          Table::row(-513187200, -25200, 0, "MST")
         }
        }
       } else {
        if i < 44 {
         if i < 43 {
          Table::row(-495039600, -25200, 3600, "MDT")
         } else {
          Table::row(-481737600, -25200, 0, "MST")
         }
        } else {
         if i < 45 {
          Table::row(-463590000, -25200, 3600, "MDT")
         } else {
          Table::row(-450288000, -25200, 0, "MST")
         }
        }
       }
      } else {
       if i < 49 {
        if i < 47 {
         Table::row(-431535600, -25200, 3600, "MDT")
        } else {
         if i < 48 {
          Table::row(-418233600, -25200, 0, "MST")
         } else {
          Table::row(-400086000, -25200, 3600, "MDT")
         }
        }
       } else {
        if i < 51 {
         if i < 50 {
          Table::row(-386784000, -25200, 0, "MST")
         } else {
          Table::row(-337186800, -25200, 3600, "MDT")
         }
        } else {
         if i < 52 {
          Table::row(-321465600, -25200, 0, "MST")
         } else {
          Table::row(-305737200, -21600, 0, "CST")
         }
        }
       }
      }
     }
    }
}

/// The rows of the table of the zone `America/Regina`.
pub open spec fn regina_rows() -> spec_fn(int) -> (i64, FixedTimespan) {
    |i: int| regina_row(i)
}

/// The table of the zone `America/Regina`.
pub open spec fn regina() -> Table {
    Table::listed(Table::row(0, -25116, 0, "LMT").1, 53, regina_rows())
}

/// Row `i` of the table of the zone `America/Resolute`.
pub open spec fn resolute_row(i: int) -> (i64, FixedTimespan) {
    if i < 66 {
     if i < 33 {
      if i < 16 {
       if i < 8 {
        if i < 4 {
         if i < 2 {
          if i < 1 {
           Table::row(-704937600, -21600, 0, "CST")
          } else {
           Table::row(73468800, -21600, 3600, "CDT")
          }
         } else {
          if i < 3 {
           Table::row(89190000, -21600, 0, "CST")
          } else {
           Table::row(104918400, -21600, 3600, "CDT")
          }
         }
        } else {
         if i < 6 {
          if i < 5 {
           Table::row(120639600, -21600, 0, "CST")
          } else {
           Table::row(136368000, -21600, 3600, "CDT")
          }
         } else {
          if i < 7 {
           Table::row(152089200, -21600, 0, "CST")
          } else {
           Table::row(167817600, -21600, 3600, "CDT")
          }
         }
        }
       } else {
        if i < 12 {
         if i < 10 {
          if i < 9 {
           Table::row(183538800, -21600, 0, "CST")
          } else {
           Table::row(199267200, -21600, 3600, "CDT")
          }
         } else {
          if i < 11 {
           Table::row(215593200, -21600, 0, "CST")
          } else {
           Table::row(230716800, -21600, 3600, "CDT")
          }
         }
        } else {
         if i < 14 {
          if i < 13 {
           Table::row(247042800, -21600, 0, "CST")
          } else {
           Table::row(262771200, -21600, 3600, "CDT")
          }
         } else {
          if i < 15 {
           Table::row(278492400, -21600, 0, "CST")
          } else {
           Table::row(294220800, -21600, 3600, "CDT")
          }
         }
        }
       }
      } else {
       if i < 24 {
        if i < 20 {
         if i < 18 {
          if i < 17 {
           Table::row(309942000, -21600, 0, "CST")
          } else {
           Table::row(325670400, -21600, 3600, "CDT")
          }
         } else {
          if i < 19 {
           Table::row(341391600, -21600, 0, "CST")
          } else {
           Table::row(357120000, -21600, 3600, "CDT")
          }
         }
        } else {
         if i < 22 {
          if i < 21 {
           Table::row(372841200, -21600, 0, "CST")
          } else {
           Table::row(388569600, -21600, 3600, "CDT")
          }
         } else {
          if i < 23 {
           Table::row(404895600, -21600, 0, "CST")
          } else {
           Table::row(420019200, -21600, 3600, "CDT")
          }
         }
        }
       } else {
        if i < 28 {
         if i < 26 {
          if i < 25 {
           Table::row(436345200, -21600, 0, "CST")
          } else {
           Table::row(452073600, -21600, 3600, "CDT")
          }
         } else {
          if i < 27 {
           Table::row(467794800, -21600, 0, "CST")
          } else {
           Table::row(483523200, -21600, 3600, "CDT")
          }
         }
        } else {
         if i < 30 {
          if i < 29 {
           Table::row(499244400, -21600, 0, "CST")
          } else {
           Table::row(514972800, -21600, 3600, "CDT")
          }
         } else {
          if i < 31 {
           Table::row(530694000, -21600, 0, "CST")
          } else {
           if i < 32 {
            Table::row(544608000, -21600, 3600, "CDT")
           } else {
            Table::row(562143600, -21600, 0, "CST")
           }
          }
         }
        }
       }
      }
     } else {
      if i < 49 {
       if i < 41 {
        if i < 37 {
         if i < 35 {
          if i < 34 {
           Table::row(576057600, -21600, 3600, "CDT")
          } else {
           Table::row(594198000, -21600, 0, "CST")
          }
         } else {
          if i < 36 {
           Table::row(607507200, -21600, 3600, "CDT")
          } else {
           Table::row(625647600, -21600, 0, "CST")
          }
         }
        } else {
         if i < 39 {
          if i < 38 {
           Table::row(638956800, -21600, 3600, "CDT")
          } else {
           Table::row(657097200, -21600, 0, "CST")
          }
         } else {
          if i < 40 {
           Table::row(671011200, -21600, 3600, "CDT")
          } else {
           Table::row(688546800, -21600, 0, "CST")
          }
         }
        }
       } else {
        if i < 45 {
         if i < 43 {
          if i < 42 {
           Table::row(702460800, -21600, 3600, "CDT")
          } else {
           Table::row(719996400, -21600, 0, "CST")
          }
         } else {
          if i < 44 {
           Table::row(733910400, -21600, 3600, "CDT")
          } else {
           Table::row(752050800, -21600, 0, "CST")
          }
         }
        } else {
         if i < 47 {
          if i < 46 {
           Table::row(765360000, -21600, 3600, "CDT")
          } else {
           Table::row(783500400, -21600, 0, "CST")
          }
         } else {
          if i < 48 {
           Table::row(796809600, -21600, 3600, "CDT")
          } else {
           Table::row(814950000, -21600, 0, "CST")
          }
         }
        }
       }
      } else {
       if i < 57 {
        if i < 53 {
         if i < 51 {
          if i < 50 {
           Table::row(828864000, -21600, 3600, "CDT")
          } else {
           Table::row(846399600, -21600, 0, "CST")
          }
         } else {
          if i < 52 {
           Table::row(860313600, -21600, 3600, "CDT")
          } else {
           Table::row(877849200, -21600, 0, "CST")
          }
         }
        } else {
         if i < 55 {
          if i < 54 {
           Table::row(891763200, -21600, 3600, "CDT")
          } else {
           Table::row(909298800, -21600, 0, "CST")
          }
         } else {
          if i < 56 {
           Table::row(923212800, -21600, 3600, "CDT")
          } else {
           Table::row(941353200, -21600, 0, "CST")
          }
         }
        }
       } else {
        if i < 61 {
         if i < 59 {
          if i < 58 {
           Table::row(954662400, -21600, 3600, "CDT")
          } else {
           Table::row(972802800, -18000, 0, "EST")
          }
         } else {
          if i < 60 {
           Table::row(986112000, -21600, 3600, "CDT")
          } else {
           Table::row(1004252400, -21600, 0, "CST")
          }
         }
        } else {
         if i < 63 {
          if i < 62 {
           Table::row(1018166400, -21600, 3600, "CDT")
          } else {
           Table::row(1035702000, -21600, 0, "CST")
          }
         } else {
          if i < 64 {
           Table::row(1049616000, -21600, 3600, "CDT")
          } else {
           if i < 65 {
            Table::row(1067151600, -21600, 0, "CST")
           } else {
            Table::row(1081065600, -21600, 3600, "CDT")
           }
          }
         }
        }
       }
      }
     }
    } else {
     if i < 99 {
      if i < 82 {
       if i < 74 {
        if i < 70 {
         if i < 68 {
          if i < 67 {
           Table::row(1099206000, -21600, 0, "CST")
          } else {
           Table::row(1112515200, -21600, 3600, "CDT")
          }
         } else {
          if i < 69 {
           Table::row(1130655600, -21600, 0, "CST")
          } else {
           Table::row(1143964800, -21600, 3600, "CDT")
          }
         }
        } else {
         if i < 72 {
          if i < 71 {
           Table::row(1162105200, -18000, 0, "EST")
          } else {
           Table::row(1173600000, -21600, 3600, "CDT")
          }
         } else {
          if i < 73 {
           Table::row(1194159600, -21600, 0, "CST")
          } else {
           Table::row(1205049600, -21600, 3600, "CDT")
          }
         }
        }
       } else {
        if i < 78 {
         if i < 76 {
          if i < 75 {
           Table::row(1225609200, -21600, 0, "CST")
          } else {
           Table::row(1236499200, -21600, 3600, "CDT")
          }
         } else {
          if i < 77 {
           Table::row(1257058800, -21600, 0, "CST")
          } else {
           Table::row(1268553600, -21600, 3600, "CDT")
          }
         }
        } else {
         if i < 80 {
          if i < 79 {
           Table::row(1289113200, -21600, 0, "CST")
          } else {
           Table::row(1300003200, -21600, 3600, "CDT")
          }
         } else {
          if i < 81 {
           Table::row(1320562800, -21600, 0, "CST")
          } else {
           Table::row(1331452800, -21600, 3600, "CDT")
          }
         }
        }
       }
      } else {
       if i < 90 {
        if i < 86 {
         if i < 84 {
          if i < 83 {
           Table::row(1352012400, -21600, 0, "CST")
          } else {
           Table::row(1362902400, -21600, 3600, "CDT")
          }
         } else {
          if i < 85 {
           Table::row(1383462000, -21600, 0, "CST")
          } else {
           Table::row(1394352000, -21600, 3600, "CDT")
          }
         }
        } else {
         if i < 88 {
          if i < 87 {
           Table::row(1414911600, -21600, 0, "CST")
          } else {
           Table::row(1425801600, -21600, 3600, "CDT")
          }
         } else {
          if i < 89 {
           Table::row(1446361200, -21600, 0, "CST")
          } else {
           Table::row(1457856000, -21600, 3600, "CDT")
          }
         }
        }
       } else {
        if i < 94 {
         if i < 92 {
          if i < 91 {
           Table::row(1478415600, -21600, 0, "CST")
          } else {
           Table::row(1489305600, -21600, 3600, "CDT")
          }
         } else {
          if i < 93 {
           Table::row(1509865200, -21600, 0, "CST")
          } else {
           Table::row(1520755200, -21600, 3600, "CDT")
          }
         }
        } else {
         if i < 96 {
          if i < 95 {
           Table::row(1541314800, -21600, 0, "CST")
          } else {
           Table::row(1552204800, -21600, 3600, "CDT")
          }
         } else {
          if i < 97 {
           Table::row(1572764400, -21600, 0, "CST")
          } else {
           if i < 98 {
            Table::row(1583654400, -21600, 3600, "CDT")
           } else {
            Table::row(1604214000, -21600, 0, "CST")
           }
          }
         }
        }
       }
      }
     } else {
      if i < 116 {
       if i < 107 {
        if i < 103 {
         if i < 101 {
          if i < 100 {
           Table::row(1615708800, -21600, 3600, "CDT")
          } else {
           Table::row(1636268400, -21600, 0, "CST")
          }
         } else {
          if i < 102 {
           Table::row(1647158400, -21600, 3600, "CDT")
          } else {
           Table::row(1667718000, -21600, 0, "CST")
          }
         }
        } else {
         if i < 105 {
          if i < 104 {
           Table::row(1678608000, -21600, 3600, "CDT")
          } else {
           Table::row(1699167600, -21600, 0, "CST")
          }
         } else {
          if i < 106 {
           Table::row(1710057600, -21600, 3600, "CDT")
          } else {
           Table::row(1730617200, -21600, 0, "CST")
          }
         }
        }
       } else {
        if i < 111 {
         if i < 109 {
          if i < 108 {
           Table::row(1741507200, -21600, 3600, "CDT")
          } else {
           Table::row(1762066800, -21600, 0, "CST")
          }
         } else {
          if i < 110 {
           Table::row(1772956800, -21600, 3600, "CDT")
          } else {
           Table::row(1793516400, -21600, 0, "CST")
          }
         }
        } else {
         if i < 113 {
          if i < 112 {
           Table::row(1805011200, -21600, 3600, "CDT")
          } else {
           Table::row(1825570800, -21600, 0, "CST")
          }
         } else {
          if i < 114 {
           Table::row(1836460800, -21600, 3600, "CDT")
          } else {
           if i < 115 {
            Table::row(1857020400, -21600, 0, "CST")
           } else {
            Table::row(1867910400, -21600, 3600, "CDT")
           }
          }
         }
        }
       }
      } else {
       if i < 124 {
        if i < 120 {
         if i < 118 {
          if i < 117 {
           Table::row(1888470000, -21600, 0, "CST")
          } else {
           Table::row(1899360000, -21600, 3600, "CDT")
          }
         } else {
          if i < 119 {
           Table::row(1919919600, -21600, 0, "CST")
          } else {
           Table::row(1930809600, -21600, 3600, "CDT")
          }
         }
        } else {
         if i < 122 {
          if i < 121 {
           Table::row(1951369200, -21600, 0, "CST")
          } else {
           Table::row(1962864000, -21600, 3600, "CDT")
          }
         } else {
          if i < 123 {
           Table::row(1983423600, -21600, 0, "CST")
          } else {
           Table::row(1994313600, -21600, 3600, "CDT")
          }
         }
        }
       } else {
        if i < 128 {
         if i < 126 {
          if i < 125 {
           Table::row(2014873200, -21600, 0, "CST")
          } else {
           Table::row(2025763200, -21600, 3600, "CDT")
          }
         } else {
          if i < 127 {
           Table::row(2046322800, -21600, 0, "CST")
          } else {
           Table::row(2057212800, -21600, 3600, "CDT")
          }
         }
        } else {
         if i < 130 {
          if i < 129 {
           Table::row(2077772400, -21600, 0, "CST")
          } else {
           Table::row(2088662400, -21600, 3600, "CDT")
          }
         } else {
          if i < 131 {
           Table::row(2109222000, -21600, 0, "CST")
          } else {
           if i < 132 {
            Table::row(2120112000, -21600, 3600, "CDT")
           } else {
            Table::row(2140671600, -21600, 0, "CST")
           }
          }
         }
        }
       }
      }
     }
    }
}

/// The rows of the table of the zone `America/Resolute`.
pub open spec fn resolute_rows() -> spec_fn(int) -> (i64, FixedTimespan) {
    |i: int| resolute_row(i)
}

/// The table of the zone `America/Resolute`.
pub open spec fn resolute() -> Table {
    Table::listed(Table::row(0, 0, 0, "-00").1, 133, resolute_rows())
}

/// Row `i` of the table of the zone `America/Rio_Branco`.
pub open spec fn rio_branco_row(i: int) -> (i64, FixedTimespan) {
    if i < 16 {
     if i < 8 {
      if i < 4 {
       if i < 2 {
        if i < 1 {
         Table::row(-1767209328, -18000, 0, "-05")
        } else {
         Table::row(-1206950400, -18000, 3600, "-04")
        }
       } else {
        if i < 3 {
         Table::row(-1191355200, -18000, 0, "-05")
        } else {
         Table::row(-1175367600, -18000, 3600, "-04")
        }
       }
      } else {
       if i < 6 {
        if i < 5 {
         Table::row(-1159819200, -18000, 0, "-05")
        } else {
         Table::row(-633812400, -18000, 3600, "-04")
        }
       } else {
        if i < 7 {
         Table::row(-622062000, -18000, 0, "-05")
        } else {
         Table::row(-602276400, -18000, 3600, "-04")
        }
       }
      }
     } else {
      if i < 12 {
       if i < 10 {
        if i < 9 {
         Table::row(-591825600, -18000, 0, "-05")
        } else {
         Table::row(-570740400, -18000, 3600, "-04")
        }
       } else {
        if i < 11 {
         Table::row(-560203200, -18000, 0, "-05")
        } else {
         Table::row(-539118000, -18000, 3600, "-04")
        }
       }
      } else {
       if i < 14 {
        if i < 13 {
         Table::row(-531345600, -18000, 0, "-05")
        } else {
         Table::row(-191358000, -18000, 3600, "-04")
        }
       } else {
        if i < 15 {
         Table::row(-184190400, -18000, 0, "-05")
        } else {
         Table::row(-155156400, -18000, 3600, "-04")
        }
       }
      }
     }
    } else {
     if i < 24 {
      if i < 20 {
       if i < 18 {
        if i < 17 {
         Table::row(-150062400, -18000, 0, "-05")
        } else {
         Table::row(-128890800, -18000, 3600, "-04")
        }
       } else {
        if i < 19 {
         Table::row(-121118400, -18000, 0, "-05")
        } else {
         Table::row(-99946800, -18000, 3600, "-04")
        }
       }
      } else {
       if i < 22 {
        if i < 21 {
         Table::row(-89582400, -18000, 0, "-05")
        } else {
         Table::row(-68410800, -18000, 3600, "-04")
        }
       } else {
        if i < 23 {
         Table::row(-57960000, -18000, 0, "-05")
        } else {
         Table::row(499755600, -18000, 3600, "-04")
        }
       }
      }
     } else {
      if i < 28 {
       if i < 26 {
        if i < 25 {
         Table::row(511243200, -18000, 0, "-05")
        } else {
         Table::row(530600400, -18000, 3600, "-04")
        }
       } else {
        if i < 27 {
         Table::row(540273600, -18000, 0, "-05")
        } else {
         Table::row(562136400, -18000, 3600, "-04")
        }
       }
      } else {
       if i < 30 {
        if i < 29 {
         Table::row(571204800, -18000, 0, "-05")
        } else {
         Table::row(1214283600, -14400, 0, "-04")
        }
       } else {
        if i < 31 {
         Table::row(1384056000, -18000, 0, "-05")
        } else {
         Table::row(2147483647, -18000, 0, "-05")
        }
       }
      }
     }
    }
}

/// The rows of the table of the zone `America/Rio_Branco`.
pub open spec fn rio_branco_rows() -> spec_fn(int) -> (i64, FixedTimespan) {
    |i: int| rio_branco_row(i)
}

/// The table of the zone `America/Rio_Branco`.
pub open spec fn rio_branco() -> Table {
    Table::listed(Table::row(0, -16272, 0, "LMT").1, 32, rio_branco_rows())
}

/// Row `i` of the table of the zone `America/Rosario`.
pub open spec fn rosario_row(i: int) -> (i64, FixedTimespan) {
    if i < 31 {
     if i < 15 {
      if i < 7 {
       if i < 3 {
        if i < 1 {
         Table::row(-2372096592, -15408, 0, "CMT")
        } else {
         if i < 2 {
          Table::row(-1567453392, -14400, 0, "-04")
         } else {
          Table::row(-1233432000, -14400, 3600, "-03")
         }
        }
       } else {
        if i < 5 {
         if i < 4 {
          Table::row(-1222981200, -14400, 0, "-04")
         } else {
          Table::row(-1205956800, -14400, 3600, "-03")
         }
        } else {
         if i < 6 {
          Table::row(-1194037200, -14400, 0, "-04")
         } else {
          Table::row(-1172865600, -14400, 3600, "-03")
         }
        }
       }
      } else {
       if i < 11 {
        if i < 9 {
         if i < 8 {
          Table::row(-1162501200, -14400, 0, "-04")
         } else {
          Table::row(-1141329600, -14400, 3600, "-03")
         }
        } else {
         if i < 10 {
          Table::row(-1130965200, -14400, 0, "-04")
         } else {
          Table::row(-1109793600, -14400, 3600, "-03")
         }
        }
       } else {
        if i < 13 {
         if i < 12 {
          Table::row(-1099429200, -14400, 0, "-04")
         } else {
          Table::row(-1078257600, -14400, 3600, "-03")
         }
        } else {
         if i < 14 {
          Table::row(-1067806800, -14400, 0, "-04")
         } else {
          Table::row(-1046635200, -14400, 3600, "-03")
         }
        }
       }
      }
     } else {
      if i < 23 {
       if i < 19 {
        if i < 17 {
         if i < 16 {
          Table::row(-1036270800, -14400, 0, "-04")
         } else {
          Table::row(-1015099200, -14400, 3600, "-03")
         }
        } else {
         if i < 18 {
          Table::row(-1004734800, -14400, 0, "-04")
         } else {
          Table::row(-983563200, -14400, 3600, "-03")
         }
        }
       } else {
        if i < 21 {
         if i < 20 {
          Table::row(-973198800, -14400, 0, "-04")
         } else {
          Table::row(-952027200, -14400, 3600, "-03")
         }
        } else {
         if i < 22 {
          Table::row(-941576400, -14400, 0, "-04")
         } else {
          Table::row(-931032000, -14400, 3600, "-03")
         }
        }
       }
      } else {
       if i < 27 {
        if i < 25 {
         if i < 24 {
          Table::row(-900882000, -14400, 0, "-04")
         } else {
          Table::row(-890337600, -14400, 3600, "-03")
         }
        } else {
         if i < 26 {
          Table::row(-833749200, -14400, 0, "-04")
         } else {
          Table::row(-827265600, -14400, 3600, "-03")
         }
        }
       } else {
        if i < 29 {
         if i < 28 {
          Table::row(-752274000, -14400, 0, "-04")
         } else {
          Table::row(-733780800, -14400, 3600, "-03")
         }
        } else {
         if i < 30 {
          Table::row(-197326800, -14400, 0, "-04")
         } else {
          Table::row(-190843200, -14400, 3600, "-03")
         }
        }
       }
      }
     }
    } else {
     if i < 46 {
      if i < 38 {
       if i < 34 {
        if i < 32 {
         Table::row(-184194000, -14400, 0, "-04")
        } else {
         if i < 33 {
          Table::row(-164491200, -14400, 3600, "-03")
         } else {
          Table::row(-152658000, -14400, 0, "-04")
         }
        }
       } else {
        if i < 36 {
         if i < 35 {
          Table::row(-132955200, -14400, 3600, "-03")
         } else {
          Table::row(-121122000, -14400, 0, "-04")
         }
        } else {
         if i < 37 {
          Table::row(-101419200, -14400, 3600, "-03")
         } else {
          Table::row(-86821200, -14400, 0, "-04")
         }
        }
       }
      } else {
       if i < 42 {
        if i < 40 {
         if i < 39 {
          Table::row(-71092800, -14400, 3600, "-03")
         } else {
          Table::row(-54766800, -14400, 0, "-04")
         }
        } else {
         if i < 41 {
          Table::row(-39038400, -14400, 3600, "-03")
         } else {
          Table::row(-23317200, -14400, 0, "-04")
         }
        }
       } else {
        if i < 44 {
         if i < 43 {
          Table::row(-7588800, -10800, 0, "-03")
         } else {
          Table::row(128142000, -10800, 3600, "-02")
         }
        } else {
         if i < 45 {
          Table::row(136605600, -10800, 0, "-03")
         } else {
          Table::row(596948400, -10800, 3600, "-02")
         }
        }
       }
      }
     } else {
      if i < 54 {
       if i < 50 {
        if i < 48 {
         if i < 47 {
          Table::row(605066400, -10800, 0, "-03")
         } else {
          Table::row(624423600, -10800, 3600, "-02")
         }
        } else {
         if i < 49 {
          Table::row(636516000, -10800, 0, "-03")
         } else {
          Table::row(656478000, -10800, 3600, "-02")
         }
        }
       } else {
        if i < 52 {
         if i < 51 {
          Table::row(667965600, -14400, 0, "-04")
         } else {
          Table::row(687931200, -14400, 7200, "-02")
         }
        } else {
         if i < 53 {
          Table::row(699415200, -10800, 0, "-03")
         } else {
          Table::row(719377200, -10800, 3600, "-02")
         }
        }
       }
      } else {
       if i < 58 {
        if i < 56 {
         if i < 55 {
          Table::row(731469600, -10800, 0, "-03")
         } else {
          Table::row(938919600, -14400, 3600, "-03")
         }
        } else {
         if i < 57 {
          Table::row(952052400, -10800, 0, "-03")
         } else {
          Table::row(1198983600, -10800, 3600, "-02")
         }
        }
       } else {
        if i < 60 {
         if i < 59 {
          Table::row(1205632800, -10800, 0, "-03")
         } else {
          Table::row(1224385200, -10800, 3600, "-02")
         }
        } else {
         if i < 61 {
          Table::row(1237082400, -10800, 0, "-03")
         } else {
          Table::row(2147483647, -10800, 0, "-03")
         }
        }
       }
      }
     }
    }
}

/// The rows of the table of the zone `America/Rosario`.
pub open spec fn rosario_rows() -> spec_fn(int) -> (i64, FixedTimespan) {
    |i: int| rosario_row(i)
}

/// The table of the zone `America/Rosario`.
pub open spec fn rosario() -> Table {
    Table::listed(Table::row(0, -15408, 0, "LMT").1, 62, rosario_rows())
}

/// Row `i` of the table of the zone `America/Santa_Isabel`.
pub open spec fn santa_isabel_row(i: int) -> (i64, FixedTimespan) {
    if i < 77 {
     if i < 38 {
      if i < 19 {
       if i < 9 {
        if i < 4 {
         if i < 2 {
          if i < 1 {
           Table::row(-1514739600, -25200, 0, "MST")
          } else {
           Table::row(-1451667600, -28800, 0, "PST")
          }
         } else {
          if i < 3 {
           Table::row(-1343145600, -25200, 0, "MST")
          } else {
           Table::row(-1234803600, -28800, 0, "PST")
          }
         }
        } else {
         if i < 6 {
          if i < 5 {
           Table::row(-1222963200, -28800, 3600, "PDT")
          } else {
           Table::row(-1207242000, -28800, 0, "PST")
          }
         } else {
          if i < 7 {
           Table::row(-873820800, -28800, 3600, "PWT")
          } else {
           if i < 8 {
            Table::row(-769395600, -28800, 3600, "PPT")
           } else {
            Table::row(-761418000, -28800, 0, "PST")
           }
          }
         }
        }
       } else {
        if i < 14 {
         if i < 11 {
          if i < 10 {
           Table::row(-686073600, -28800, 3600, "PDT")
          } else {
           Table::row(-661539600, -28800, 0, "PST")
          }
         } else {
          if i < 12 {
           Table::row(-620755200, -28800, 3600, "PDT")
          } else {
           if i < 13 {
            Table::row(-608144400, -28800, 0, "PST")
           } else {
            Table::row(-589384800, -28800, 3600, "PDT")
           }
          }
         }
        } else {
         if i < 16 {
          if i < 15 {
           Table::row(-576082800, -28800, 0, "PST")
          } else {
           Table::row(-557935200, -28800, 3600, "PDT")
          }
         } else {
          if i < 17 {
           Table::row(-544633200, -28800, 0, "PST")
          } else {
           if i < 18 {
            Table::row(-495039600, -28800, 3600, "PDT")
           } else {
            Table::row(-481734000, -28800, 0, "PST")
           }
          }
         }
        }
       }
      } else {
       if i < 28 {
        if i < 23 {
         if i < 21 {
          if i < 20 {
           Table::row(-463590000, -28800, 3600, "PDT")
          } else {
           Table::row(-450284400, -28800, 0, "PST")
          }
         } else {
          if i < 22 {
           Table::row(-431535600, -28800, 3600, "PDT")
          } else {
           Table::row(-418230000, -28800, 0, "PST")
          }
         }
        } else {
         if i < 25 {
          if i < 24 {
           Table::row(-400086000, -28800, 3600, "PDT")
          } else {
           Table::row(-386780400, -28800, 0, "PST")
          }
         } else {
          if i < 26 {
           Table::row(-368636400, -28800, 3600, "PDT")
          } else {
           if i < 27 {
            Table::row(-355330800, -28800, 0, "PST")
           } else {
            Table::row(-337186800, -28800, 3600, "PDT")
           }
          }
         }
        }
       } else {
        if i < 33 {
         if i < 30 {
          if i < 29 {
           Table::row(-323881200, -28800, 0, "PST")
          } else {
           Table::row(-305737200, -28800, 3600, "PDT")
          }
         } else {
          if i < 31 {
           Table::row(-292431600, -28800, 0, "PST")
          } else {
           if i < 32 {
            Table::row(199274400, -28800, 3600, "PDT")
           } else {
            Table::row(215600400, -28800, 0, "PST")
           }
          }
         }
        } else {
         if i < 35 {
          if i < 34 {
           Table::row(230724000, -28800, 3600, "PDT")
          } else {
           Table::row(247050000, -28800, 0, "PST")
          }
         } else {
          if i < 36 {
           Table::row(262778400, -28800, 3600, "PDT")
          } else {
           if i < 37 {
            Table::row(278499600, -28800, 0, "PST")
           } else {
            Table::row(294228000, -28800, 3600, "PDT")
           }
          }
         }
        }
       }
      }
     } else {
      if i < 57 {
       if i < 47 {
        if i < 42 {
         if i < 40 {
          if i < 39 {
           Table::row(309949200, -28800, 0, "PST")
          } else {
           Table::row(325677600, -28800, 3600, "PDT")
          }
         } else {
          if i < 41 {
           Table::row(341398800, -28800, 0, "PST")
          } else {
           Table::row(357127200, -28800, 3600, "PDT")
          }
         }
        } else {
         if i < 44 {
          if i < 43 {
           Table::row(372848400, -28800, 0, "PST")
          } else {
           Table::row(388576800, -28800, 3600, "PDT")
          }
         } else {
          if i < 45 {
           Table::row(404902800, -28800, 0, "PST")
          } else {
           if i < 46 {
            Table::row(420026400, -28800, 3600, "PDT")
           } else {
            Table::row(436352400, -28800, 0, "PST")
           }
          }
         }
        }
       } else {
        if i < 52 {
         if i < 49 {
          if i < 48 {
           Table::row(452080800, -28800, 3600, "PDT")
          } else {
           Table::row(467802000, -28800, 0, "PST")
          }
         } else {
          if i < 50 {
           Table::row(483530400, -28800, 3600, "PDT")
          } else {
           if i < 51 {
            Table::row(499251600, -28800, 0, "PST")
           } else {
            Table::row(514980000, -28800, 3600, "PDT")
           }
          }
         }
        } else {
         if i < 54 {
          if i < 53 {
           Table::row(530701200, -28800, 0, "PST")
          } else {
           Table::row(544615200, -28800, 3600, "PDT")
          }
         } else {
          if i < 55 {
           Table::row(562150800, -28800, 0, "PST")
          } else {
           if i < 56 {
            Table::row(576064800, -28800, 3600, "PDT")
           } else {
            Table::row(594205200, -28800, 0, "PST")
           }
          }
         }
        }
       }
      } else {
       if i < 67 {
        if i < 62 {
         if i < 59 {
          if i < 58 {
           Table::row(607514400, -28800, 3600, "PDT")
          } else {
           Table::row(625654800, -28800, 0, "PST")
          }
         } else {
          if i < 60 {
           Table::row(638964000, -28800, 3600, "PDT")
          } else {
           if i < 61 {
            Table::row(657104400, -28800, 0, "PST")
           } else {
            Table::row(671018400, -28800, 3600, "PDT")
           }
          }
         }
        } else {
         if i < 64 {
          if i < 63 {
           Table::row(688554000, -28800, 0, "PST")
          } else {
           Table::row(702468000, -28800, 3600, "PDT")
          }
         } else {
          if i < 65 {
           Table::row(720003600, -28800, 0, "PST")
          } else {
           if i < 66 {
            Table::row(733917600, -28800, 3600, "PDT")
           } else {
            Table::row(752058000, -28800, 0, "PST")
           }
          }
         }
        }
       } else {
        if i < 72 {
         if i < 69 {
          if i < 68 {
           Table::row(765367200, -28800, 3600, "PDT")
          } else {
           Table::row(783507600, -28800, 0, "PST")
          }
         } else {
          if i < 70 {
           Table::row(796816800, -28800, 3600, "PDT")
          } else {
           if i < 71 {
            Table::row(814957200, -28800, 0, "PST")
           } else {
            Table::row(828871200, -28800, 3600, "PDT")
           }
          }
         }
        } else {
         if i < 74 {
          if i < 73 {
           Table::row(846406800, -28800, 0, "PST")
          } else {
           Table::row(860320800, -28800, 3600, "PDT")
          }
         } else {
          if i < 75 {
           Table::row(877856400, -28800, 0, "PST")
          } else {
           if i < 76 {
            Table::row(891770400, -28800, 3600, "PDT")
           } else {
            Table::row(909306000, -28800, 0, "PST")
           }
          }
         }
        }
       }
      }
     }
    } else {
     if i < 116 {
      if i < 96 {
       if i < 86 {
        if i < 81 {
         if i < 79 {
          if i < 78 {
           Table::row(923220000, -28800, 3600, "PDT")
          } else {
           Table::row(941360400, -28800, 0, "PST")
          }
         } else {
          if i < 80 {
           Table::row(954669600, -28800, 3600, "PDT")
          } else {
           Table::row(972810000, -28800, 0, "PST")
          }
         }
        } else {
         if i < 83 {
          if i < 82 {
           Table::row(986119200, -28800, 3600, "PDT")
          } else {
           Table::row(1004259600, -28800, 0, "PST")
          }
         } else {
          if i < 84 {
           Table::row(1018173600, -28800, 3600, "PDT")
          } else {
           if i < 85 {
            Table::row(1035709200, -28800, 0, "PST")
           } else {
            Table::row(1049623200, -28800, 3600, "PDT")
           }
          }
         }
        }
       } else {
        if i < 91 {
         if i < 88 {
          if i < 87 {
           Table::row(1067158800, -28800, 0, "PST")
          } else {
           Table::row(1081072800, -28800, 3600, "PDT")
          }
         } else {
          if i < 89 {
           Table::row(1099213200, -28800, 0, "PST")
          } else {
           if i < 90 {
            Table::row(1112522400, -28800, 3600, "PDT")
           } else {
            Table::row(1130662800, -28800, 0, "PST")
           }
          }
         }
        } else {
         if i < 93 {
          if i < 92 {
           Table::row(1143972000, -28800, 3600, "PDT")
          } else {
           Table::row(1162112400, -28800, 0, "PST")
          }
         } else {
          if i < 94 {
           Table::row(1175421600, -28800, 3600, "PDT")
          } else {
           if i < 95 {
            Table::row(1193562000, -28800, 0, "PST")
           } else {
            Table::row(1207476000, -28800, 3600, "PDT")
           }
          }
         }
        }
       }
      } else {
       if i < 106 {
        if i < 101 {
         if i < 98 {
          if i < 97 {
           Table::row(1225011600, -28800, 0, "PST")
          } else {
           Table::row(1238925600, -28800, 3600, "PDT")
          }
         } else {
          if i < 99 {
           Table::row(1256461200, -28800, 0, "PST")
          } else {
           if i < 100 {
            Table::row(1268560800, -28800, 3600, "PDT")
           } else {
            Table::row(1289120400, -28800, 0, "PST")
           }
          }
         }
        } else {
         if i < 103 {
          if i < 102 {
           Table::row(1300010400, -28800, 3600, "PDT")
          } else {
           Table::row(1320570000, -28800, 0, "PST")
          }
         } else {
          if i < 104 {
           Table::row(1331460000, -28800, 3600, "PDT")
          } else {
           if i < 105 {
            Table::row(1352019600, -28800, 0, "PST")
           } else {
            Table::row(1362909600, -28800, 3600, "PDT")
           }
          }
         }
        }
       } else {
        if i < 111 {
         if i < 108 {
          if i < 107 {
           Table::row(1383469200, -28800, 0, "PST")
          } else {
           Table::row(1394359200, -28800, 3600, "PDT")
          }
         } else {
          if i < 109 {
           Table::row(1414918800, -28800, 0, "PST")
          } else {
           if i < 110 {
            Table::row(1425808800, -28800, 3600, "PDT")
           } else {
            Table::row(1446368400, -28800, 0, "PST")
           }
          }
         }
        } else {
         if i < 113 {
          if i < 112 {
           Table::row(1457863200, -28800, 3600, "PDT")
          } else {
           Table::row(1478422800, -28800, 0, "PST")
          }
         } else {
          if i < 114 {
           Table::row(1489312800, -28800, 3600, "PDT")
          } else {
           if i < 115 {
            Table::row(1509872400, -28800, 0, "PST")
           } else {
            Table::row(1520762400, -28800, 3600, "PDT")
           }
          }
         }
        }
       }
      }
     } else {
      if i < 135 {
       if i < 125 {
        if i < 120 {
         if i < 118 {
          if i < 117 {
           Table::row(1541322000, -28800, 0, "PST")
          } else {
           Table::row(1552212000, -28800, 3600, "PDT")
          }
         } else {
          if i < 119 {
           Table::row(1572771600, -28800, 0, "PST")
          } else {
           Table::row(1583661600, -28800, 3600, "PDT")
          }
         }
        } else {
         if i < 122 {
          if i < 121 {
           Table::row(1604221200, -28800, 0, "PST")
          } else {
           Table::row(1615716000, -28800, 3600, "PDT")
          }
         } else {
          if i < 123 {
           Table::row(1636275600, -28800, 0, "PST")
          } else {
           if i < 124 {
            Table::row(1647165600, -28800, 3600, "PDT")
           } else {
            Table::row(1667725200, -28800, 0, "PST")
           }
          }
         }
        }
       } else {
        if i < 130 {
         if i < 127 {
          if i < 126 {
           Table::row(1678615200, -28800, 3600, "PDT")
          } else {
           Table::row(1699174800, -28800, 0, "PST")
          }
         } else {
          if i < 128 {
           Table::row(1710064800, -28800, 3600, "PDT")
          } else {
           if i < 129 {
            Table::row(1730624400, -28800, 0, "PST")
           } else {
            Table::row(1741514400, -28800, 3600, "PDT")
           }
          }
         }
        } else {
         if i < 132 {
          if i < 131 {
           Table::row(1762074000, -28800, 0, "PST")
          } else {
           Table::row(1772964000, -28800, 3600, "PDT")
          }
         } else {
          if i < 133 {
           Table::row(1793523600, -28800, 0, "PST")
          } else {
           if i < 134 {
            Table::row(1805018400, -28800, 3600, "PDT")
           } else {
            Table::row(1825578000, -28800, 0, "PST")
           }
          }
         }
        }
       }
      } else {
       if i < 145 {
        if i < 140 {
         if i < 137 {
          if i < 136 {
           Table::row(1836468000, -28800, 3600, "PDT")
          } else {
           Table::row(1857027600, -28800, 0, "PST")
          }
         } else {
          if i < 138 {
           Table::row(1867917600, -28800, 3600, "PDT")
          } else {
           if i < 139 {
            Table::row(1888477200, -28800, 0, "PST")
           } else {
            Table::row(1899367200, -28800, 3600, "PDT")
           }
          }
         }
        } else {
         if i < 142 {
          if i < 141 {
           Table::row(1919926800, -28800, 0, "PST")
          } else {
           Table::row(1930816800, -28800, 3600, "PDT")
          }
         } else {
          if i < 143 {
           Table::row(1951376400, -28800, 0, "PST")
          } else {
           if i < 144 {
            Table::row(1962871200, -28800, 3600, "PDT")
           } else {
            Table::row(1983430800, -28800, 0, "PST")
           }
          }
         }
        }
       } else {
        if i < 150 {
         if i < 147 {
          if i < 146 {
           Table::row(1994320800, -28800, 3600, "PDT")
          } else {
           Table::row(2014880400, -28800, 0, "PST")
          }
         } else {
          if i < 148 {
           Table::row(2025770400, -28800, 3600, "PDT")
          } else {
           if i < 149 {
            Table::row(2046330000, -28800, 0, "PST")
           } else {
            Table::row(2057220000, -28800, 3600, "PDT")
           }
          }
         }
        } else {
         if i < 152 {
          if i < 151 {
           Table::row(2077779600, -28800, 0, "PST")
          } else {
           Table::row(2088669600, -28800, 3600, "PDT")
          }
         } else {
          if i < 153 {
           Table::row(2109229200, -28800, 0, "PST")
          } else {
           if i < 154 {
            Table::row(2120119200, -28800, 3600, "PDT")
           } else {
            Table::row(2140678800, -28800, 0, "PST")
           }
          }
         }
        }
       }
      }
     }
    }
}

/// The rows of the table of the zone `America/Santa_Isabel`.
pub open spec fn santa_isabel_rows() -> spec_fn(int) -> (i64, FixedTimespan) {
    |i: int| santa_isabel_row(i)
}

/// The table of the zone `America/Santa_Isabel`.
pub open spec fn santa_isabel() -> Table {
    Table::listed(Table::row(0, -28084, 0, "LMT").1, 155, santa_isabel_rows())
}

/// Row `i` of the table of the zone `America/Santarem`.
pub open spec fn santarem_row(i: int) -> (i64, FixedTimespan) {
    if i < 15 {
     if i < 7 {
      if i < 3 {
       if i < 1 {
        Table::row(-1767212472, -14400, 0, "-04")
       } else {
        if i < 2 {
         Table::row(-1206954000, -14400, 3600, "-03")
        } else {
         Table::row(-1191358800, -14400, 0, "-04")
        }
       }
      } else {
       if i < 5 {
        if i < 4 {
         Table::row(-1175371200, -14400, 3600, "-03")
        } else {
         Table::row(-1159822800, -14400, 0, "-04")
        }
       } else {
        if i < 6 {
         Table::row(-633816000, -14400, 3600, "-03")
        } else {
         Table::row(-622065600, -14400, 0, "-04")
        }
       }
      }
     } else {
      if i < 11 {
       if i < 9 {
        if i < 8 {
         Table::row(-602280000, -14400, 3600, "-03")
        } else {
         Table::row(-591829200, -14400, 0, "-04")
        }
       } else {
        if i < 10 {
         Table::row(-570744000, -14400, 3600, "-03")
        } else {
         Table::row(-560206800, -14400, 0, "-04")
        }
       }
      } else {
       if i < 13 {
        if i < 12 {
         Table::row(-539121600, -14400, 3600, "-03")
        } else {
         Table::row(-531349200, -14400, 0, "-04")
        }
       } else {
        if i < 14 {
         Table::row(-191361600, -14400, 3600, "-03")
        } else {
         Table::row(-184194000, -14400, 0, "-04")
        }
       }
      }
     }
    } else {
     if i < 23 {
      if i < 19 {
       if i < 17 {
        if i < 16 {
         Table::row(-155160000, -14400, 3600, "-03")
        } else {
         Table::row(-150066000, -14400, 0, "-04")
        }
       } else {
        if i < 18 {
         Table::row(-128894400, -14400, 3600, "-03")
        } else {
         Table::row(-121122000, -14400, 0, "-04")
        }
       }
      } else {
       if i < 21 {
        if i < 20 {
         Table::row(-99950400, -14400, 3600, "-03")
        } else {
         Table::row(-89586000, -14400, 0, "-04")
        }
       } else {
        if i < 22 {
         Table::row(-68414400, -14400, 3600, "-03")
        } else {
         Table::row(-57963600, -14400, 0, "-04")
        }
       }
      }
     } else {
      if i < 27 {
       if i < 25 {
        if i < 24 {
         Table::row(499752000, -14400, 3600, "-03")
        } else {
         Table::row(511239600, -14400, 0, "-04")
        }
       } else {
        if i < 26 {
         Table::row(530596800, -14400, 3600, "-03")
        } else {
         Table::row(540270000, -14400, 0, "-04")
        }
       }
      } else {
       if i < 29 {
        if i < 28 {
         Table::row(562132800, -14400, 3600, "-03")
        } else {
         Table::row(571201200, -14400, 0, "-04")
        }
       } else {
        if i < 30 {
         Table::row(1214280000, -10800, 0, "-03")
        } else {
         Table::row(2147483647, -10800, 0, "-03")
        }
       }
      }
     }
    }
}

/// The rows of the table of the zone `America/Santarem`.
pub open spec fn santarem_rows() -> spec_fn(int) -> (i64, FixedTimespan) {
    |i: int| santarem_row(i)
}

/// The table of the zone `America/Santarem`.
pub open spec fn santarem() -> Table {
    Table::listed(Table::row(0, -13128, 0, "LMT").1, 31, santarem_rows())
}

/// Row `i` of the table of the zone `America/Santiago`.
pub open spec fn santiago_row(i: int) -> (i64, FixedTimespan) {
    if i < 80 {
     if i < 40 {
      if i < 20 {
       if i < 10 {
        if i < 5 {
         if i < 2 {
          if i < 1 {
           Table::row(-2524504635, -16965, 0, "SMT")
          } else {
           Table::row(-1892661435, -18000, 0, "-05")
          }
         } else {
          if i < 3 {
           Table::row(-1688410800, -16965, 0, "SMT")
          } else {
           if i < 4 {
            Table::row(-1619205435, -14400, 0, "-04")
           } else {
            Table::row(-1593806400, -16965, 0, "SMT")
           }
          }
         }
        } else {
         if i < 7 {
          if i < 6 {
           Table::row(-1335986235, -16965, 2565, "-04")
          } else {
           Table::row(-1317585600, -18000, 0, "-05")
          }
         } else {
          if i < 8 {
           Table::row(-1304362800, -18000, 3600, "-04")
          } else {
           if i < 9 {
            Table::row(-1286049600, -18000, 0, "-05")
           } else {
            Table::row(-1272826800, -18000, 3600, "-04")
           }
          }
         }
        }
       } else {
        if i < 15 {
         if i < 12 {
          if i < 11 {
           Table::row(-1254513600, -18000, 0, "-05")
          } else {
           Table::row(-1241290800, -18000, 3600, "-04")
          }
         } else {
          if i < 13 {
           Table::row(-1222977600, -18000, 0, "-05")
          } else {
           if i < 14 {
            Table::row(-1209754800, -18000, 3600, "-04")
           } else {
            Table::row(-1191355200, -18000, 0, "-05")
           }
          }
         }
        } else {
         if i < 17 {
          if i < 16 {
           Table::row(-1178132400, -14400, 0, "-04")
          } else {
           Table::row(-870552000, -18000, 0, "-05")
          }
         } else {
          if i < 18 {
           Table::row(-865278000, -14400, 0, "-04")
          } else {
           if i < 19 {
            Table::row(-740520000, -14400, 3600, "-03")
           } else {
            Table::row(-736635600, -18000, 3600, "-04")
           }
          }
         }
        }
       }
      } else {
       if i < 30 {
        if i < 25 {
         if i < 22 {
          if i < 21 {
           Table::row(-718056000, -18000, 0, "-05")
          } else {
           Table::row(-713649600, -14400, 0, "-04")
          }
         } else {
          if i < 23 {
           Table::row(-36619200, -14400, 3600, "-03")
          } else {
           if i < 24 {
            Table::row(-23922000, -14400, 0, "-04")
           } else {
            Table::row(-3355200, -14400, 3600, "-03")
           }
          }
         }
        } else {
         if i < 27 {
          if i < 26 {
           Table::row(7527600, -14400, 0, "-04")
          } else {
           Table::row(24465600, -14400, 3600, "-03")
          }
         } else {
          if i < 28 {
           Table::row(37767600, -14400, 0, "-04")
          } else {
           if i < 29 {
            Table::row(55915200, -14400, 3600, "-03")
           } else {
            Table::row(69217200, -14400, 0, "-04")
           }
          }
         }
        }
       } else {
        if i < 35 {
         if i < 32 {
          if i < 31 {
           Table::row(87969600, -14400, 3600, "-03")
          } else {
           Table::row(100666800, -14400, 0, "-04")
          }
         } else {
          if i < 33 {
           Table::row(118209600, -14400, 3600, "-03")
          } else {
           if i < 34 {
            Table::row(132116400, -14400, 0, "-04")
           } else {
            Table::row(150868800, -14400, 3600, "-03")
           }
          }
         }
        } else {
         if i < 37 {
          if i < 36 {
           Table::row(163566000, -14400, 0, "-04")
          } else {
           Table::row(182318400, -14400, 3600, "-03")
          }
         } else {
          if i < 38 {
           Table::row(195620400, -14400, 0, "-04")
          } else {
           if i < 39 {
            Table::row(213768000, -14400, 3600, "-03")
           } else {
            Table::row(227070000, -14400, 0, "-04")
           }
          }
         }
        }
       }
      }
     } else {
      if i < 60 {
       if i < 50 {
        if i < 45 {
         if i < 42 {
          if i < 41 {
           Table::row(245217600, -14400, 3600, "-03")
          } else {
           Table::row(258519600, -14400, 0, "-04")
          }
         } else {
          if i < 43 {
           Table::row(277272000, -14400, 3600, "-03")
          } else {
           if i < 44 {
            Table::row(289969200, -14400, 0, "-04")
           } else {
            Table::row(308721600, -14400, 3600, "-03")
           }
          }
         }
        } else {
         if i < 47 {
          if i < 46 {
           Table::row(321418800, -14400, 0, "-04")
          } else {
           Table::row(340171200, -14400, 3600, "-03")
          }
         } else {
          if i < 48 {
           Table::row(353473200, -14400, 0, "-04")
          } else {
           if i < 49 {
            Table::row(371620800, -14400, 3600, "-03")
           } else {
            Table::row(384922800, -14400, 0, "-04")
           }
          }
         }
        }
       } else {
        if i < 55 {
         if i < 52 {
          if i < 51 {
           Table::row(403070400, -14400, 3600, "-03")
          } else {
           Table::row(416372400, -14400, 0, "-04")
          }
         } else {
          if i < 53 {
           Table::row(434520000, -14400, 3600, "-03")
          } else {
           if i < 54 {
            Table::row(447822000, -14400, 0, "-04")
           } else {
            Table::row(466574400, -14400, 3600, "-03")
           }
          }
         }
        } else {
         if i < 57 {
          if i < 56 {
           Table::row(479271600, -14400, 0, "-04")
          } else {
           Table::row(498024000, -14400, 3600, "-03")
          }
         } else {
          if i < 58 {
           Table::row(510721200, -14400, 0, "-04")
          } else {
           if i < 59 {
            Table::row(529473600, -14400, 3600, "-03")
           } else {
            Table::row(545194800, -14400, 0, "-04")
           }
          }
         }
        }
       }
      } else {
       if i < 70 {
        if i < 65 {
         if i < 62 {
          if i < 61 {
           Table::row(560923200, -14400, 3600, "-03")
          } else {
           Table::row(574225200, -14400, 0, "-04")
          }
         } else {
          if i < 63 {
           Table::row(592372800, -14400, 3600, "-03")
          } else {
           if i < 64 {
            Table::row(605674800, -14400, 0, "-04")
           } else {
            Table::row(624427200, -14400, 3600, "-03")
           }
          }
         }
        } else {
         if i < 67 {
          if i < 66 {
           Table::row(637124400, -14400, 0, "-04")
          } else {
           Table::row(653457600, -14400, 3600, "-03")
          }
         } else {
          if i < 68 {
           Table::row(668574000, -14400, 0, "-04")
          } else {
           if i < 69 {
            Table::row(687326400, -14400, 3600, "-03")
           } else {
            Table::row(700628400, -14400, 0, "-04")
           }
          }
         }
        }
       } else {
        if i < 75 {
         if i < 72 {
          if i < 71 {
           Table::row(718776000, -14400, 3600, "-03")
          } else {
           Table::row(732078000, -14400, 0, "-04")
          }
         } else {
          if i < 73 {
           Table::row(750225600, -14400, 3600, "-03")
          } else {
           if i < 74 {
            Table::row(763527600, -14400, 0, "-04")
           } else {
            Table::row(781675200, -14400, 3600, "-03")
           }
          }
         }
        } else {
         if i < 77 {
          if i < 76 {
           Table::row(794977200, -14400, 0, "-04")
          } else {
           Table::row(813729600, -14400, 3600, "-03")
          }
         } else {
          if i < 78 {
           Table::row(826426800, -14400, 0, "-04")
          } else {
           if i < 79 {
            Table::row(845179200, -14400, 3600, "-03")
           } else {
            Table::row(859690800, -14400, 0, "-04")
           }
          }
         }
        }
       }
      }
     }
    } else {
     if i < 120 {
      if i < 100 {
       if i < 90 {
        if i < 85 {
         if i < 82 {
          if i < 81 {
           Table::row(876628800, -14400, 3600, "-03")
          } else {
           Table::row(889930800, -14400, 0, "-04")
          }
         } else {
          if i < 83 {
           Table::row(906868800, -14400, 3600, "-03")
          } else {
           if i < 84 {
            Table::row(923194800, -14400, 0, "-04")
           } else {
            Table::row(939528000, -14400, 3600, "-03")
           }
          }
         }
        } else {
         if i < 87 {
          if i < 86 {
           Table::row(952830000, -14400, 0, "-04")
          } else {
           Table::row(971582400, -14400, 3600, "-03")
          }
         } else {
          if i < 88 {
           Table::row(984279600, -14400, 0, "-04")
          } else {
           if i < 89 {
            Table::row(1003032000, -14400, 3600, "-03")
           } else {
            Table::row(1015729200, -14400, 0, "-04")
           }
          }
         }
        }
       } else {
        if i < 95 {
         if i < 92 {
          if i < 91 {
           Table::row(1034481600, -14400, 3600, "-03")
          } else {
           Table::row(1047178800, -14400, 0, "-04")
          }
         } else {
          if i < 93 {
           Table::row(1065931200, -14400, 3600, "-03")
          } else {
           if i < 94 {
            Table::row(1079233200, -14400, 0, "-04")
           } else {
            Table::row(1097380800, -14400, 3600, "-03")
           }
          }
         }
        } else {
         if i < 97 {
          if i < 96 {
           Table::row(1110682800, -14400, 0, "-04")
          } else {
           Table::row(1128830400, -14400, 3600, "-03")
          }
         } else {
          if i < 98 {
           Table::row(1142132400, -14400, 0, "-04")
          } else {
           if i < 99 {
            Table::row(1160884800, -14400, 3600, "-03")
           } else {
            Table::row(1173582000, -14400, 0, "-04")
           }
          }
         }
        }
       }
      } else {
       if i < 110 {
        if i < 105 {
         if i < 102 {
          if i < 101 {
           Table::row(1192334400, -14400, 3600, "-03")
          } else {
           Table::row(1206846000, -14400, 0, "-04")
          }
         } else {
          if i < 103 {
           Table::row(1223784000, -14400, 3600, "-03")
          } else {
           if i < 104 {
            Table::row(1237086000, -14400, 0, "-04")
           } else {
            Table::row(1255233600, -14400, 3600, "-03")
           }
          }
         }
        } else {
         if i < 107 {
          if i < 106 {
           Table::row(1270350000, -14400, 0, "-04")
          } else {
           Table::row(1286683200, -14400, 3600, "-03")
          }
         } else {
          if i < 108 {
           Table::row(1304823600, -14400, 0, "-04")
          } else {
           if i < 109 {
            Table::row(1313899200, -14400, 3600, "-03")
           } else {
            Table::row(1335668400, -14400, 0, "-04")
           }
          }
         }
        }
       } else {
        if i < 115 {
         if i < 112 {
          if i < 111 {
           Table::row(1346558400, -14400, 3600, "-03")
          } else {
           Table::row(1367118000, -14400, 0, "-04")
          }
         } else {
          if i < 113 {
           Table::row(1378612800, -14400, 3600, "-03")
          } else {
           if i < 114 {
            Table::row(1398567600, -14400, 0, "-04")
           } else {
            Table::row(1410062400, -14400, 3600, "-03")
           }
          }
         }
        } else {
         if i < 117 {
          if i < 116 {
           Table::row(1463281200, -14400, 0, "-04")
          } else {
           Table::row(1471147200, -14400, 3600, "-03")
          }
         } else {
          if i < 118 {
           Table::row(1494730800, -14400, 0, "-04")
          } else {
           if i < 119 {
            Table::row(1502596800, -14400, 3600, "-03")
           } else {
            Table::row(1526180400, -14400, 0, "-04")
           }
          }
         }
        }
       }
      }
     } else {
      if i < 140 {
       if i < 130 {
        if i < 125 {
         if i < 122 {
          if i < 121 {
           Table::row(1534046400, -14400, 3600, "-03")
          } else {
           Table::row(1554606000, -14400, 0, "-04")
          }
         } else {
          if i < 123 {
           Table::row(1567915200, -14400, 3600, "-03")
          } else {
           if i < 124 {
            Table::row(1586055600, -14400, 0, "-04")
           } else {
            Table::row(1599364800, -14400, 3600, "-03")
           }
          }
         }
        } else {
         if i < 127 {
          if i < 126 {
           Table::row(1617505200, -14400, 0, "-04")
          } else {
           Table::row(1630814400, -14400, 3600, "-03")
          }
         } else {
          if i < 128 {
           Table::row(1648954800, -14400, 0, "-04")
          } else {
           if i < 129 {
            Table::row(1662868800, -14400, 3600, "-03")
           } else {
            Table::row(1680404400, -14400, 0, "-04")
           }
          }
         }
        }
       } else {
        if i < 135 {
         if i < 132 {
          if i < 131 {
           Table::row(1693713600, -14400, 3600, "-03")
          } else {
           Table::row(1712458800, -14400, 0, "-04")
          }
         } else {
          if i < 133 {
           Table::row(1725768000, -14400, 3600, "-03")
          } else {
           if i < 134 {
            Table::row(1743908400, -14400, 0, "-04")
           } else {
            Table::row(1757217600, -14400, 3600, "-03")
           }
          }
         }
        } else {
         if i < 137 {
          if i < 136 {
           Table::row(1775358000, -14400, 0, "-04")
          } else {
           Table::row(1788667200, -14400, 3600, "-03")
          }
         } else {
          if i < 138 {
           Table::row(1806807600, -14400, 0, "-04")
          } else {
           if i < 139 {
            Table::row(1820116800, -14400, 3600, "-03")
           } else {
            Table::row(1838257200, -14400, 0, "-04")
           }
          }
         }
        }
       }
      } else {
       if i < 150 {
        if i < 145 {
         if i < 142 {
          if i < 141 {
           Table::row(1851566400, -14400, 3600, "-03")
          } else {
           Table::row(1870311600, -14400, 0, "-04")
          }
         } else {
          if i < 143 {
           Table::row(1883016000, -14400, 3600, "-03")
          } else {
           if i < 144 {
            Table::row(1901761200, -14400, 0, "-04")
           } else {
            Table::row(1915070400, -14400, 3600, "-03")
           }
          }
         }
        } else {
         if i < 147 {
          if i < 146 {
           Table::row(1933210800, -14400, 0, "-04")
          } else {
           Table::row(1946520000, -14400, 3600, "-03")
          }
         } else {
          if i < 148 {
           Table::row(1964660400, -14400, 0, "-04")
          } else {
           if i < 149 {
            Table::row(1977969600, -14400, 3600, "-03")
           } else {
            Table::row(1996110000, -14400, 0, "-04")
           }
          }
         }
        }
       } else {
        if i < 155 {
         if i < 152 {
          if i < 151 {
           Table::row(2009419200, -14400, 3600, "-03")
          } else {
           Table::row(2027559600, -14400, 0, "-04")
          }
         } else {
          if i < 153 {
           Table::row(2040868800, -14400, 3600, "-03")
          } else {
           if i < 154 {
            Table::row(2059614000, -14400, 0, "-04")
           } else {
            Table::row(2072318400, -14400, 3600, "-03")
           }
          }
         }
        } else {
         if i < 157 {
          if i < 156 {
           Table::row(2091063600, -14400, 0, "-04")
          } else {
           Table::row(2104372800, -14400, 3600, "-03")
          }
         } else {
          if i < 158 {
           Table::row(2122513200, -14400, 0, "-04")
          } else {
           if i < 159 {
            Table::row(2135822400, -14400, 3600, "-03")
           } else {
            Table::row(2147483647, -14400, 3600, "-03")
           }
          }
         }
        }
       }
      }
     }
    }
}

/// The rows of the table of the zone `America/Santiago`.
pub open spec fn santiago_rows() -> spec_fn(int) -> (i64, FixedTimespan) {
    |i: int| santiago_row(i)
}

/// The table of the zone `America/Santiago`.
pub open spec fn santiago() -> Table {
    Table::listed(Table::row(0, -16965, 0, "LMT").1, 160, santiago_rows())
}

/// Row `i` of the table of the zone `America/Santo_Domingo`.
pub open spec fn santo_domingo_row(i: int) -> (i64, FixedTimespan) {
    if i < 8 {
     if i < 4 {
      if i < 2 {
       if i < 1 {
        Table::row(-2524504824, -16800, 0, "SDMT")
       } else {
        Table::row(-1159773600, -18000, 0, "EST")
       }
      } else {
       if i < 3 {
        Table::row(-100119600, -18000, 3600, "EDT")
       } else {
        Table::row(-89668800, -18000, 0, "EST")
       }
      }
     } else {
      if i < 6 {
       if i < 5 {
        Table::row(-5770800, -18000, 1800, "-0430")
       } else {
        Table::row(4422600, -18000, 0, "EST")
       }
      } else {
       if i < 7 {
        Table::row(25678800, -18000, 1800, "-0430")
       } else {
        Table::row(33193800, -18000, 0, "EST")
       }
      }
     }
    } else {
     if i < 12 {
      if i < 10 {
       if i < 9 {
        Table::row(57733200, -18000, 1800, "-0430")
       } else {
        Table::row(64816200, -18000, 0, "EST")
       }
      } else {
       if i < 11 {
        Table::row(89182800, -18000, 1800, "-0430")
       } else {
        Table::row(96438600, -18000, 0, "EST")
       }
      }
     } else {
      if i < 14 {
       if i < 13 {
        Table::row(120632400, -18000, 1800, "-0430")
       } else {
        Table::row(127974600, -18000, 0, "EST")
       }
      } else {
       if i < 15 {
        Table::row(152082000, -14400, 0, "AST")
       } else {
        if i < 16 {
         Table::row(972799200, -18000, 0, "EST")
        } else {
         Table::row(975823200, -14400, 0, "AST")
        }
       }
      }
     }
    }
}

/// The rows of the table of the zone `America/Santo_Domingo`.
pub open spec fn santo_domingo_rows() -> spec_fn(int) -> (i64, FixedTimespan) {
    |i: int| santo_domingo_row(i)
}

/// The table of the zone `America/Santo_Domingo`.
pub open spec fn santo_domingo() -> Table {
    Table::listed(Table::row(0, -16776, 0, "LMT").1, 17, santo_domingo_rows())
}

/// Row `i` of the table of the zone `America/Sao_Paulo`.
pub open spec fn sao_paulo_row(i: int) -> (i64, FixedTimespan) {
    if i < 46 {
     if i < 23 {
      if i < 11 {
       if i < 5 {
        if i < 2 {
         if i < 1 {
          Table::row(-1767214412, -10800, 0, "-03")
         } else {
          Table::row(-1206957600, -10800, 3600, "-02")
         }
        } else {
         if i < 3 {
          Table::row(-1191362400, -10800, 0, "-03")
         } else {
          if i < 4 {
           Table::row(-1175374800, -10800, 3600, "-02")
          } else {
           Table::row(-1159826400, -10800, 0, "-03")
          }
         }
        }
       } else {
        if i < 8 {
         if i < 6 {
          Table::row(-633819600, -10800, 3600, "-02")
         } else {
          if i < 7 {
           Table::row(-622069200, -10800, 0, "-03")
          } else {
           Table::row(-602283600, -10800, 3600, "-02")
          }
         }
        } else {
         if i < 9 {
          Table::row(-591832800, -10800, 0, "-03")
         } else {
          if i < 10 {
           Table::row(-570747600, -10800, 3600, "-02")
          } else {
           Table::row(-560210400, -10800, 0, "-03")
          }
         }
        }
       }
      } else {
       if i < 17 {
        if i < 14 {
         if i < 12 {
          Table::row(-539125200, -10800, 3600, "-02")
         } else {
          if i < 13 {
           Table::row(-531352800, -10800, 0, "-03")
          } else {
           Table::row(-195426000, -10800, 3600, "-02")
          }
         }
        } else {
         if i < 15 {
          Table::row(-184197600, -10800, 0, "-03")
         } else {
          if i < 16 {
           Table::row(-155163600, -10800, 3600, "-02")
          } else {
           Table::row(-150069600, -10800, 0, "-03")
          }
         }
        }
       } else {
        if i < 20 {
         if i < 18 {
          Table::row(-128898000, -10800, 3600, "-02")
         } else {
          if i < 19 {
           Table::row(-121125600, -10800, 0, "-03")
          } else {
           Table::row(-99954000, -10800, 3600, "-02")
          }
         }
        } else {
         if i < 21 {
          Table::row(-89589600, -10800, 0, "-03")
         } else {
          if i < 22 {
           Table::row(-68418000, -10800, 3600, "-02")
          } else {
           Table::row(-57967200, -10800, 0, "-03")
          }
         }
        }
       }
      }
     } else {
      if i < 34 {
       if i < 28 {
        if i < 25 {
         if i < 24 {
          Table::row(499748400, -10800, 3600, "-02")
         } else {
          Table::row(511236000, -10800, 0, "-03")
         }
        } else {
         if i < 26 {
          Table::row(530593200, -10800, 3600, "-02")
         } else {
          if i < 27 {
           Table::row(540266400, -10800, 0, "-03")
          } else {
           Table::row(562129200, -10800, 3600, "-02")
          }
         }
        }
       } else {
        if i < 31 {
         if i < 29 {
          Table::row(571197600, -10800, 0, "-03")
         } else {
          if i < 30 {
           Table::row(592974000, -10800, 3600, "-02")
          } else {
           Table::row(602042400, -10800, 0, "-03")
          }
         }
        } else {
         if i < 32 {
          Table::row(624423600, -10800, 3600, "-02")
         } else {
          if i < 33 {
           Table::row(634701600, -10800, 0, "-03")
          } else {
           Table::row(656478000, -10800, 3600, "-02")
          }
         }
        }
       }
      } else {
       if i < 40 {
        if i < 37 {
         if i < 35 {
          Table::row(666756000, -10800, 0, "-03")
         } else {
          if i < 36 {
           Table::row(687927600, -10800, 3600, "-02")
          } else {
           Table::row(697600800, -10800, 0, "-03")
          }
         }
        } else {
         if i < 38 {
          Table::row(719982000, -10800, 3600, "-02")
         } else {
          if i < 39 {
           Table::row(728445600, -10800, 0, "-03")
          } else {
           Table::row(750826800, -10800, 3600, "-02")
          }
         }
        }
       } else {
        if i < 43 {
         if i < 41 {
          Table::row(761709600, -10800, 0, "-03")
         } else {
          if i < 42 {
           Table::row(782276400, -10800, 3600, "-02")
          } else {
           Table::row(793159200, -10800, 0, "-03")
          }
         }
        } else {
         if i < 44 {
          Table::row(813726000, -10800, 3600, "-02")
         } else {
          if i < 45 {
           Table::row(824004000, -10800, 0, "-03")
          } else {
           Table::row(844570800, -10800, 3600, "-02")
          }
         }
        }
       }
      }
     }
    } else {
     if i < 69 {
      if i < 57 {
       if i < 51 {
        if i < 48 {
         if i < 47 {
          Table::row(856058400, -10800, 0, "-03")
         } else {
          Table::row(876106800, -10800, 3600, "-02")
         }
        } else {
         if i < 49 {
          Table::row(888717600, -10800, 0, "-03")
         } else {
          if i < 50 {
           Table::row(908074800, -10800, 3600, "-02")
          } else {
           Table::row(919562400, -10800, 0, "-03")
          }
         }
        }
       } else {
        if i < 54 {
         if i < 52 {
          Table::row(938919600, -10800, 3600, "-02")
         } else {
          if i < 53 {
           Table::row(951616800, -10800, 0, "-03")
          } else {
           Table::row(970974000, -10800, 3600, "-02")
          }
         }
        } else {
         if i < 55 {
          Table::row(982461600, -10800, 0, "-03")
         } else {
          if i < 56 {
           Table::row(1003028400, -10800, 3600, "-02")
          } else {
           Table::row(1013911200, -10800, 0, "-03")
          }
         }
        }
       }
      } else {
       if i < 63 {
        if i < 60 {
         if i < 58 {
          Table::row(1036292400, -10800, 3600, "-02")
         } else {
          if i < 59 {
           Table::row(1045360800, -10800, 0, "-03")
          } else {
           Table::row(1066532400, -10800, 3600, "-02")
          }
         }
        } else {
         if i < 61 {
          Table::row(1076810400, -10800, 0, "-03")
         } else {
          if i < 62 {
           Table::row(1099364400, -10800, 3600, "-02")
          } else {
           Table::row(1108864800, -10800, 0, "-03")
          }
         }
        }
       } else {
        if i < 66 {
         if i < 64 {
          Table::row(1129431600, -10800, 3600, "-02")
         } else {
          if i < 65 {
           Table::row(1140314400, -10800, 0, "-03")
          } else {
           Table::row(1162695600, -10800, 3600, "-02")
          }
         }
        } else {
         if i < 67 {
          Table::row(1172368800, -10800, 0, "-03")
         } else {
          if i < 68 {
           Table::row(1192330800, -10800, 3600, "-02")
          } else {
           Table::row(1203213600, -10800, 0, "-03")
          }
         }
        }
       }
      }
     } else {
      if i < 80 {
       if i < 74 {
        if i < 71 {
         if i < 70 {
          Table::row(1224385200, -10800, 3600, "-02")
         } else {
          Table::row(1234663200, -10800, 0, "-03")
         }
        } else {
         if i < 72 {
          Table::row(1255834800, -10800, 3600, "-02")
         } else {
          if i < 73 {
           Table::row(1266717600, -10800, 0, "-03")
          } else {
           Table::row(1287284400, -10800, 3600, "-02")
          }
         }
        }
       } else {
        if i < 77 {
         if i < 75 {
          Table::row(1298167200, -10800, 0, "-03")
         } else {
          if i < 76 {
           Table::row(1318734000, -10800, 3600, "-02")
          } else {
           Table::row(1330221600, -10800, 0, "-03")
          }
         }
        } else {
         if i < 78 {
          Table::row(1350788400, -10800, 3600, "-02")
         } else {
          if i < 79 {
           Table::row(1361066400, -10800, 0, "-03")
          } else {
           Table::row(1382238000, -10800, 3600, "-02")
          }
         }
        }
       }
      } else {
       if i < 86 {
        if i < 83 {
         if i < 81 {
          Table::row(1392516000, -10800, 0, "-03")
         } else {
          if i < 82 {
           Table::row(1413687600, -10800, 3600, "-02")
          } else {
           Table::row(1424570400, -10800, 0, "-03")
          }
         }
        } else {
         if i < 84 {
          Table::row(1445137200, -10800, 3600, "-02")
         } else {
          if i < 85 {
           Table::row(1456020000, -10800, 0, "-03")
          } else {
           Table::row(1476586800, -10800, 3600, "-02")
          }
         }
        }
       } else {
        if i < 89 {
         if i < 87 {
          Table::row(1487469600, -10800, 0, "-03")
         } else {
          if i < 88 {
           Table::row(1508036400, -10800, 3600, "-02")
          } else {
           Table::row(1518919200, -10800, 0, "-03")
          }
         }
        } else {
         if i < 90 {
          Table::row(1541300400, -10800, 3600, "-02")
         } else {
          if i < 91 {
           Table::row(1550368800, -10800, 0, "-03")
          } else {
           Table::row(2147483647, -10800, 0, "-03")
          }
         }
        }
       }
      }
     }
    }
}

/// The rows of the table of the zone `America/Sao_Paulo`.
pub open spec fn sao_paulo_rows() -> spec_fn(int) -> (i64, FixedTimespan) {
    |i: int| sao_paulo_row(i)
}

/// The table of the zone `America/Sao_Paulo`.
pub open spec fn sao_paulo() -> Table {
    Table::listed(Table::row(0, -11188, 0, "LMT").1, 92, sao_paulo_rows())
}

/// Row `i` of the table of the zone `America/Scoresbysund`.
pub open spec fn scoresbysund_row(i: int) -> (i64, FixedTimespan) {
    if i < 59 {
     if i < 29 {
      if i < 14 {
       if i < 7 {
        if i < 3 {
         if i < 1 {
          Table::row(-1686090728, -7200, 0, "-02")
         } else {
          if i < 2 {
           Table::row(323841600, -7200, 3600, "-01")
          } else {
           Table::row(338961600, -7200, 0, "-02")
          }
         }
        } else {
         if i < 5 {
          if i < 4 {
           Table::row(354679200, -7200, 7200, "+00")
          } else {
           Table::row(370400400, -3600, 0, "-01")
          }
         } else {
          if i < 6 {
           Table::row(386125200, -3600, 3600, "+00")
          } else {
           Table::row(401850000, -3600, 0, "-01")
          }
         }
        }
       } else {
        if i < 10 {
         if i < 8 {
          Table::row(417574800, -3600, 3600, "+00")
         } else {
          if i < 9 {
           Table::row(433299600, -3600, 0, "-01")
          } else {
           Table::row(449024400, -3600, 3600, "+00")
          }
         }
        } else {
         if i < 12 {
          if i < 11 {
           Table::row(465354000, -3600, 0, "-01")
          } else {
           Table::row(481078800, -3600, 3600, "+00")
          }
         } else {
          if i < 13 {
           Table::row(496803600, -3600, 0, "-01")
          } else {
           Table::row(512528400, -3600, 3600, "+00")
          }
         }
        }
       }
      } else {
       if i < 21 {
        if i < 17 {
         if i < 15 {
          Table::row(528253200, -3600, 0, "-01")
         } else {
          if i < 16 {
           Table::row(543978000, -3600, 3600, "+00")
          } else {
           Table::row(559702800, -3600, 0, "-01")
          }
         }
        } else {
         if i < 19 {
          if i < 18 {
           Table::row(575427600, -3600, 3600, "+00")
          } else {
           Table::row(591152400, -3600, 0, "-01")
          }
         } else {
          if i < 20 {
           Table::row(606877200, -3600, 3600, "+00")
          } else {
           Table::row(622602000, -3600, 0, "-01")
          }
         }
        }
       } else {
        if i < 25 {
         if i < 23 {
          if i < 22 {
           Table::row(638326800, -3600, 3600, "+00")
          } else {
           Table::row(654656400, -3600, 0, "-01")
          }
         } else {
          if i < 24 {
           Table::row(670381200, -3600, 3600, "+00")
          } else {
           Table::row(686106000, -3600, 0, "-01")
          }
         }
        } else {
         if i < 27 {
          if i < 26 {
           Table::row(701830800, -3600, 3600, "+00")
          } else {
           Table::row(717555600, -3600, 0, "-01")
          }
         } else {
          if i < 28 {
           Table::row(733280400, -3600, 3600, "+00")
          } else {
           Table::row(749005200, -3600, 0, "-01")
          }
         }
        }
       }
      }
     } else {
      if i < 44 {
       if i < 36 {
        if i < 32 {
         if i < 30 {
          Table::row(764730000, -3600, 3600, "+00")
         } else {
          if i < 31 {
           Table::row(780454800, -3600, 0, "-01")
          } else {
           Table::row(796179600, -3600, 3600, "+00")
          }
         }
        } else {
         if i < 34 {
          if i < 33 {
           Table::row(811904400, -3600, 0, "-01")
          } else {
           Table::row(828234000, -3600, 3600, "+00")
          }
         } else {
          if i < 35 {
           Table::row(846378000, -3600, 0, "-01")
          } else {
           Table::row(859683600, -3600, 3600, "+00")
          }
         }
        }
       } else {
        if i < 40 {
         if i < 38 {
          if i < 37 {
           Table::row(877827600, -3600, 0, "-01")
          } else {
           Table::row(891133200, -3600, 3600, "+00")
          }
         } else {
          if i < 39 {
           Table::row(909277200, -3600, 0, "-01")
          } else {
           Table::row(922582800, -3600, 3600, "+00")
          }
         }
        } else {
         if i < 42 {
          if i < 41 {
           Table::row(941331600, -3600, 0, "-01")
          } else {
           Table::row(954032400, -3600, 3600, "+00")
          }
         } else {
          if i < 43 {
           Table::row(972781200, -3600, 0, "-01")
          } else {
           Table::row(985482000, -3600, 3600, "+00")
          }
         }
        }
       }
      } else {
       if i < 51 {
        if i < 47 {
         if i < 45 {
          Table::row(1004230800, -3600, 0, "-01")
         } else {
          if i < 46 {
           Table::row(1017536400, -3600, 3600, "+00")
          } else {
           Table::row(1035680400, -3600, 0, "-01")
          }
         }
        } else {
         if i < 49 {
          if i < 48 {
           Table::row(1048986000, -3600, 3600, "+00")
          } else {
           Table::row(1067130000, -3600, 0, "-01")
          }
         } else {
          if i < 50 {
           Table::row(1080435600, -3600, 3600, "+00")
          } else {
           Table::row(1099184400, -3600, 0, "-01")
          }
         }
        }
       } else {
        if i < 55 {
         if i < 53 {
          if i < 52 {
           Table::row(1111885200, -3600, 3600, "+00")
          } else {
           Table::row(1130634000, -3600, 0, "-01")
          }
         } else {
          if i < 54 {
           Table::row(1143334800, -3600, 3600, "+00")
          } else {
           Table::row(1162083600, -3600, 0, "-01")
          }
         }
        } else {
         if i < 57 {
          if i < 56 {
           Table::row(1174784400, -3600, 3600, "+00")
          } else {
           Table::row(1193533200, -3600, 0, "-01")
          }
         } else {
          if i < 58 {
           Table::row(1206838800, -3600, 3600, "+00")
          } else {
           Table::row(1224982800, -3600, 0, "-01")
          }
         }
        }
       }
      }
     }
    } else {
     if i < 88 {
      if i < 73 {
       if i < 66 {
        if i < 62 {
         if i < 60 {
          Table::row(1238288400, -3600, 3600, "+00")
         } else {
          if i < 61 {
           Table::row(1256432400, -3600, 0, "-01")
          } else {
           Table::row(1269738000, -3600, 3600, "+00")
          }
         }
        } else {
         if i < 64 {
          if i < 63 {
           Table::row(1288486800, -3600, 0, "-01")
          } else {
           Table::row(1301187600, -3600, 3600, "+00")
          }
         } else {
          if i < 65 {
           Table::row(1319936400, -3600, 0, "-01")
          } else {
           Table::row(1332637200, -3600, 3600, "+00")
          }
         }
        }
       } else {
        if i < 69 {
         if i < 67 {
          Table::row(1351386000, -3600, 0, "-01")
         } else {
          if i < 68 {
           Table::row(1364691600, -3600, 3600, "+00")
          } else {
           Table::row(1382835600, -3600, 0, "-01")
          }
         }
        } else {
         if i < 71 {
          if i < 70 {
           Table::row(1396141200, -3600, 3600, "+00")
          } else {
           Table::row(1414285200, -3600, 0, "-01")
          }
         } else {
          if i < 72 {
           Table::row(1427590800, -3600, 3600, "+00")
          } else {
           Table::row(1445734800, -3600, 0, "-01")
          }
         }
        }
       }
      } else {
       if i < 80 {
        if i < 76 {
         if i < 74 {
          Table::row(1459040400, -3600, 3600, "+00")
         } else {
          if i < 75 {
           Table::row(1477789200, -3600, 0, "-01")
          } else {
           Table::row(1490490000, -3600, 3600, "+00")
          }
         }
        } else {
         if i < 78 {
          if i < 77 {
           Table::row(1509238800, -3600, 0, "-01")
          } else {
           Table::row(1521939600, -3600, 3600, "+00")
          }
         } else {
          if i < 79 {
           Table::row(1540688400, -3600, 0, "-01")
          } else {
           Table::row(1553994000, -3600, 3600, "+00")
          }
         }
        }
       } else {
        if i < 84 {
         if i < 82 {
          if i < 81 {
           Table::row(1572138000, -3600, 0, "-01")
          } else {
           Table::row(1585443600, -3600, 3600, "+00")
          }
         } else {
          if i < 83 {
           Table::row(1603587600, -3600, 0, "-01")
          } else {
           Table::row(1616893200, -3600, 3600, "+00")
          }
         }
        } else {
         if i < 86 {
          if i < 85 {
           Table::row(1635642000, -3600, 0, "-01")
          } else {
           Table::row(1648342800, -3600, 3600, "+00")
          }
         } else {
          if i < 87 {
           Table::row(1667091600, -3600, 0, "-01")
          } else {
           Table::row(1679792400, -3600, 3600, "+00")
          }
         }
        }
       }
      }
     } else {
      if i < 103 {
       if i < 95 {
        if i < 91 {
         if i < 89 {
          Table::row(1698541200, -3600, 0, "-01")
         } else {
          if i < 90 {
           Table::row(1711846800, -7200, 3600, "-01")
          } else {
           Table::row(1729990800, -7200, 0, "-02")
          }
         }
        } else {
         if i < 93 {
          if i < 92 {
           Table::row(1743296400, -7200, 3600, "-01")
          } else {
           Table::row(1761440400, -7200, 0, "-02")
          }
         } else {
          if i < 94 {
           Table::row(1774746000, -7200, 3600, "-01")
          } else {
           Table::row(1792890000, -7200, 0, "-02")
          }
         }
        }
       } else {
        if i < 99 {
         if i < 97 {
          if i < 96 {
           Table::row(1806195600, -7200, 3600, "-01")
          } else {
           Table::row(1824944400, -7200, 0, "-02")
          }
         } else {
          if i < 98 {
           Table::row(1837645200, -7200, 3600, "-01")
          } else {
           Table::row(1856394000, -7200, 0, "-02")
          }
         }
        } else {
         if i < 101 {
          if i < 100 {
           Table::row(1869094800, -7200, 3600, "-01")
          } else {
           Table::row(1887843600, -7200, 0, "-02")
          }
         } else {
          if i < 102 {
           Table::row(1901149200, -7200, 3600, "-01")
          } else {
           Table::row(1919293200, -7200, 0, "-02")
          }
         }
        }
       }
      } else {
       if i < 110 {
        if i < 106 {
         if i < 104 {
          Table::row(1932598800, -7200, 3600, "-01")
         } else {
          if i < 105 {
           Table::row(1950742800, -7200, 0, "-02")
          } else {
           Table::row(1964048400, -7200, 3600, "-01")
          }
         }
        } else {
         if i < 108 {
          if i < 107 {
           Table::row(1982797200, -7200, 0, "-02")
          } else {
           Table::row(1995498000, -7200, 3600, "-01")
          }
         } else {
          if i < 109 {
           Table::row(2014246800, -7200, 0, "-02")
          } else {
           Table::row(2026947600, -7200, 3600, "-01")
          }
         }
        }
       } else {
        if i < 114 {
         if i < 112 {
          if i < 111 {
           Table::row(2045696400, -7200, 0, "-02")
          } else {
           Table::row(2058397200, -7200, 3600, "-01")
          }
         } else {
          if i < 113 {
           Table::row(2077146000, -7200, 0, "-02")
          } else {
           Table::row(2090451600, -7200, 3600, "-01")
          }
         }
        } else {
         if i < 116 {
          if i < 115 {
           Table::row(2108595600, -7200, 0, "-02")
          } else {
           Table::row(2121901200, -7200, 3600, "-01")
          }
         } else {
          if i < 117 {
           Table::row(2140045200, -7200, 0, "-02")
          } else {
           Table::row(2147483647, -7200, 0, "-02")
          }
         }
        }
       }
      }
     }
    }
}

/// The rows of the table of the zone `America/Scoresbysund`.
pub open spec fn scoresbysund_rows() -> spec_fn(int) -> (i64, FixedTimespan) {
    |i: int| scoresbysund_row(i)
}

/// The table of the zone `America/Scoresbysund`.
pub open spec fn scoresbysund() -> Table {
    Table::listed(Table::row(0, -5272, 0, "LMT").1, 118, scoresbysund_rows())
}

/// Row `i` of the table of the zone `America/Shiprock`.
pub open spec fn shiprock_row(i: int) -> (i64, FixedTimespan) {
    if i < 79 {
     if i < 39 {
      if i < 19 {
       if i < 9 {
        if i < 4 {
         if i < 2 {
          if i < 1 {
           Table::row(-2717643600, -25200, 0, "MST")
          } else {
           Table::row(-1633273200, -25200, 3600, "MDT")
          }
         } else {
          if i < 3 {
           Table::row(-1615132800, -25200, 0, "MST")
          } else {
           Table::row(-1601823600, -25200, 3600, "MDT")
          }
         }
        } else {
         if i < 6 {
          if i < 5 {
           Table::row(-1583683200, -25200, 0, "MST")
          } else {
           Table::row(-1570374000, -25200, 3600, "MDT")
          }
         } else {
          if i < 7 {
           Table::row(-1551628800, -25200, 0, "MST")
          } else {
           if i < 8 {
            Table::row(-1538924400, -25200, 3600, "MDT")
           } else {
            Table::row(-1534089600, -25200, 0, "MST")
           }
          }
         }
        }
       } else {
        if i < 14 {
         if i < 11 {
          if i < 10 {
           Table::row(-880210800, -25200, 3600, "MWT")
          } else {
           Table::row(-769395600, -25200, 3600, "MPT")
          }
         } else {
          if i < 12 {
           Table::row(-765388800, -25200, 0, "MST")
          } else {
           if i < 13 {
            Table::row(-147884400, -25200, 3600, "MDT")
           } else {
            Table::row(-131558400, -25200, 0, "MST")
           }
          }
         }
        } else {
         if i < 16 {
          if i < 15 {
           Table::row(-116434800, -25200, 3600, "MDT")
          } else {
           Table::row(-100108800, -25200, 0, "MST")
          }
         } else {
          if i < 17 {
           Table::row(-84380400, -25200, 3600, "MDT")
          } else {
           if i < 18 {
            Table::row(-68659200, -25200, 0, "MST")
           } else {
            Table::row(-52930800, -25200, 3600, "MDT")
           }
          }
         }
        }
       }
      } else {
       if i < 29 {
        if i < 24 {
         if i < 21 {
          if i < 20 {
           Table::row(-37209600, -25200, 0, "MST")
          } else {
           Table::row(-21481200, -25200, 3600, "MDT")
          }
         } else {
          if i < 22 {
           Table::row(-5760000, -25200, 0, "MST")
          } else {
           if i < 23 {
            Table::row(9968400, -25200, 3600, "MDT")
           } else {
            Table::row(25689600, -25200, 0, "MST")
           }
          }
         }
        } else {
         if i < 26 {
          if i < 25 {
           Table::row(41418000, -25200, 3600, "MDT")
          } else {
           Table::row(57744000, -25200, 0, "MST")
          }
         } else {
          if i < 27 {
           Table::row(73472400, -25200, 3600, "MDT")
          } else {
           if i < 28 {
            Table::row(89193600, -25200, 0, "MST")
           } else {
            Table::row(104922000, -25200, 3600, "MDT")
           }
          }
         }
        }
       } else {
        if i < 34 {
         if i < 31 {
          if i < 30 {
           Table::row(120643200, -25200, 0, "MST")
          } else {
           Table::row(126694800, -25200, 3600, "MDT")
          }
         } else {
          if i < 32 {
           Table::row(152092800, -25200, 0, "MST")
          } else {
           if i < 33 {
            Table::row(162378000, -25200, 3600, "MDT")
           } else {
            Table::row(183542400, -25200, 0, "MST")
           }
          }
         }
        } else {
         if i < 36 {
          if i < 35 {
           Table::row(199270800, -25200, 3600, "MDT")
          } else {
           Table::row(215596800, -25200, 0, "MST")
          }
         } else {
          if i < 37 {
           Table::row(230720400, -25200, 3600, "MDT")
          } else {
           if i < 38 {
            Table::row(247046400, -25200, 0, "MST")
           } else {
            Table::row(262774800, -25200, 3600, "MDT")
           }
          }
         }
        }
       }
      }
     } else {
      if i < 59 {
       if i < 49 {
        if i < 44 {
         if i < 41 {
          if i < 40 {
           Table::row(278496000, -25200, 0, "MST")
          } else {
           Table::row(294224400, -25200, 3600, "MDT")
          }
         } else {
          if i < 42 {
           Table::row(309945600, -25200, 0, "MST")
          } else {
           if i < 43 {
            Table::row(325674000, -25200, 3600, "MDT")
           } else {
            Table::row(341395200, -25200, 0, "MST")
           }
          }
         }
        } else {
         if i < 46 {
          if i < 45 {
           Table::row(357123600, -25200, 3600, "MDT")
          } else {
           Table::row(372844800, -25200, 0, "MST")
          }
         } else {
          if i < 47 {
           Table::row(388573200, -25200, 3600, "MDT")
          } else {
           if i < 48 {
            Table::row(404899200, -25200, 0, "MST")
           } else {
            Table::row(420022800, -25200, 3600, "MDT")
           }
          }
         }
        }
       } else {
        if i < 54 {
         if i < 51 {
          if i < 50 {
           Table::row(436348800, -25200, 0, "MST")
          } else {
           Table::row(452077200, -25200, 3600, "MDT")
          }
         } else {
          if i < 52 {
           Table::row(467798400, -25200, 0, "MST")
          } else {
           if i < 53 {
            Table::row(483526800, -25200, 3600, "MDT")
           } else {
            Table::row(499248000, -25200, 0, "MST")
           }
          }
         }
        } else {
         if i < 56 {
          if i < 55 {
           Table::row(514976400, -25200, 3600, "MDT")
          } else {
           Table::row(530697600, -25200, 0, "MST")
          }
         } else {
          if i < 57 {
           Table::row(544611600, -25200, 3600, "MDT")
          } else {
           if i < 58 {
            Table::row(562147200, -25200, 0, "MST")
           } else {
            Table::row(576061200, -25200, 3600, "MDT")
           }
          }
         }
        }
       }
      } else {
       if i < 69 {
        if i < 64 {
         if i < 61 {
          if i < 60 {
           Table::row(594201600, -25200, 0, "MST")
          } else {
           Table::row(607510800, -25200, 3600, "MDT")
          }
         } else {
          if i < 62 {
           Table::row(625651200, -25200, 0, "MST")
          } else {
           if i < 63 {
            Table::row(638960400, -25200, 3600, "MDT")
           } else {
            Table::row(657100800, -25200, 0, "MST")
           }
          }
         }
        } else {
         if i < 66 {
          if i < 65 {
           Table::row(671014800, -25200, 3600, "MDT")
          } else {
           Table::row(688550400, -25200, 0, "MST")
          }
         } else {
          if i < 67 {
           Table::row(702464400, -25200, 3600, "MDT")
          } else {
           if i < 68 {
            Table::row(720000000, -25200, 0, "MST")
           } else {
            Table::row(733914000, -25200, 3600, "MDT")
           }
          }
         }
        }
       } else {
        if i < 74 {
         if i < 71 {
          if i < 70 {
           Table::row(752054400, -25200, 0, "MST")
          } else {
           Table::row(765363600, -25200, 3600, "MDT")
          }
         } else {
          if i < 72 {
           Table::row(783504000, -25200, 0, "MST")
          } else {
           if i < 73 {
            Table::row(796813200, -25200, 3600, "MDT")
           } else {
            Table::row(814953600, -25200, 0, "MST")
           }
          }
         }
        } else {
         if i < 76 {
          if i < 75 {
           Table::row(828867600, -25200, 3600, "MDT")
          } else {
           Table::row(846403200, -25200, 0, "MST")
          }
         } else {
          if i < 77 {
           Table::row(860317200, -25200, 3600, "MDT")
          } else {
           if i < 78 {
            Table::row(877852800, -25200, 0, "MST")
           } else {
            Table::row(891766800, -25200, 3600, "MDT")
           }
          }
         }
        }
       }
      }
     }
    } else {
     if i < 118 {
      if i < 98 {
       if i < 88 {
        if i < 83 {
         if i < 81 {
          if i < 80 {
           Table::row(909302400, -25200, 0, "MST")
          } else {
           Table::row(923216400, -25200, 3600, "MDT")
          }
         } else {
          if i < 82 {
           Table::row(941356800, -25200, 0, "MST")
          } else {
           Table::row(954666000, -25200, 3600, "MDT")
          }
         }
        } else {
         if i < 85 {
          if i < 84 {
           Table::row(972806400, -25200, 0, "MST")
          } else {
           Table::row(986115600, -25200, 3600, "MDT")
          }
         } else {
          if i < 86 {
           Table::row(1004256000, -25200, 0, "MST")
          } else {
           if i < 87 {
            Table::row(1018170000, -25200, 3600, "MDT")
           } else {
            Table::row(1035705600, -25200, 0, "MST")
           }
          }
         }
        }
       } else {
        if i < 93 {
         if i < 90 {
          if i < 89 {
           Table::row(1049619600, -25200, 3600, "MDT")
          } else {
           Table::row(1067155200, -25200, 0, "MST")
          }
         } else {
          if i < 91 {
           Table::row(1081069200, -25200, 3600, "MDT")
          } else {
           if i < 92 {
            Table::row(1099209600, -25200, 0, "MST")
           } else {
            Table::row(1112518800, -25200, 3600, "MDT")
           }
          }
         }
        } else {
         if i < 95 {
          if i < 94 {
           Table::row(1130659200, -25200, 0, "MST")
          } else {
           Table::row(1143968400, -25200, 3600, "MDT")
          }
         } else {
          if i < 96 {
           Table::row(1162108800, -25200, 0, "MST")
          } else {
           if i < 97 {
            Table::row(1173603600, -25200, 3600, "MDT")
           } else {
            Table::row(1194163200, -25200, 0, "MST")
           }
          }
         }
        }
       }
      } else {
       if i < 108 {
        if i < 103 {
         if i < 100 {
          if i < 99 {
           Table::row(1205053200, -25200, 3600, "MDT")
          } else {
           Table::row(1225612800, -25200, 0, "MST")
          }
         } else {
          if i < 101 {
           Table::row(1236502800, -25200, 3600, "MDT")
          } else {
           if i < 102 {
            Table::row(1257062400, -25200, 0, "MST")
           } else {
            Table::row(1268557200, -25200, 3600, "MDT")
           }
          }
         }
        } else {
         if i < 105 {
          if i < 104 {
           Table::row(1289116800, -25200, 0, "MST")
          } else {
           Table::row(1300006800, -25200, 3600, "MDT")
          }
         } else {
          if i < 106 {
           Table::row(1320566400, -25200, 0, "MST")
          } else {
           if i < 107 {
            Table::row(1331456400, -25200, 3600, "MDT")
           } else {
            Table::row(1352016000, -25200, 0, "MST")
           }
          }
         }
        }
       } else {
        if i < 113 {
         if i < 110 {
          if i < 109 {
           Table::row(1362906000, -25200, 3600, "MDT")
          } else {
           Table::row(1383465600, -25200, 0, "MST")
          }
         } else {
          if i < 111 {
           Table::row(1394355600, -25200, 3600, "MDT")
          } else {
           if i < 112 {
            Table::row(1414915200, -25200, 0, "MST")
           } else {
            Table::row(1425805200, -25200, 3600, "MDT")
           }
          }
         }
        } else {
         if i < 115 {
          if i < 114 {
           Table::row(1446364800, -25200, 0, "MST")
          } else {
           Table::row(1457859600, -25200, 3600, "MDT")
          }
         } else {
          if i < 116 {
           Table::row(1478419200, -25200, 0, "MST")
          } else {
           if i < 117 {
            Table::row(1489309200, -25200, 3600, "MDT")
           } else {
            Table::row(1509868800, -25200, 0, "MST")
           }
          }
         }
        }
       }
      }
     } else {
      if i < 138 {
       if i < 128 {
        if i < 123 {
         if i < 120 {
          if i < 119 {
           Table::row(1520758800, -25200, 3600, "MDT")
          } else {
           Table::row(1541318400, -25200, 0, "MST")
          }
         } else {
          if i < 121 {
           Table::row(1552208400, -25200, 3600, "MDT")
          } else {
           if i < 122 {
            Table::row(1572768000, -25200, 0, "MST")
           } else {
            Table::row(1583658000, -25200, 3600, "MDT")
           }
          }
         }
        } else {
         if i < 125 {
          if i < 124 {
           Table::row(1604217600, -25200, 0, "MST")
          } else {
           Table::row(1615712400, -25200, 3600, "MDT")
          }
         } else {
          if i < 126 {
           Table::row(1636272000, -25200, 0, "MST")
          } else {
           if i < 127 {
            Table::row(1647162000, -25200, 3600, "MDT")
           } else {
            Table::row(1667721600, -25200, 0, "MST")
           }
          }
         }
        }
       } else {
        if i < 133 {
         if i < 130 {
          if i < 129 {
           Table::row(1678611600, -25200, 3600, "MDT")
          } else {
           Table::row(1699171200, -25200, 0, "MST")
          }
         } else {
          if i < 131 {
           Table::row(1710061200, -25200, 3600, "MDT")
          } else {
           if i < 132 {
            Table::row(1730620800, -25200, 0, "MST")
           } else {
            Table::row(1741510800, -25200, 3600, "MDT")
           }
          }
         }
        } else {
         if i < 135 {
          if i < 134 {
           Table::row(1762070400, -25200, 0, "MST")
          } else {
           Table::row(1772960400, -25200, 3600, "MDT")
          }
         } else {
          if i < 136 {
           Table::row(1793520000, -25200, 0, "MST")
          } else {
           if i < 137 {
            Table::row(1805014800, -25200, 3600, "MDT")
           } else {
            Table::row(1825574400, -25200, 0, "MST")
           }
          }
         }
        }
       }
      } else {
       if i < 148 {
        if i < 143 {
         if i < 140 {
          if i < 139 {
           Table::row(1836464400, -25200, 3600, "MDT")
          } else {
           Table::row(1857024000, -25200, 0, "MST")
          }
         } else {
          if i < 141 {
           Table::row(1867914000, -25200, 3600, "MDT")
          } else {
           if i < 142 {
            Table::row(1888473600, -25200, 0, "MST")
           } else {
            Table::row(1899363600, -25200, 3600, "MDT")
           }
          }
         }
        } else {
         if i < 145 {
          if i < 144 {
           Table::row(1919923200, -25200, 0, "MST")
          } else {
           Table::row(1930813200, -25200, 3600, "MDT")
          }
         } else {
          if i < 146 {
           Table::row(1951372800, -25200, 0, "MST")
          } else {
           if i < 147 {
            Table::row(1962867600, -25200, 3600, "MDT")
           } else {
            Table::row(1983427200, -25200, 0, "MST")
           }
          }
         }
        }
       } else {
        if i < 153 {
         if i < 150 {
          if i < 149 {
           Table::row(1994317200, -25200, 3600, "MDT")
          } else {
           Table::row(2014876800, -25200, 0, "MST")
          }
         } else {
          if i < 151 {
           Table::row(2025766800, -25200, 3600, "MDT")
          } else {
           if i < 152 {
            Table::row(2046326400, -25200, 0, "MST")
           } else {
            Table::row(2057216400, -25200, 3600, "MDT")
           }
          }
         }
        } else {
         if i < 155 {
          if i < 154 {
           Table::row(2077776000, -25200, 0, "MST")
          } else {
           Table::row(2088666000, -25200, 3600, "MDT")
          }
         } else {
          if i < 156 {
           Table::row(2109225600, -25200, 0, "MST")
          } else {
           if i < 157 {
            Table::row(2120115600, -25200, 3600, "MDT")
           } else {
            Table::row(2140675200, -25200, 0, "MST")
           }
          }
         }
        }
       }
      }
     }
    }
}

/// The rows of the table of the zone `America/Shiprock`.
pub open spec fn shiprock_rows() -> spec_fn(int) -> (i64, FixedTimespan) {
    |i: int| shiprock_row(i)
}

/// The table of the zone `America/Shiprock`.
pub open spec fn shiprock() -> Table {
    Table::listed(Table::row(0, -25196, 0, "LMT").1, 158, shiprock_rows())
}

/// Row `i` of the table of the zone `America/Sitka`.
pub open spec fn sitka_row(i: int) -> (i64, FixedTimespan) {
    if i < 72 {
     if i < 36 {
      if i < 18 {
       if i < 9 {
        if i < 4 {
         if i < 2 {
          if i < 1 {
           Table::row(-3225223727, -32473, 0, "LMT")
          } else {
           Table::row(-2188954727, -28800, 0, "PST")
          }
         } else {
          if i < 3 {
           Table::row(-880207200, -28800, 3600, "PWT")
          } else {
           Table::row(-769395600, -28800, 3600, "PPT")
          }
         }
        } else {
         if i < 6 {
          if i < 5 {
           Table::row(-765385200, -28800, 0, "PST")
          } else {
           Table::row(-21477600, -28800, 3600, "PDT")
          }
         } else {
          if i < 7 {
           Table::row(-5756400, -28800, 0, "PST")
          } else {
           if i < 8 {
            Table::row(9972000, -28800, 3600, "PDT")
           } else {
            Table::row(25693200, -28800, 0, "PST")
           }
          }
         }
        }
       } else {
        if i < 13 {
         if i < 11 {
          if i < 10 {
           Table::row(41421600, -28800, 3600, "PDT")
          } else {
           Table::row(57747600, -28800, 0, "PST")
          }
         } else {
          if i < 12 {
           Table::row(73476000, -28800, 3600, "PDT")
          } else {
           Table::row(89197200, -28800, 0, "PST")
          }
         }
        } else {
         if i < 15 {
          if i < 14 {
           Table::row(104925600, -28800, 3600, "PDT")
          } else {
           Table::row(120646800, -28800, 0, "PST")
          }
         } else {
          if i < 16 {
           Table::row(126698400, -28800, 3600, "PDT")
          } else {
           if i < 17 {
            Table::row(152096400, -28800, 0, "PST")
           } else {
            Table::row(162381600, -28800, 3600, "PDT")
           }
          }
         }
        }
       }
      } else {
       if i < 27 {
        if i < 22 {
         if i < 20 {
          if i < 19 {
           Table::row(183546000, -28800, 0, "PST")
          } else {
           Table::row(199274400, -28800, 3600, "PDT")
          }
         } else {
          if i < 21 {
           Table::row(215600400, -28800, 0, "PST")
          } else {
           Table::row(230724000, -28800, 3600, "PDT")
          }
         }
        } else {
         if i < 24 {
          if i < 23 {
           Table::row(247050000, -28800, 0, "PST")
          } else {
           Table::row(262778400, -28800, 3600, "PDT")
          }
         } else {
          if i < 25 {
           Table::row(278499600, -28800, 0, "PST")
          } else {
           if i < 26 {
            Table::row(294228000, -28800, 3600, "PDT")
           } else {
            Table::row(309949200, -28800, 0, "PST")
           }
          }
         }
        }
       } else {
        if i < 31 {
         if i < 29 {
          if i < 28 {
           Table::row(325677600, -28800, 3600, "PDT")
          } else {
           Table::row(341398800, -28800, 0, "PST")
          }
         } else {
          if i < 30 {
           Table::row(357127200, -28800, 3600, "PDT")
          } else {
           Table::row(372848400, -28800, 0, "PST")
          }
         }
        } else {
         if i < 33 {
          if i < 32 {
           Table::row(388576800, -28800, 3600, "PDT")
          } else {
           Table::row(404902800, -28800, 0, "PST")
          }
         } else {
          if i < 34 {
           Table::row(420026400, -28800, 3600, "PDT")
          } else {
           if i < 35 {
            Table::row(436352400, -32400, 0, "YST")
           } else {
            Table::row(439030800, -32400, 0, "AKST")
           }
          }
         }
        }
       }
      }
     } else {
      if i < 54 {
       if i < 45 {
        if i < 40 {
         if i < 38 {
          if i < 37 {
           Table::row(452084400, -32400, 3600, "AKDT")
          } else {
           Table::row(467805600, -32400, 0, "AKST")
          }
         } else {
          if i < 39 {
           Table::row(483534000, -32400, 3600, "AKDT")
          } else {
           Table::row(499255200, -32400, 0, "AKST")
          }
         }
        } else {
         if i < 42 {
          if i < 41 {
           Table::row(514983600, -32400, 3600, "AKDT")
          } else {
           Table::row(530704800, -32400, 0, "AKST")
          }
         } else {
          if i < 43 {
           Table::row(544618800, -32400, 3600, "AKDT")
          } else {
           if i < 44 {
            Table::row(562154400, -32400, 0, "AKST")
           } else {
            Table::row(576068400, -32400, 3600, "AKDT")
           }
          }
         }
        }
       } else {
        if i < 49 {
         if i < 47 {
          if i < 46 {
           Table::row(594208800, -32400, 0, "AKST")
          } else {
           Table::row(607518000, -32400, 3600, "AKDT")
          }
         } else {
          if i < 48 {
           Table::row(625658400, -32400, 0, "AKST")
          } else {
           Table::row(638967600, -32400, 3600, "AKDT")
          }
         }
        } else {
         if i < 51 {
          if i < 50 {
           Table::row(657108000, -32400, 0, "AKST")
          } else {
           Table::row(671022000, -32400, 3600, "AKDT")
          }
         } else {
          if i < 52 {
           Table::row(688557600, -32400, 0, "AKST")
          } else {
           if i < 53 {
            Table::row(702471600, -32400, 3600, "AKDT")
           } else {
            Table::row(720007200, -32400, 0, "AKST")
           }
          }
         }
        }
       }
      } else {
       if i < 63 {
        if i < 58 {
         if i < 56 {
          if i < 55 {
           Table::row(733921200, -32400, 3600, "AKDT")
          } else {
           Table::row(752061600, -32400, 0, "AKST")
          }
         } else {
          if i < 57 {
           Table::row(765370800, -32400, 3600, "AKDT")
          } else {
           Table::row(783511200, -32400, 0, "AKST")
          }
         }
        } else {
         if i < 60 {
          if i < 59 {
           Table::row(796820400, -32400, 3600, "AKDT")
          } else {
           Table::row(814960800, -32400, 0, "AKST")
          }
         } else {
          if i < 61 {
           Table::row(828874800, -32400, 3600, "AKDT")
          } else {
           if i < 62 {
            Table::row(846410400, -32400, 0, "AKST")
           } else {
            Table::row(860324400, -32400, 3600, "AKDT")
           }
          }
         }
        }
       } else {
        if i < 67 {
         if i < 65 {
          if i < 64 {
           Table::row(877860000, -32400, 0, "AKST")
          } else {
           Table::row(891774000, -32400, 3600, "AKDT")
          }
         } else {
          if i < 66 {
           Table::row(909309600, -32400, 0, "AKST")
          } else {
           Table::row(923223600, -32400, 3600, "AKDT")
          }
         }
        } else {
         if i < 69 {
          if i < 68 {
           Table::row(941364000, -32400, 0, "AKST")
          } else {
           Table::row(954673200, -32400, 3600, "AKDT")
          }
         } else {
          if i < 70 {
           Table::row(972813600, -32400, 0, "AKST")
          } else {
           if i < 71 {
            Table::row(986122800, -32400, 3600, "AKDT")
           } else {
            Table::row(1004263200, -32400, 0, "AKST")
           }
          }
         }
        }
       }
      }
     }
    } else {
     if i < 108 {
      if i < 90 {
       if i < 81 {
        if i < 76 {
         if i < 74 {
          if i < 73 {
           Table::row(1018177200, -32400, 3600, "AKDT")
          } else {
           Table::row(1035712800, -32400, 0, "AKST")
          }
         } else {
          if i < 75 {
           Table::row(1049626800, -32400, 3600, "AKDT")
          } else {
           Table::row(1067162400, -32400, 0, "AKST")
          }
         }
        } else {
         if i < 78 {
          if i < 77 {
           Table::row(1081076400, -32400, 3600, "AKDT")
          } else {
           Table::row(1099216800, -32400, 0, "AKST")
          }
         } else {
          if i < 79 {
           Table::row(1112526000, -32400, 3600, "AKDT")
          } else {
           if i < 80 {
            Table::row(1130666400, -32400, 0, "AKST")
           } else {
            Table::row(1143975600, -32400, 3600, "AKDT")
           }
          }
         }
        }
       } else {
        if i < 85 {
         if i < 83 {
          if i < 82 {
           Table::row(1162116000, -32400, 0, "AKST")
          } else {
           Table::row(1173610800, -32400, 3600, "AKDT")
          }
         } else {
          if i < 84 {
           Table::row(1194170400, -32400, 0, "AKST")
          } else {
           Table::row(1205060400, -32400, 3600, "AKDT")
          }
         }
        } else {
         if i < 87 {
          if i < 86 {
           Table::row(1225620000, -32400, 0, "AKST")
          } else {
           Table::row(1236510000, -32400, 3600, "AKDT")
          }
         } else {
          if i < 88 {
           Table::row(1257069600, -32400, 0, "AKST")
          } else {
           if i < 89 {
            Table::row(1268564400, -32400, 3600, "AKDT")
           } else {
            Table::row(1289124000, -32400, 0, "AKST")
           }
          }
         }
        }
       }
      } else {
       if i < 99 {
        if i < 94 {
         if i < 92 {
          if i < 91 {
           Table::row(1300014000, -32400, 3600, "AKDT")
          } else {
           Table::row(1320573600, -32400, 0, "AKST")
          }
         } else {
          if i < 93 {
           Table::row(1331463600, -32400, 3600, "AKDT")
          } else {
           Table::row(1352023200, -32400, 0, "AKST")
          }
         }
        } else {
         if i < 96 {
          if i < 95 {
           Table::row(1362913200, -32400, 3600, "AKDT")
          } else {
           Table::row(1383472800, -32400, 0, "AKST")
          }
         } else {
          if i < 97 {
           Table::row(1394362800, -32400, 3600, "AKDT")
          } else {
           if i < 98 {
            Table::row(1414922400, -32400, 0, "AKST")
           } else {
            Table::row(1425812400, -32400, 3600, "AKDT")
           }
          }
         }
        }
       } else {
        if i < 103 {
         if i < 101 {
          if i < 100 {
           Table::row(1446372000, -32400, 0, "AKST")
          } else {
           Table::row(1457866800, -32400, 3600, "AKDT")
          }
         } else {
          if i < 102 {
           Table::row(1478426400, -32400, 0, "AKST")
          } else {
           Table::row(1489316400, -32400, 3600, "AKDT")
          }
         }
        } else {
         if i < 105 {
          if i < 104 {
           Table::row(1509876000, -32400, 0, "AKST")
          } else {
           Table::row(1520766000, -32400, 3600, "AKDT")
          }
         } else {
          if i < 106 {
           Table::row(1541325600, -32400, 0, "AKST")
          } else {
           if i < 107 {
            Table::row(1552215600, -32400, 3600, "AKDT")
           } else {
            Table::row(1572775200, -32400, 0, "AKST")
           }
          }
         }
        }
       }
      }
     } else {
      if i < 126 {
       if i < 117 {
        if i < 112 {
         if i < 110 {
          if i < 109 {
           Table::row(1583665200, -32400, 3600, "AKDT")
          } else {
           Table::row(1604224800, -32400, 0, "AKST")
          }
         } else {
          if i < 111 {
           Table::row(1615719600, -32400, 3600, "AKDT")
          } else {
           Table::row(1636279200, -32400, 0, "AKST")
          }
         }
        } else {
         if i < 114 {
          if i < 113 {
           Table::row(1647169200, -32400, 3600, "AKDT")
          } else {
           Table::row(1667728800, -32400, 0, "AKST")
          }
         } else {
          if i < 115 {
           Table::row(1678618800, -32400, 3600, "AKDT")
          } else {
           if i < 116 {
            Table::row(1699178400, -32400, 0, "AKST")
           } else {
            Table::row(1710068400, -32400, 3600, "AKDT")
           }
          }
         }
        }
       } else {
        if i < 121 {
         if i < 119 {
          if i < 118 {
           Table::row(1730628000, -32400, 0, "AKST")
          } else {
           Table::row(1741518000, -32400, 3600, "AKDT")
          }
         } else {
          if i < 120 {
           Table::row(1762077600, -32400, 0, "AKST")
          } else {
           Table::row(1772967600, -32400, 3600, "AKDT")
          }
         }
        } else {
         if i < 123 {
          if i < 122 {
           Table::row(1793527200, -32400, 0, "AKST")
          } else {
           Table::row(1805022000, -32400, 3600, "AKDT")
          }
         } else {
          if i < 124 {
           Table::row(1825581600, -32400, 0, "AKST")
          } else {
           if i < 125 {
            Table::row(1836471600, -32400, 3600, "AKDT")
           } else {
            Table::row(1857031200, -32400, 0, "AKST")
           }
          }
         }
        }
       }
      } else {
       if i < 135 {
        if i < 130 {
         if i < 128 {
          if i < 127 {
           Table::row(1867921200, -32400, 3600, "AKDT")
          } else {
           Table::row(1888480800, -32400, 0, "AKST")
          }
         } else {
          if i < 129 {
           Table::row(1899370800, -32400, 3600, "AKDT")
          } else {
           Table::row(1919930400, -32400, 0, "AKST")
          }
         }
        } else {
         if i < 132 {
          if i < 131 {
           Table::row(1930820400, -32400, 3600, "AKDT")
          } else {
           Table::row(1951380000, -32400, 0, "AKST")
          }
         } else {
          if i < 133 {
           Table::row(1962874800, -32400, 3600, "AKDT")
          } else {
           if i < 134 {
            Table::row(1983434400, -32400, 0, "AKST")
           } else {
            Table::row(1994324400, -32400, 3600, "AKDT")
           }
          }
         }
        }
       } else {
        if i < 139 {
         if i < 137 {
          if i < 136 {
           Table::row(2014884000, -32400, 0, "AKST")
          } else {
           Table::row(2025774000, -32400, 3600, "AKDT")
          }
         } else {
          if i < 138 {
           Table::row(2046333600, -32400, 0, "AKST")
          } else {
           Table::row(2057223600, -32400, 3600, "AKDT")
          }
         }
        } else {
         if i < 141 {
          if i < 140 {
           Table::row(2077783200, -32400, 0, "AKST")
          } else {
           Table::row(2088673200, -32400, 3600, "AKDT")
          }
         } else {
          if i < 142 {
           Table::row(2109232800, -32400, 0, "AKST")
          } else {
           if i < 143 {
            Table::row(2120122800, -32400, 3600, "AKDT")
           } else {
            Table::row(2140682400, -32400, 0, "AKST")
           }
          }
         }
        }
       }
      }
     }
    }
}

/// The rows of the table of the zone `America/Sitka`.
pub open spec fn sitka_rows() -> spec_fn(int) -> (i64, FixedTimespan) {
    |i: int| sitka_row(i)
}

/// The table of the zone `America/Sitka`.
pub open spec fn sitka() -> Table {
    Table::listed(Table::row(0, 53927, 0, "LMT").1, 144, sitka_rows())
}

/// Row `i` of the table of the zone `America/St_Barthelemy`.
pub open spec fn st_barthelemy_row(i: int) -> (i64, FixedTimespan) {
    if i < 2 {
     if i < 1 {
      Table::row(-2233035335, -14400, 0, "AST")
     } else {
      Table::row(-873057600, -14400, 3600, "AWT")
     }
    } else {
     if i < 3 {
      Table::row(-769395600, -14400, 3600, "APT")
     } else {
      Table::row(-765399600, -14400, 0, "AST")
     }
    }
}

/// The rows of the table of the zone `America/St_Barthelemy`.
pub open spec fn st_barthelemy_rows() -> spec_fn(int) -> (i64, FixedTimespan) {
    |i: int| st_barthelemy_row(i)
}

/// The table of the zone `America/St_Barthelemy`.
pub open spec fn st_barthelemy() -> Table {
    Table::listed(Table::row(0, -15865, 0, "LMT").1, 4, st_barthelemy_rows())
}

/// Row `i` of the table of the zone `America/St_Johns`.
pub open spec fn st_johns_row(i: int) -> (i64, FixedTimespan) {
    if i < 119 {
     if i < 59 {
      if i < 29 {
       if i < 14 {
        if i < 7 {
         if i < 3 {
          if i < 1 {
           Table::row(-2713897748, -12652, 0, "NST")
          } else {
           if i < 2 {
            Table::row(-1664130548, -12652, 3600, "NDT")
           } else {
            Table::row(-1650137348, -12652, 0, "NST")
           }
          }
         } else {
          if i < 5 {
           if i < 4 {
            Table::row(-1632076148, -12652, 3600, "NDT")
           } else {
            Table::row(-1615145348, -12652, 0, "NST")
           }
          } else {
           if i < 6 {
            Table::row(-1598650148, -12652, 3600, "NDT")
           } else {
            Table::row(-1590100148, -12652, 0, "NST")
           }
          }
         }
        } else {
         if i < 10 {
          if i < 8 {
           Table::row(-1567286948, -12652, 3600, "NDT")
          } else {
           if i < 9 {
            Table::row(-1551565748, -12652, 0, "NST")
           } else {
            Table::row(-1535837348, -12652, 3600, "NDT")
           }
          }
         } else {
          if i < 12 {
           if i < 11 {
            Table::row(-1520116148, -12652, 0, "NST")
           } else {
            Table::row(-1503782948, -12652, 3600, "NDT")
           }
          } else {
           if i < 13 {
            Table::row(-1488666548, -12652, 0, "NST")
           } else {
            Table::row(-1472333348, -12652, 3600, "NDT")
           }
          }
         }
        }
       } else {
        if i < 21 {
         if i < 17 {
          if i < 15 {
           Table::row(-1457216948, -12652, 0, "NST")
          } else {
           if i < 16 {
            Table::row(-1440883748, -12652, 3600, "NDT")
           } else {
            Table::row(-1425767348, -12652, 0, "NST")
           }
          }
         } else {
          if i < 19 {
           if i < 18 {
            Table::row(-1409434148, -12652, 3600, "NDT")
           } else {
            Table::row(-1394317748, -12652, 0, "NST")
           }
          } else {
           if i < 20 {
            Table::row(-1377984548, -12652, 3600, "NDT")
           } else {
            Table::row(-1362263348, -12652, 0, "NST")
           }
          }
         }
        } else {
         if i < 25 {
          if i < 23 {
           if i < 22 {
            Table::row(-1346534948, -12652, 3600, "NDT")
           } else {
            Table::row(-1330813748, -12652, 0, "NST")
           }
          } else {
           if i < 24 {
            Table::row(-1314480548, -12652, 3600, "NDT")
           } else {
            Table::row(-1299364148, -12652, 0, "NST")
           }
          }
         } else {
          if i < 27 {
           if i < 26 {
            Table::row(-1283030948, -12652, 3600, "NDT")
           } else {
            Table::row(-1267914548, -12652, 0, "NST")
           }
          } else {
           if i < 28 {
            Table::row(-1251581348, -12652, 3600, "NDT")
           } else {
            Table::row(-1236464948, -12652, 0, "NST")
           }
          }
         }
        }
       }
      } else {
       if i < 44 {
        if i < 36 {
         if i < 32 {
          if i < 30 {
           Table::row(-1220131748, -12652, 3600, "NDT")
          } else {
           if i < 31 {
            Table::row(-1205015348, -12652, 0, "NST")
           } else {
            Table::row(-1188682148, -12652, 3600, "NDT")
           }
          }
         } else {
          if i < 34 {
           if i < 33 {
            Table::row(-1172960948, -12652, 0, "NST")
           } else {
            Table::row(-1156627748, -12652, 3600, "NDT")
           }
          } else {
           if i < 35 {
            Table::row(-1141511348, -12652, 0, "NST")
           } else {
            Table::row(-1125178148, -12652, 3600, "NDT")
           }
          }
         }
        } else {
         if i < 40 {
          if i < 38 {
           if i < 37 {
            Table::row(-1110061748, -12652, 0, "NST")
           } else {
            Table::row(-1096921748, -12600, 0, "NST")
           }
          } else {
           if i < 39 {
            Table::row(-1093728600, -12600, 3600, "NDT")
           } else {
            Table::row(-1078612200, -12600, 0, "NST")
           }
          }
         } else {
          if i < 42 {
           if i < 41 {
            Table::row(-1061670600, -12600, 3600, "NDT")
           } else {
            Table::row(-1048973400, -12600, 0, "NST")
           }
          } else {
           if i < 43 {
            Table::row(-1030221000, -12600, 3600, "NDT")
           } else {
            Table::row(-1017523800, -12600, 0, "NST")
           }
          }
         }
        }
       } else {
        if i < 51 {
         if i < 47 {
          if i < 45 {
           Table::row(-998771400, -12600, 3600, "NDT")
          } else {
           if i < 46 {
            Table::row(-986074200, -12600, 0, "NST")
           } else {
            Table::row(-966717000, -12600, 3600, "NDT")
           }
          }
         } else {
          if i < 49 {
           if i < 48 {
            Table::row(-954624600, -12600, 0, "NST")
           } else {
            Table::row(-935267400, -12600, 3600, "NDT")
           }
          } else {
           if i < 50 {
            Table::row(-922570200, -12600, 0, "NST")
           } else {
            Table::row(-903817800, -12600, 3600, "NDT")
           }
          }
         }
        } else {
         if i < 55 {
          if i < 53 {
           if i < 52 {
            Table::row(-891120600, -12600, 0, "NST")
           } else {
            Table::row(-872368200, -12600, 3600, "NWT")
           }
          } else {
           if i < 54 {
            Table::row(-769395600, -12600, 3600, "NPT")
           } else {
            Table::row(-765401400, -12600, 0, "NST")
           }
          }
         } else {
          if i < 57 {
           if i < 56 {
            Table::row(-746044200, -12600, 3600, "NDT")
           } else {
            Table::row(-733347000, -12600, 0, "NST")
           }
          } else {
           if i < 58 {
            Table::row(-714594600, -12600, 3600, "NDT")
           } else {
            Table::row(-701897400, -12600, 0, "NST")
           }
          }
         }
        }
       }
      }
     } else {
      if i < 89 {
       if i < 74 {
        if i < 66 {
         if i < 62 {
          if i < 60 {
           Table::row(-683145000, -12600, 3600, "NDT")
          } else {
           if i < 61 {
            Table::row(-670447800, -12600, 0, "NST")
           } else {
            Table::row(-651695400, -12600, 3600, "NDT")
           }
          }
         } else {
          if i < 64 {
           if i < 63 {
            Table::row(-638998200, -12600, 0, "NST")
           } else {
            Table::row(-619641000, -12600, 3600, "NDT")
           }
          } else {
           if i < 65 {
            Table::row(-606943800, -12600, 0, "NST")
           } else {
            Table::row(-589401000, -12600, 3600, "NDT")
           }
          }
         }
        } else {
         if i < 70 {
          if i < 68 {
           if i < 67 {
            Table::row(-576099000, -12600, 0, "NST")
           } else {
            Table::row(-557951400, -12600, 3600, "NDT")
           }
          } else {
           if i < 69 {
            Table::row(-544649400, -12600, 0, "NST")
           } else {
            Table::row(-526501800, -12600, 3600, "NDT")
           }
          }
         } else {
          if i < 72 {
           if i < 71 {
            Table::row(-513199800, -12600, 0, "NST")
           } else {
            Table::row(-495052200, -12600, 3600, "NDT")
           }
          } else {
           if i < 73 {
            Table::row(-481750200, -12600, 0, "NST")
           } else {
            Table::row(-463602600, -12600, 3600, "NDT")
           }
          }
         }
        }
       } else {
        if i < 81 {
         if i < 77 {
          if i < 75 {
           Table::row(-450300600, -12600, 0, "NST")
          } else {
           if i < 76 {
            Table::row(-431548200, -12600, 3600, "NDT")
           } else {
            Table::row(-418246200, -12600, 0, "NST")
           }
          }
         } else {
          if i < 79 {
           if i < 78 {
            Table::row(-400098600, -12600, 3600, "NDT")
           } else {
            Table::row(-386796600, -12600, 0, "NST")
           }
          } else {
           if i < 80 {
            Table::row(-368649000, -12600, 3600, "NDT")
           } else {
            Table::row(-355347000, -12600, 0, "NST")
           }
          }
         }
        } else {
         if i < 85 {
          if i < 83 {
           if i < 82 {
            Table::row(-337199400, -12600, 3600, "NDT")
           } else {
            Table::row(-323897400, -12600, 0, "NST")
           }
          } else {
           if i < 84 {
            Table::row(-305749800, -12600, 3600, "NDT")
           } else {
            Table::row(-289423800, -12600, 0, "NST")
           }
          }
         } else {
          if i < 87 {
           if i < 86 {
            Table::row(-273695400, -12600, 3600, "NDT")
           } else {
            Table::row(-257974200, -12600, 0, "NST")
           }
          } else {
           if i < 88 {
            Table::row(-242245800, -12600, 3600, "NDT")
           } else {
            Table::row(-226524600, -12600, 0, "NST")
           }
          }
         }
        }
       }
      } else {
       if i < 104 {
        if i < 96 {
         if i < 92 {
          if i < 90 {
           Table::row(-210796200, -12600, 3600, "NDT")
          } else {
           if i < 91 {
            Table::row(-195075000, -12600, 0, "NST")
           } else {
            Table::row(-179346600, -12600, 3600, "NDT")
           }
          }
         } else {
          if i < 94 {
           if i < 93 {
            Table::row(-163625400, -12600, 0, "NST")
           } else {
            Table::row(-147897000, -12600, 3600, "NDT")
           }
          } else {
           if i < 95 {
            Table::row(-131571000, -12600, 0, "NST")
           } else {
            Table::row(-116447400, -12600, 3600, "NDT")
           }
          }
         }
        } else {
         if i < 100 {
          if i < 98 {
           if i < 97 {
            Table::row(-100121400, -12600, 0, "NST")
           } else {
            Table::row(-84393000, -12600, 3600, "NDT")
           }
          } else {
           if i < 99 {
            Table::row(-68671800, -12600, 0, "NST")
           } else {
            Table::row(-52943400, -12600, 3600, "NDT")
           }
          }
         } else {
          if i < 102 {
           if i < 101 {
            Table::row(-37222200, -12600, 0, "NST")
           } else {
            Table::row(-21493800, -12600, 3600, "NDT")
           }
          } else {
           if i < 103 {
            Table::row(-5772600, -12600, 0, "NST")
           } else {
            Table::row(9955800, -12600, 3600, "NDT")
           }
          }
         }
        }
       } else {
        if i < 111 {
         if i < 107 {
          if i < 105 {
           Table::row(25677000, -12600, 0, "NST")
          } else {
           if i < 106 {
            Table::row(41405400, -12600, 3600, "NDT")
           } else {
            Table::row(57731400, -12600, 0, "NST")
           }
          }
         } else {
          if i < 109 {
           if i < 108 {
            Table::row(73459800, -12600, 3600, "NDT")
           } else {
            Table::row(89181000, -12600, 0, "NST")
           }
          } else {
           if i < 110 {
            Table::row(104909400, -12600, 3600, "NDT")
           } else {
            Table::row(120630600, -12600, 0, "NST")
           }
          }
         }
        } else {
         if i < 115 {
          if i < 113 {
           if i < 112 {
            Table::row(136359000, -12600, 3600, "NDT")
           } else {
            Table::row(152080200, -12600, 0, "NST")
           }
          } else {
           if i < 114 {
            Table::row(167808600, -12600, 3600, "NDT")
           } else {
            Table::row(183529800, -12600, 0, "NST")
           }
          }
         } else {
          if i < 117 {
           if i < 116 {
            Table::row(199258200, -12600, 3600, "NDT")
           } else {
            Table::row(215584200, -12600, 0, "NST")
           }
          } else {
           if i < 118 {
            Table::row(230707800, -12600, 3600, "NDT")
           } else {
            Table::row(247033800, -12600, 0, "NST")
           }
          }
         }
        }
       }
      }
     }
    } else {
     if i < 179 {
      if i < 149 {
       if i < 134 {
        if i < 126 {
         if i < 122 {
          if i < 120 {
           Table::row(262762200, -12600, 3600, "NDT")
          } else {
           if i < 121 {
            Table::row(278483400, -12600, 0, "NST")
           } else {
            Table::row(294211800, -12600, 3600, "NDT")
           }
          }
         } else {
          if i < 124 {
           if i < 123 {
            Table::row(309933000, -12600, 0, "NST")
           } else {
            Table::row(325661400, -12600, 3600, "NDT")
           }
          } else {
           if i < 125 {
            Table::row(341382600, -12600, 0, "NST")
           } else {
            Table::row(357111000, -12600, 3600, "NDT")
           }
          }
         }
        } else {
         if i < 130 {
          if i < 128 {
           if i < 127 {
            Table::row(372832200, -12600, 0, "NST")
           } else {
            Table::row(388560600, -12600, 3600, "NDT")
           }
          } else {
           if i < 129 {
            Table::row(404886600, -12600, 0, "NST")
           } else {
            Table::row(420010200, -12600, 3600, "NDT")
           }
          }
         } else {
          if i < 132 {
           if i < 131 {
            Table::row(436336200, -12600, 0, "NST")
           } else {
            Table::row(452064600, -12600, 3600, "NDT")
           }
          } else {
           if i < 133 {
            Table::row(467785800, -12600, 0, "NST")
           } else {
            Table::row(483514200, -12600, 3600, "NDT")
           }
          }
         }
        }
       } else {
        if i < 141 {
         if i < 137 {
          if i < 135 {
           Table::row(499235400, -12600, 0, "NST")
          } else {
           if i < 136 {
            Table::row(514963800, -12600, 3600, "NDT")
           } else {
            Table::row(530685000, -12600, 0, "NST")
           }
          }
         } else {
          if i < 139 {
           if i < 138 {
            Table::row(544591860, -12600, 3600, "NDT")
           } else {
            Table::row(562127460, -12600, 0, "NST")
           }
          } else {
           if i < 140 {
            Table::row(576041460, -12600, 7200, "NDDT")
           } else {
            Table::row(594178260, -12600, 0, "NST")
           }
          }
         }
        } else {
         if i < 145 {
          if i < 143 {
           if i < 142 {
            Table::row(607491060, -12600, 3600, "NDT")
           } else {
            Table::row(625631460, -12600, 0, "NST")
           }
          } else {
           if i < 144 {
            Table::row(638940660, -12600, 3600, "NDT")
           } else {
            Table::row(657081060, -12600, 0, "NST")
           }
          }
         } else {
          if i < 147 {
           if i < 146 {
            Table::row(670995060, -12600, 3600, "NDT")
           } else {
            Table::row(688530660, -12600, 0, "NST")
           }
          } else {
           if i < 148 {
            Table::row(702444660, -12600, 3600, "NDT")
           } else {
            Table::row(719980260, -12600, 0, "NST")
           }
          }
         }
        }
       }
      } else {
       if i < 164 {
        if i < 156 {
         if i < 152 {
          if i < 150 {
           Table::row(733894260, -12600, 3600, "NDT")
          } else {
           if i < 151 {
            Table::row(752034660, -12600, 0, "NST")
           } else {
            Table::row(765343860, -12600, 3600, "NDT")
           }
          }
         } else {
          if i < 154 {
           if i < 153 {
            Table::row(783484260, -12600, 0, "NST")
           } else {
            Table::row(796793460, -12600, 3600, "NDT")
           }
          } else {
           if i < 155 {
            Table::row(814933860, -12600, 0, "NST")
           } else {
            Table::row(828847860, -12600, 3600, "NDT")
           }
          }
         }
        } else {
         if i < 160 {
          if i < 158 {
           if i < 157 {
            Table::row(846383460, -12600, 0, "NST")
           } else {
            Table::row(860297460, -12600, 3600, "NDT")
           }
          } else {
           if i < 159 {
            Table::row(877833060, -12600, 0, "NST")
           } else {
            Table::row(891747060, -12600, 3600, "NDT")
           }
          }
         } else {
          if i < 162 {
           if i < 161 {
            Table::row(909282660, -12600, 0, "NST")
           } else {
            Table::row(923196660, -12600, 3600, "NDT")
           }
          } else {
           if i < 163 {
            Table::row(941337060, -12600, 0, "NST")
           } else {
            Table::row(954646260, -12600, 3600, "NDT")
           }
          }
         }
        }
       } else {
        if i < 171 {
         if i < 167 {
          if i < 165 {
           Table::row(972786660, -12600, 0, "NST")
          } else {
           if i < 166 {
            Table::row(986095860, -12600, 3600, "NDT")
           } else {
            Table::row(1004236260, -12600, 0, "NST")
           }
          }
         } else {
          if i < 169 {
           if i < 168 {
            Table::row(1018150260, -12600, 3600, "NDT")
           } else {
            Table::row(1035685860, -12600, 0, "NST")
           }
          } else {
           if i < 170 {
            Table::row(1049599860, -12600, 3600, "NDT")
           } else {
            Table::row(1067135460, -12600, 0, "NST")
           }
          }
         }
        } else {
         if i < 175 {
          if i < 173 {
           if i < 172 {
            Table::row(1081049460, -12600, 3600, "NDT")
           } else {
            Table::row(1099189860, -12600, 0, "NST")
           }
          } else {
           if i < 174 {
            Table::row(1112499060, -12600, 3600, "NDT")
           } else {
            Table::row(1130639460, -12600, 0, "NST")
           }
          }
         } else {
          if i < 177 {
           if i < 176 {
            Table::row(1143948660, -12600, 3600, "NDT")
           } else {
            Table::row(1162089060, -12600, 0, "NST")
           }
          } else {
           if i < 178 {
            Table::row(1173583860, -12600, 3600, "NDT")
           } else {
            Table::row(1194143460, -12600, 0, "NST")
           }
          }
         }
        }
       }
      }
     } else {
      if i < 209 {
       if i < 194 {
        if i < 186 {
         if i < 182 {
          if i < 180 {
           Table::row(1205033460, -12600, 3600, "NDT")
          } else {
           if i < 181 {
            Table::row(1225593060, -12600, 0, "NST")
           } else {
            Table::row(1236483060, -12600, 3600, "NDT")
           }
          }
         } else {
          if i < 184 {
           if i < 183 {
            Table::row(1257042660, -12600, 0, "NST")
           } else {
            Table::row(1268537460, -12600, 3600, "NDT")
           }
          } else {
           if i < 185 {
            Table::row(1289097060, -12600, 0, "NST")
           } else {
            Table::row(1299987060, -12600, 3600, "NDT")
           }
          }
         }
        } else {
         if i < 190 {
          if i < 188 {
           if i < 187 {
            Table::row(1320553800, -12600, 0, "NST")
           } else {
            Table::row(1331443800, -12600, 3600, "NDT")
           }
          } else {
           if i < 189 {
            Table::row(1352003400, -12600, 0, "NST")
           } else {
            Table::row(1362893400, -12600, 3600, "NDT")
           }
          }
         } else {
          if i < 192 {
           if i < 191 {
            Table::row(1383453000, -12600, 0, "NST")
           } else {
            Table::row(1394343000, -12600, 3600, "NDT")
           }
          } else {
           if i < 193 {
            Table::row(1414902600, -12600, 0, "NST")
           } else {
            Table::row(1425792600, -12600, 3600, "NDT")
           }
          }
         }
        }
       } else {
        if i < 201 {
         if i < 197 {
          if i < 195 {
           Table::row(1446352200, -12600, 0, "NST")
          } else {
           if i < 196 {
            Table::row(1457847000, -12600, 3600, "NDT")
           } else {
            Table::row(1478406600, -12600, 0, "NST")
           }
          }
         } else {
          if i < 199 {
           if i < 198 {
            Table::row(1489296600, -12600, 3600, "NDT")
           } else {
            Table::row(1509856200, -12600, 0, "NST")
           }
          } else {
           if i < 200 {
            Table::row(1520746200, -12600, 3600, "NDT")
           } else {
            Table::row(1541305800, -12600, 0, "NST")
           }
          }
         }
        } else {
         if i < 205 {
          if i < 203 {
           if i < 202 {
            Table::row(1552195800, -12600, 3600, "NDT")
           } else {
            Table::row(1572755400, -12600, 0, "NST")
           }
          } else {
           if i < 204 {
            Table::row(1583645400, -12600, 3600, "NDT")
           } else {
            Table::row(1604205000, -12600, 0, "NST")
           }
          }
         } else {
          if i < 207 {
           if i < 206 {
            Table::row(1615699800, -12600, 3600, "NDT")
           } else {
            Table::row(1636259400, -12600, 0, "NST")
           }
          } else {
           if i < 208 {
            Table::row(1647149400, -12600, 3600, "NDT")
           } else {
            Table::row(1667709000, -12600, 0, "NST")
           }
          }
         }
        }
       }
      } else {
       if i < 224 {
        if i < 216 {
         if i < 212 {
          if i < 210 {
           Table::row(1678599000, -12600, 3600, "NDT")
          } else {
           if i < 211 {
            Table::row(1699158600, -12600, 0, "NST")
           } else {
            Table::row(1710048600, -12600, 3600, "NDT")
           }
          }
         } else {
          if i < 214 {
           if i < 213 {
            Table::row(1730608200, -12600, 0, "NST")
           } else {
            Table::row(1741498200, -12600, 3600, "NDT")
           }
          } else {
           if i < 215 {
            Table::row(1762057800, -12600, 0, "NST")
           } else {
            Table::row(1772947800, -12600, 3600, "NDT")
           }
          }
         }
        } else {
         if i < 220 {
          if i < 218 {
           if i < 217 {
            Table::row(1793507400, -12600, 0, "NST")
           } else {
            Table::row(1805002200, -12600, 3600, "NDT")
           }
          } else {
           if i < 219 {
            Table::row(1825561800, -12600, 0, "NST")
           } else {
            Table::row(1836451800, -12600, 3600, "NDT")
           }
          }
         } else {
          if i < 222 {
           if i < 221 {
            Table::row(1857011400, -12600, 0, "NST")
           } else {
            Table::row(1867901400, -12600, 3600, "NDT")
           }
          } else {
           if i < 223 {
            Table::row(1888461000, -12600, 0, "NST")
           } else {
            Table::row(1899351000, -12600, 3600, "NDT")
           }
          }
         }
        }
       } else {
        if i < 231 {
         if i < 227 {
          if i < 225 {
           Table::row(1919910600, -12600, 0, "NST")
          } else {
           if i < 226 {
            Table::row(1930800600, -12600, 3600, "NDT")
           } else {
            Table::row(1951360200, -12600, 0, "NST")
           }
          }
         } else {
          if i < 229 {
           if i < 228 {
            Table::row(1962855000, -12600, 3600, "NDT")
           } else {
            Table::row(1983414600, -12600, 0, "NST")
           }
          } else {
           if i < 230 {
            Table::row(1994304600, -12600, 3600, "NDT")
           } else {
            Table::row(2014864200, -12600, 0, "NST")
           }
          }
         }
        } else {
         if i < 235 {
          if i < 233 {
           if i < 232 {
            Table::row(2025754200, -12600, 3600, "NDT")
           } else {
            Table::row(2046313800, -12600, 0, "NST")
           }
          } else {
           if i < 234 {
            Table::row(2057203800, -12600, 3600, "NDT")
           } else {
            Table::row(2077763400, -12600, 0, "NST")
           }
          }
         } else {
          if i < 237 {
           if i < 236 {
            Table::row(2088653400, -12600, 3600, "NDT")
           } else {
            Table::row(2109213000, -12600, 0, "NST")
           }
          } else {
           if i < 238 {
            Table::row(2120103000, -12600, 3600, "NDT")
           } else {
            Table::row(2140662600, -12600, 0, "NST")
           }
          }
         }
        }
       }
      }
     }
    }
}

/// The rows of the table of the zone `America/St_Johns`.
pub open spec fn st_johns_rows() -> spec_fn(int) -> (i64, FixedTimespan) {
    |i: int| st_johns_row(i)
}

/// The table of the zone `America/St_Johns`.
pub open spec fn st_johns() -> Table {
    Table::listed(Table::row(0, -12652, 0, "LMT").1, 239, st_johns_rows())
}

/// Row `i` of the table of the zone `America/St_Kitts`.
pub open spec fn st_kitts_row(i: int) -> (i64, FixedTimespan) {
    Table::row(-1825098548, -14400, 0, "AST")
}

/// The rows of the table of the zone `America/St_Kitts`.
pub open spec fn st_kitts_rows() -> spec_fn(int) -> (i64, FixedTimespan) {
    |i: int| st_kitts_row(i)
}

/// The table of the zone `America/St_Kitts`.
pub open spec fn st_kitts() -> Table {
    Table::listed(Table::row(0, -15052, 0, "LMT").1, 1, st_kitts_rows())
}

/// Row `i` of the table of the zone `America/St_Lucia`.
pub open spec fn st_lucia_row(i: int) -> (i64, FixedTimespan) {
    if i < 1 {
     Table::row(-2524506960, -14640, 0, "CMT")
    } else {
     Table::row(-1830369360, -14400, 0, "AST")
    }
}

/// The rows of the table of the zone `America/St_Lucia`.
pub open spec fn st_lucia_rows() -> spec_fn(int) -> (i64, FixedTimespan) {
    |i: int| st_lucia_row(i)
}

/// The table of the zone `America/St_Lucia`.
pub open spec fn st_lucia() -> Table {
    Table::listed(Table::row(0, -14640, 0, "LMT").1, 2, st_lucia_rows())
}

/// Row `i` of the table of the zone `America/St_Thomas`.
pub open spec fn st_thomas_row(i: int) -> (i64, FixedTimespan) {
    Table::row(-1846266016, -14400, 0, "AST")
}

/// The rows of the table of the zone `America/St_Thomas`.
pub open spec fn st_thomas_rows() -> spec_fn(int) -> (i64, FixedTimespan) {
    |i: int| st_thomas_row(i)
}

/// The table of the zone `America/St_Thomas`.
pub open spec fn st_thomas() -> Table {
    Table::listed(Table::row(0, -15584, 0, "LMT").1, 1, st_thomas_rows())
}

/// Row `i` of the table of the zone `America/St_Vincent`.
pub open spec fn st_vincent_row(i: int) -> (i64, FixedTimespan) {
    if i < 1 {
     Table::row(-2524506904, -14696, 0, "KMT")
    } else {
     Table::row(-1830369304, -14400, 0, "AST")
    }
}

/// The rows of the table of the zone `America/St_Vincent`.
pub open spec fn st_vincent_rows() -> spec_fn(int) -> (i64, FixedTimespan) {
    |i: int| st_vincent_row(i)
}

/// The table of the zone `America/St_Vincent`.
pub open spec fn st_vincent() -> Table {
    Table::listed(Table::row(0, -14696, 0, "LMT").1, 2, st_vincent_rows())
}

/// Row `i` of the table of the zone `America/Swift_Current`.
pub open spec fn swift_current_row(i: int) -> (i64, FixedTimespan) {
    if i < 11 {
     if i < 5 {
      if i < 2 {
       if i < 1 {
        Table::row(-2030201320, -25200, 0, "MST")
       } else {
        Table::row(-1632063600, -25200, 3600, "MDT")
       }
      } else {
       if i < 3 {
        Table::row(-1615132800, -25200, 0, "MST")
       } else {
        if i < 4 {
         Table::row(-880210800, -25200, 3600, "MWT")
        } else {
         Table::row(-769395600, -25200, 3600, "MPT")
        }
       }
      }
     } else {
      if i < 8 {
       if i < 6 {
        Table::row(-765388800, -25200, 0, "MST")
       } else {
        if i < 7 {
         Table::row(-747241200, -25200, 3600, "MDT")
        } else {
         Table::row(-732729600, -25200, 0, "MST")
        }
       }
      } else {
       if i < 9 {
        Table::row(-715791600, -25200, 3600, "MDT")
       } else {
        if i < 10 {
         Table::row(-702489600, -25200, 0, "MST")
        } else {
         Table::row(-684342000, -25200, 3600, "MDT")
        }
       }
      }
     }
    } else {
     if i < 17 {
      if i < 14 {
       if i < 12 {
        Table::row(-671040000, -25200, 0, "MST")
       } else {
        if i < 13 {
         Table::row(-652892400, -25200, 3600, "MDT")
        } else {
         Table::row(-639590400, -25200, 0, "MST")
        }
       }
      } else {
       if i < 15 {
        Table::row(-400086000, -25200, 3600, "MDT")
       } else {
        if i < 16 {
         Table::row(-384364800, -25200, 0, "MST")
        } else {
         Table::row(-337186800, -25200, 3600, "MDT")
        }
       }
      }
     } else {
      if i < 20 {
       if i < 18 {
        Table::row(-321465600, -25200, 0, "MST")
       } else {
        if i < 19 {
         Table::row(-305737200, -25200, 3600, "MDT")
        } else {
         Table::row(-292435200, -25200, 0, "MST")
        }
       }
      } else {
       if i < 21 {
        Table::row(-273682800, -25200, 3600, "MDT")
       } else {
        if i < 22 {
         Table::row(-260985600, -25200, 0, "MST")
        } else {
         Table::row(73472400, -21600, 0, "CST")
        }
       }
      }
     }
    }
}

/// The rows of the table of the zone `America/Swift_Current`.
pub open spec fn swift_current_rows() -> spec_fn(int) -> (i64, FixedTimespan) {
    |i: int| swift_current_row(i)
}

/// The table of the zone `America/Swift_Current`.
pub open spec fn swift_current() -> Table {
    Table::listed(Table::row(0, -25880, 0, "LMT").1, 23, swift_current_rows())
}

/// Row `i` of the table of the zone `America/Tegucigalpa`.
pub open spec fn tegucigalpa_row(i: int) -> (i64, FixedTimespan) {
    if i < 3 {
     if i < 1 {
      Table::row(-1538503868, -21600, 0, "CST")
     } else {
      if i < 2 {
       Table::row(547020000, -21600, 3600, "CDT")
      } else {
       Table::row(559717200, -21600, 0, "CST")
      }
     }
    } else {
     if i < 5 {
      if i < 4 {
       Table::row(578469600, -21600, 3600, "CDT")
      } else {
       Table::row(591166800, -21600, 0, "CST")
      }
     } else {
      if i < 6 {
       Table::row(1146981600, -21600, 3600, "CDT")
      } else {
       Table::row(1154926800, -21600, 0, "CST")
      }
     }
    }
}

/// The rows of the table of the zone `America/Tegucigalpa`.
pub open spec fn tegucigalpa_rows() -> spec_fn(int) -> (i64, FixedTimespan) {
    |i: int| tegucigalpa_row(i)
}

/// The table of the zone `America/Tegucigalpa`.
pub open spec fn tegucigalpa() -> Table {
    Table::listed(Table::row(0, -20932, 0, "LMT").1, 7, tegucigalpa_rows())
}

/// Row `i` of the table of the zone `America/Thule`.
pub open spec fn thule_row(i: int) -> (i64, FixedTimespan) {
    if i < 47 {
     if i < 23 {
      if i < 11 {
       if i < 5 {
        if i < 2 {
         if i < 1 {
          Table::row(-1686079492, -14400, 0, "AST")
         } else {
          Table::row(670399200, -14400, 3600, "ADT")
         }
        } else {
         if i < 3 {
          Table::row(686120400, -14400, 0, "AST")
         } else {
          if i < 4 {
           Table::row(701848800, -14400, 3600, "ADT")
          } else {
           Table::row(717570000, -14400, 0, "AST")
          }
         }
        }
       } else {
        if i < 8 {
         if i < 6 {
          Table::row(733903200, -14400, 3600, "ADT")
         } else {
          if i < 7 {
           Table::row(752043600, -14400, 0, "AST")
          } else {
           Table::row(765352800, -14400, 3600, "ADT")
          }
         }
        } else {
         if i < 9 {
          Table::row(783493200, -14400, 0, "AST")
         } else {
          if i < 10 {
           Table::row(796802400, -14400, 3600, "ADT")
          } else {
           Table::row(814942800, -14400, 0, "AST")
          }
         }
        }
       }
      } else {
       if i < 17 {
        if i < 14 {
         if i < 12 {
          Table::row(828856800, -14400, 3600, "ADT")
         } else {
          if i < 13 {
           Table::row(846392400, -14400, 0, "AST")
          } else {
           Table::row(860306400, -14400, 3600, "ADT")
          }
         }
        } else {
         if i < 15 {
          Table::row(877842000, -14400, 0, "AST")
         } else {
          if i < 16 {
           Table::row(891756000, -14400, 3600, "ADT")
          } else {
           Table::row(909291600, -14400, 0, "AST")
          }
         }
        }
       } else {
        if i < 20 {
         if i < 18 {
          Table::row(923205600, -14400, 3600, "ADT")
         } else {
          if i < 19 {
           Table::row(941346000, -14400, 0, "AST")
          } else {
           Table::row(954655200, -14400, 3600, "ADT")
          }
         }
        } else {
         if i < 21 {
          Table::row(972795600, -14400, 0, "AST")
         } else {
          if i < 22 {
           Table::row(986104800, -14400, 3600, "ADT")
          } else {
           Table::row(1004245200, -14400, 0, "AST")
          }
         }
        }
       }
      }
     } else {
      if i < 35 {
       if i < 29 {
        if i < 26 {
         if i < 24 {
          Table::row(1018159200, -14400, 3600, "ADT")
         } else {
          if i < 25 {
           Table::row(1035694800, -14400, 0, "AST")
          } else {
           Table::row(1049608800, -14400, 3600, "ADT")
          }
         }
        } else {
         if i < 27 {
          Table::row(1067144400, -14400, 0, "AST")
         } else {
          if i < 28 {
           Table::row(1081058400, -14400, 3600, "ADT")
          } else {
           Table::row(1099198800, -14400, 0, "AST")
          }
         }
        }
       } else {
        if i < 32 {
         if i < 30 {
          Table::row(1112508000, -14400, 3600, "ADT")
         } else {
          if i < 31 {
           Table::row(1130648400, -14400, 0, "AST")
          } else {
           Table::row(1143957600, -14400, 3600, "ADT")
          }
         }
        } else {
         if i < 33 {
          Table::row(1162098000, -14400, 0, "AST")
         } else {
          if i < 34 {
           Table::row(1173592800, -14400, 3600, "ADT")
          } else {
           Table::row(1194152400, -14400, 0, "AST")
          }
         }
        }
       }
      } else {
       if i < 41 {
        if i < 38 {
         if i < 36 {
          Table::row(1205042400, -14400, 3600, "ADT")
         } else {
          if i < 37 {
           Table::row(1225602000, -14400, 0, "AST")
          } else {
           Table::row(1236492000, -14400, 3600, "ADT")
          }
         }
        } else {
         if i < 39 {
          Table::row(1257051600, -14400, 0, "AST")
         } else {
          if i < 40 {
           Table::row(1268546400, -14400, 3600, "ADT")
          } else {
           Table::row(1289106000, -14400, 0, "AST")
          }
         }
        }
       } else {
        if i < 44 {
         if i < 42 {
          Table::row(1299996000, -14400, 3600, "ADT")
         } else {
          if i < 43 {
           Table::row(1320555600, -14400, 0, "AST")
          } else {
           Table::row(1331445600, -14400, 3600, "ADT")
          }
         }
        } else {
         if i < 45 {
          Table::row(1352005200, -14400, 0, "AST")
         } else {
          if i < 46 {
           Table::row(1362895200, -14400, 3600, "ADT")
          } else {
           Table::row(1383454800, -14400, 0, "AST")
          }
         }
        }
       }
      }
     }
    } else {
     if i < 71 {
      if i < 59 {
       if i < 53 {
        if i < 50 {
         if i < 48 {
          Table::row(1394344800, -14400, 3600, "ADT")
         } else {
          if i < 49 {
           Table::row(1414904400, -14400, 0, "AST")
          } else {
           Table::row(1425794400, -14400, 3600, "ADT")
          }
         }
        } else {
         if i < 51 {
          Table::row(1446354000, -14400, 0, "AST")
         } else {
          if i < 52 {
           Table::row(1457848800, -14400, 3600, "ADT")
          } else {
           Table::row(1478408400, -14400, 0, "AST")
          }
         }
        }
       } else {
        if i < 56 {
         if i < 54 {
          Table::row(1489298400, -14400, 3600, "ADT")
         } else {
          if i < 55 {
           Table::row(1509858000, -14400, 0, "AST")
          } else {
           Table::row(1520748000, -14400, 3600, "ADT")
          }
         }
        } else {
         if i < 57 {
          Table::row(1541307600, -14400, 0, "AST")
         } else {
          if i < 58 {
           Table::row(1552197600, -14400, 3600, "ADT")
          } else {
           Table::row(1572757200, -14400, 0, "AST")
          }
         }
        }
       }
      } else {
       if i < 65 {
        if i < 62 {
         if i < 60 {
          Table::row(1583647200, -14400, 3600, "ADT")
         } else {
          if i < 61 {
           Table::row(1604206800, -14400, 0, "AST")
          } else {
           Table::row(1615701600, -14400, 3600, "ADT")
          }
         }
        } else {
         if i < 63 {
          Table::row(1636261200, -14400, 0, "AST")
         } else {
          if i < 64 {
           Table::row(1647151200, -14400, 3600, "ADT")
          } else {
           Table::row(1667710800, -14400, 0, "AST")
          }
         }
        }
       } else {
        if i < 68 {
         if i < 66 {
          Table::row(1678600800, -14400, 3600, "ADT")
         } else {
          if i < 67 {
           Table::row(1699160400, -14400, 0, "AST")
          } else {
           Table::row(1710050400, -14400, 3600, "ADT")
          }
         }
        } else {
         if i < 69 {
          Table::row(1730610000, -14400, 0, "AST")
         } else {
          if i < 70 {
           Table::row(1741500000, -14400, 3600, "ADT")
          } else {
           Table::row(1762059600, -14400, 0, "AST")
          }
         }
        }
       }
      }
     } else {
      if i < 83 {
       if i < 77 {
        if i < 74 {
         if i < 72 {
          Table::row(1772949600, -14400, 3600, "ADT")
         } else {
          if i < 73 {
           Table::row(1793509200, -14400, 0, "AST")
          } else {
           Table::row(1805004000, -14400, 3600, "ADT")
          }
         }
        } else {
         if i < 75 {
          Table::row(1825563600, -14400, 0, "AST")
         } else {
          if i < 76 {
           Table::row(1836453600, -14400, 3600, "ADT")
          } else {
           Table::row(1857013200, -14400, 0, "AST")
          }
         }
        }
       } else {
        if i < 80 {
         if i < 78 {
          Table::row(1867903200, -14400, 3600, "ADT")
         } else {
          if i < 79 {
           Table::row(1888462800, -14400, 0, "AST")
          } else {
           Table::row(1899352800, -14400, 3600, "ADT")
          }
         }
        } else {
         if i < 81 {
          Table::row(1919912400, -14400, 0, "AST")
         } else {
          if i < 82 {
           Table::row(1930802400, -14400, 3600, "ADT")
          } else {
           Table::row(1951362000, -14400, 0, "AST")
          }
         }
        }
       }
      } else {
       if i < 89 {
        if i < 86 {
         if i < 84 {
          Table::row(1962856800, -14400, 3600, "ADT")
         } else {
          if i < 85 {
           Table::row(1983416400, -14400, 0, "AST")
          } else {
           Table::row(1994306400, -14400, 3600, "ADT")
          }
         }
        } else {
         if i < 87 {
          Table::row(2014866000, -14400, 0, "AST")
         } else {
          if i < 88 {
           Table::row(2025756000, -14400, 3600, "ADT")
          } else {
           Table::row(2046315600, -14400, 0, "AST")
          }
         }
        }
       } else {
        if i < 92 {
         if i < 90 {
          Table::row(2057205600, -14400, 3600, "ADT")
         } else {
          if i < 91 {
           Table::row(2077765200, -14400, 0, "AST")
          } else {
           Table::row(2088655200, -14400, 3600, "ADT")
          }
         }
        } else {
         if i < 93 {
          Table::row(2109214800, -14400, 0, "AST")
         } else {
          if i < 94 {
           Table::row(2120104800, -14400, 3600, "ADT")
          } else {
           Table::row(2140664400, -14400, 0, "AST")
          }
         }
        }
       }
      }
     }
    }
}

/// The rows of the table of the zone `America/Thule`.
pub open spec fn thule_rows() -> spec_fn(int) -> (i64, FixedTimespan) {
    |i: int| thule_row(i)
}

/// The table of the zone `America/Thule`.
pub open spec fn thule() -> Table {
    Table::listed(Table::row(0, -16508, 0, "LMT").1, 95, thule_rows())
}

/// Row `i` of the table of the zone `America/Thunder_Bay`.
pub open spec fn thunder_bay_row(i: int) -> (i64, FixedTimespan) {
    if i < 116 {
     if i < 58 {
      if i < 29 {
       if i < 14 {
        if i < 7 {
         if i < 3 {
          if i < 1 {
           Table::row(-2366736148, -18000, 0, "EST")
          } else {
           if i < 2 {
            Table::row(-1632070800, -18000, 3600, "EDT")
           } else {
            Table::row(-1615140000, -18000, 0, "EST")
           }
          }
         } else {
          if i < 5 {
           if i < 4 {
            Table::row(-1601753400, -18000, 3600, "EDT")
           } else {
            Table::row(-1583697600, -18000, 0, "EST")
           }
          } else {
           if i < 6 {
            Table::row(-1567357200, -18000, 3600, "EDT")
           } else {
            Table::row(-1554667200, -18000, 0, "EST")
           }
          }
         }
        } else {
         if i < 10 {
          if i < 8 {
           Table::row(-1534698000, -18000, 3600, "EDT")
          } else {
           if i < 9 {
            Table::row(-1524074400, -18000, 0, "EST")
           } else {
            Table::row(-1503248400, -18000, 3600, "EDT")
           }
          }
         } else {
          if i < 12 {
           if i < 11 {
            Table::row(-1492365600, -18000, 0, "EST")
           } else {
            Table::row(-1471798800, -18000, 3600, "EDT")
           }
          } else {
           if i < 13 {
            Table::row(-1460916000, -18000, 0, "EST")
           } else {
            Table::row(-1440954000, -18000, 3600, "EDT")
           }
          }
         }
        }
       } else {
        if i < 21 {
         if i < 17 {
          if i < 15 {
           Table::row(-1428861600, -18000, 0, "EST")
          } else {
           if i < 16 {
            Table::row(-1409504400, -18000, 3600, "EDT")
           } else {
            Table::row(-1397412000, -18000, 0, "EST")
           }
          }
         } else {
          if i < 19 {
           if i < 18 {
            Table::row(-1378054800, -18000, 3600, "EDT")
           } else {
            Table::row(-1365962400, -18000, 0, "EST")
           }
          } else {
           if i < 20 {
            Table::row(-1346605200, -18000, 3600, "EDT")
           } else {
            Table::row(-1333908000, -18000, 0, "EST")
           }
          }
         }
        } else {
         if i < 25 {
          if i < 23 {
           if i < 22 {
            Table::row(-1315155600, -18000, 3600, "EDT")
           } else {
            Table::row(-1301853600, -18000, 0, "EST")
           }
          } else {
           if i < 24 {
            Table::row(-1283706000, -18000, 3600, "EDT")
           } else {
            Table::row(-1270404000, -18000, 0, "EST")
           }
          }
         } else {
          if i < 27 {
           if i < 26 {
            Table::row(-1252256400, -18000, 3600, "EDT")
           } else {
            Table::row(-1238954400, -18000, 0, "EST")
           }
          } else {
           if i < 28 {
            Table::row(-1220806800, -18000, 3600, "EDT")
           } else {
            Table::row(-1207504800, -18000, 0, "EST")
           }
          }
         }
        }
       }
      } else {
       if i < 43 {
        if i < 36 {
         if i < 32 {
          if i < 30 {
           Table::row(-1188752400, -18000, 3600, "EDT")
          } else {
           if i < 31 {
            Table::row(-1176055200, -18000, 0, "EST")
           } else {
            Table::row(-1157302800, -18000, 3600, "EDT")
           }
          }
         } else {
          if i < 34 {
           if i < 33 {
            Table::row(-1144000800, -18000, 0, "EST")
           } else {
            Table::row(-1125853200, -18000, 3600, "EDT")
           }
          } else {
           if i < 35 {
            Table::row(-1112551200, -18000, 0, "EST")
           } else {
            Table::row(-1094403600, -18000, 3600, "EDT")
           }
          }
         }
        } else {
         if i < 39 {
          if i < 37 {
           Table::row(-1081101600, -18000, 0, "EST")
          } else {
           if i < 38 {
            Table::row(-1062954000, -18000, 3600, "EDT")
           } else {
            Table::row(-1049652000, -18000, 0, "EST")
           }
          }
         } else {
          if i < 41 {
           if i < 40 {
            Table::row(-1031504400, -18000, 3600, "EDT")
           } else {
            Table::row(-1018202400, -18000, 0, "EST")
           }
          } else {
           if i < 42 {
            Table::row(-1000054800, -18000, 3600, "EDT")
           } else {
            Table::row(-986752800, -18000, 0, "EST")
           }
          }
         }
        }
       } else {
        if i < 50 {
         if i < 46 {
          if i < 44 {
           Table::row(-968000400, -18000, 3600, "EDT")
          } else {
           if i < 45 {
            Table::row(-955303200, -18000, 0, "EST")
           } else {
            Table::row(-936550800, -18000, 3600, "EDT")
           }
          }
         } else {
          if i < 48 {
           if i < 47 {
            Table::row(-880218000, -18000, 3600, "EWT")
           } else {
            Table::row(-769395600, -18000, 3600, "EPT")
           }
          } else {
           if i < 49 {
            Table::row(-765396000, -18000, 0, "EST")
           } else {
            Table::row(-747248400, -18000, 3600, "EDT")
           }
          }
         }
        } else {
         if i < 54 {
          if i < 52 {
           if i < 51 {
            Table::row(-733946400, -18000, 0, "EST")
           } else {
            Table::row(-715798800, -18000, 3600, "EDT")
           }
          } else {
           if i < 53 {
            Table::row(-702496800, -18000, 0, "EST")
           } else {
            Table::row(-684349200, -18000, 3600, "EDT")
           }
          }
         } else {
          if i < 56 {
           if i < 55 {
            Table::row(-671047200, -18000, 0, "EST")
           } else {
            Table::row(-652899600, -18000, 3600, "EDT")
           }
          } else {
           if i < 57 {
            Table::row(-634154400, -18000, 0, "EST")
           } else {
            Table::row(-620845200, -18000, 3600, "EDT")
           }
          }
         }
        }
       }
      }
     } else {
      if i < 87 {
       if i < 72 {
        if i < 65 {
         if i < 61 {
          if i < 59 {
           Table::row(-602704800, -18000, 0, "EST")
          } else {
           if i < 60 {
            Table::row(-589395600, -18000, 3600, "EDT")
           } else {
            Table::row(-576093600, -18000, 0, "EST")
           }
          }
         } else {
          if i < 63 {
           if i < 62 {
            Table::row(-557946000, -18000, 3600, "EDT")
           } else {
            Table::row(-544644000, -18000, 0, "EST")
           }
          } else {
           if i < 64 {
            Table::row(-526496400, -18000, 3600, "EDT")
           } else {
            Table::row(-513194400, -18000, 0, "EST")
           }
          }
         }
        } else {
         if i < 68 {
          if i < 66 {
           Table::row(-495046800, -18000, 3600, "EDT")
          } else {
           if i < 67 {
            Table::row(-481744800, -18000, 0, "EST")
           } else {
            Table::row(-463597200, -18000, 3600, "EDT")
           }
          }
         } else {
          if i < 70 {
           if i < 69 {
            Table::row(-450295200, -18000, 0, "EST")
           } else {
            Table::row(-431542800, -18000, 3600, "EDT")
           }
          } else {
           if i < 71 {
            Table::row(-418240800, -18000, 0, "EST")
           } else {
            Table::row(-400093200, -18000, 3600, "EDT")
           }
          }
         }
        }
       } else {
        if i < 79 {
         if i < 75 {
          if i < 73 {
           Table::row(-384372000, -18000, 0, "EST")
          } else {
           if i < 74 {
            Table::row(-368643600, -18000, 3600, "EDT")
           } else {
            Table::row(-352922400, -18000, 0, "EST")
           }
          }
         } else {
          if i < 77 {
           if i < 76 {
            Table::row(-337194000, -18000, 3600, "EDT")
           } else {
            Table::row(-321472800, -18000, 0, "EST")
           }
          } else {
           if i < 78 {
            Table::row(-305744400, -18000, 3600, "EDT")
           } else {
            Table::row(-289418400, -18000, 0, "EST")
           }
          }
         }
        } else {
         if i < 83 {
          if i < 81 {
           if i < 80 {
            Table::row(-273690000, -18000, 3600, "EDT")
           } else {
            Table::row(-257968800, -18000, 0, "EST")
           }
          } else {
           if i < 82 {
            Table::row(-242240400, -18000, 3600, "EDT")
           } else {
            Table::row(-226519200, -18000, 0, "EST")
           }
          }
         } else {
          if i < 85 {
           if i < 84 {
            Table::row(-210790800, -18000, 3600, "EDT")
           } else {
            Table::row(-195069600, -18000, 0, "EST")
           }
          } else {
           if i < 86 {
            Table::row(-179341200, -18000, 3600, "EDT")
           } else {
            Table::row(-163620000, -18000, 0, "EST")
           }
          }
         }
        }
       }
      } else {
       if i < 101 {
        if i < 94 {
         if i < 90 {
          if i < 88 {
           Table::row(-147891600, -18000, 3600, "EDT")
          } else {
           if i < 89 {
            Table::row(-131565600, -18000, 0, "EST")
           } else {
            Table::row(-116442000, -18000, 3600, "EDT")
           }
          }
         } else {
          if i < 92 {
           if i < 91 {
            Table::row(-100116000, -18000, 0, "EST")
           } else {
            Table::row(-84387600, -18000, 3600, "EDT")
           }
          } else {
           if i < 93 {
            Table::row(-68666400, -18000, 0, "EST")
           } else {
            Table::row(-52938000, -18000, 3600, "EDT")
           }
          }
         }
        } else {
         if i < 97 {
          if i < 95 {
           Table::row(-37216800, -18000, 0, "EST")
          } else {
           if i < 96 {
            Table::row(-21488400, -18000, 3600, "EDT")
           } else {
            Table::row(-5767200, -18000, 0, "EST")
           }
          }
         } else {
          if i < 99 {
           if i < 98 {
            Table::row(9961200, -18000, 3600, "EDT")
           } else {
            Table::row(25682400, -18000, 0, "EST")
           }
          } else {
           if i < 100 {
            Table::row(41410800, -18000, 3600, "EDT")
           } else {
            Table::row(57736800, -18000, 0, "EST")
           }
          }
         }
        }
       } else {
        if i < 108 {
         if i < 104 {
          if i < 102 {
           Table::row(73465200, -18000, 3600, "EDT")
          } else {
           if i < 103 {
            Table::row(89186400, -18000, 0, "EST")
           } else {
            Table::row(104914800, -18000, 3600, "EDT")
           }
          }
         } else {
          if i < 106 {
           if i < 105 {
            Table::row(120636000, -18000, 0, "EST")
           } else {
            Table::row(136364400, -18000, 3600, "EDT")
           }
          } else {
           if i < 107 {
            Table::row(152085600, -18000, 0, "EST")
           } else {
            Table::row(167814000, -18000, 3600, "EDT")
           }
          }
         }
        } else {
         if i < 112 {
          if i < 110 {
           if i < 109 {
            Table::row(183535200, -18000, 0, "EST")
           } else {
            Table::row(199263600, -18000, 3600, "EDT")
           }
          } else {
           if i < 111 {
            Table::row(215589600, -18000, 0, "EST")
           } else {
            Table::row(230713200, -18000, 3600, "EDT")
           }
          }
         } else {
          if i < 114 {
           if i < 113 {
            Table::row(247039200, -18000, 0, "EST")
           } else {
            Table::row(262767600, -18000, 3600, "EDT")
           }
          } else {
           if i < 115 {
            Table::row(278488800, -18000, 0, "EST")
           } else {
            Table::row(294217200, -18000, 3600, "EDT")
           }
          }
         }
        }
       }
      }
     }
    } else {
     if i < 174 {
      if i < 145 {
       if i < 130 {
        if i < 123 {
         if i < 119 {
          if i < 117 {
           Table::row(309938400, -18000, 0, "EST")
          } else {
           if i < 118 {
            Table::row(325666800, -18000, 3600, "EDT")
           } else {
            Table::row(341388000, -18000, 0, "EST")
           }
          }
         } else {
          if i < 121 {
           if i < 120 {
            Table::row(357116400, -18000, 3600, "EDT")
           } else {
            Table::row(372837600, -18000, 0, "EST")
           }
          } else {
           if i < 122 {
            Table::row(388566000, -18000, 3600, "EDT")
           } else {
            Table::row(404892000, -18000, 0, "EST")
           }
          }
         }
        } else {
         if i < 126 {
          if i < 124 {
           Table::row(420015600, -18000, 3600, "EDT")
          } else {
           if i < 125 {
            Table::row(436341600, -18000, 0, "EST")
           } else {
            Table::row(452070000, -18000, 3600, "EDT")
           }
          }
         } else {
          if i < 128 {
           if i < 127 {
            Table::row(467791200, -18000, 0, "EST")
           } else {
            Table::row(483519600, -18000, 3600, "EDT")
           }
          } else {
           if i < 129 {
            Table::row(499240800, -18000, 0, "EST")
           } else {
            Table::row(514969200, -18000, 3600, "EDT")
           }
          }
         }
        }
       } else {
        if i < 137 {
         if i < 133 {
          if i < 131 {
           Table::row(530690400, -18000, 0, "EST")
          } else {
           if i < 132 {
            Table::row(544604400, -18000, 3600, "EDT")
           } else {
            Table::row(562140000, -18000, 0, "EST")
           }
          }
         } else {
          if i < 135 {
           if i < 134 {
            Table::row(576054000, -18000, 3600, "EDT")
           } else {
            Table::row(594194400, -18000, 0, "EST")
           }
          } else {
           if i < 136 {
            Table::row(607503600, -18000, 3600, "EDT")
           } else {
            Table::row(625644000, -18000, 0, "EST")
           }
          }
         }
        } else {
         if i < 141 {
          if i < 139 {
           if i < 138 {
            Table::row(638953200, -18000, 3600, "EDT")
           } else {
            Table::row(657093600, -18000, 0, "EST")
           }
          } else {
           if i < 140 {
            Table::row(671007600, -18000, 3600, "EDT")
           } else {
            Table::row(688543200, -18000, 0, "EST")
           }
          }
         } else {
          if i < 143 {
           if i < 142 {
            Table::row(702457200, -18000, 3600, "EDT")
           } else {
            Table::row(719992800, -18000, 0, "EST")
           }
          } else {
           if i < 144 {
            Table::row(733906800, -18000, 3600, "EDT")
           } else {
            Table::row(752047200, -18000, 0, "EST")
           }
          }
         }
        }
       }
      } else {
       if i < 159 {
        if i < 152 {
         if i < 148 {
          if i < 146 {
           Table::row(765356400, -18000, 3600, "EDT")
          } else {
           if i < 147 {
            Table::row(783496800, -18000, 0, "EST")
           } else {
            Table::row(796806000, -18000, 3600, "EDT")
           }
          }
         } else {
          if i < 150 {
           if i < 149 {
            Table::row(814946400, -18000, 0, "EST")
           } else {
            Table::row(828860400, -18000, 3600, "EDT")
           }
          } else {
           if i < 151 {
            Table::row(846396000, -18000, 0, "EST")
           } else {
            Table::row(860310000, -18000, 3600, "EDT")
           }
          }
         }
        } else {
         if i < 155 {
          if i < 153 {
           Table::row(877845600, -18000, 0, "EST")
          } else {
           if i < 154 {
            Table::row(891759600, -18000, 3600, "EDT")
           } else {
            Table::row(909295200, -18000, 0, "EST")
           }
          }
         } else {
          if i < 157 {
           if i < 156 {
            Table::row(923209200, -18000, 3600, "EDT")
           } else {
            Table::row(941349600, -18000, 0, "EST")
           }
          } else {
           if i < 158 {
            Table::row(954658800, -18000, 3600, "EDT")
           } else {
            Table::row(972799200, -18000, 0, "EST")
           }
          }
         }
        }
       } else {
        if i < 166 {
         if i < 162 {
          if i < 160 {
           Table::row(986108400, -18000, 3600, "EDT")
          } else {
           if i < 161 {
            Table::row(1004248800, -18000, 0, "EST")
           } else {
            Table::row(1018162800, -18000, 3600, "EDT")
           }
          }
         } else {
          if i < 164 {
           if i < 163 {
            Table::row(1035698400, -18000, 0, "EST")
           } else {
            Table::row(1049612400, -18000, 3600, "EDT")
           }
          } else {
           if i < 165 {
            Table::row(1067148000, -18000, 0, "EST")
           } else {
            Table::row(1081062000, -18000, 3600, "EDT")
           }
          }
         }
        } else {
         if i < 170 {
          if i < 168 {
           if i < 167 {
            Table::row(1099202400, -18000, 0, "EST")
           } else {
            Table::row(1112511600, -18000, 3600, "EDT")
           }
          } else {
           if i < 169 {
            Table::row(1130652000, -18000, 0, "EST")
           } else {
            Table::row(1143961200, -18000, 3600, "EDT")
           }
          }
         } else {
          if i < 172 {
           if i < 171 {
            Table::row(1162101600, -18000, 0, "EST")
           } else {
            Table::row(1173596400, -18000, 3600, "EDT")
           }
          } else {
           if i < 173 {
            Table::row(1194156000, -18000, 0, "EST")
           } else {
            Table::row(1205046000, -18000, 3600, "EDT")
           }
          }
         }
        }
       }
      }
     } else {
      if i < 203 {
       if i < 188 {
        if i < 181 {
         if i < 177 {
          if i < 175 {
           Table::row(1225605600, -18000, 0, "EST")
          } else {
           if i < 176 {
            Table::row(1236495600, -18000, 3600, "EDT")
           } else {
            Table::row(1257055200, -18000, 0, "EST")
           }
          }
         } else {
          if i < 179 {
           if i < 178 {
            Table::row(1268550000, -18000, 3600, "EDT")
           } else {
            Table::row(1289109600, -18000, 0, "EST")
           }
          } else {
           if i < 180 {
            Table::row(1299999600, -18000, 3600, "EDT")
           } else {
            Table::row(1320559200, -18000, 0, "EST")
           }
          }
         }
        } else {
         if i < 184 {
          if i < 182 {
           Table::row(1331449200, -18000, 3600, "EDT")
          } else {
           if i < 183 {
            Table::row(1352008800, -18000, 0, "EST")
           } else {
            Table::row(1362898800, -18000, 3600, "EDT")
           }
          }
         } else {
          if i < 186 {
           if i < 185 {
            Table::row(1383458400, -18000, 0, "EST")
           } else {
            Table::row(1394348400, -18000, 3600, "EDT")
           }
          } else {
           if i < 187 {
            Table::row(1414908000, -18000, 0, "EST")
           } else {
            Table::row(1425798000, -18000, 3600, "EDT")
           }
          }
         }
        }
       } else {
        if i < 195 {
         if i < 191 {
          if i < 189 {
           Table::row(1446357600, -18000, 0, "EST")
          } else {
           if i < 190 {
            Table::row(1457852400, -18000, 3600, "EDT")
           } else {
            Table::row(1478412000, -18000, 0, "EST")
           }
          }
         } else {
          if i < 193 {
           if i < 192 {
            Table::row(1489302000, -18000, 3600, "EDT")
           } else {
            Table::row(1509861600, -18000, 0, "EST")
           }
          } else {
           if i < 194 {
            Table::row(1520751600, -18000, 3600, "EDT")
           } else {
            Table::row(1541311200, -18000, 0, "EST")
           }
          }
         }
        } else {
         if i < 199 {
          if i < 197 {
           if i < 196 {
            Table::row(1552201200, -18000, 3600, "EDT")
           } else {
            Table::row(1572760800, -18000, 0, "EST")
           }
          } else {
           if i < 198 {
            Table::row(1583650800, -18000, 3600, "EDT")
           } else {
            Table::row(1604210400, -18000, 0, "EST")
           }
          }
         } else {
          if i < 201 {
           if i < 200 {
            Table::row(1615705200, -18000, 3600, "EDT")
           } else {
            Table::row(1636264800, -18000, 0, "EST")
           }
          } else {
           if i < 202 {
            Table::row(1647154800, -18000, 3600, "EDT")
           } else {
            Table::row(1667714400, -18000, 0, "EST")
           }
          }
         }
        }
       }
      } else {
       if i < 218 {
        if i < 210 {
         if i < 206 {
          if i < 204 {
           Table::row(1678604400, -18000, 3600, "EDT")
          } else {
           if i < 205 {
            Table::row(1699164000, -18000, 0, "EST")
           } else {
            Table::row(1710054000, -18000, 3600, "EDT")
           }
          }
         } else {
          if i < 208 {
           if i < 207 {
            Table::row(1730613600, -18000, 0, "EST")
           } else {
            Table::row(1741503600, -18000, 3600, "EDT")
           }
          } else {
           if i < 209 {
            Table::row(1762063200, -18000, 0, "EST")
           } else {
            Table::row(1772953200, -18000, 3600, "EDT")
           }
          }
         }
        } else {
         if i < 214 {
          if i < 212 {
           if i < 211 {
            Table::row(1793512800, -18000, 0, "EST")
           } else {
            Table::row(1805007600, -18000, 3600, "EDT")
           }
          } else {
           if i < 213 {
            Table::row(1825567200, -18000, 0, "EST")
           } else {
            Table::row(1836457200, -18000, 3600, "EDT")
           }
          }
         } else {
          if i < 216 {
           if i < 215 {
            Table::row(1857016800, -18000, 0, "EST")
           } else {
            Table::row(1867906800, -18000, 3600, "EDT")
           }
          } else {
           if i < 217 {
            Table::row(1888466400, -18000, 0, "EST")
           } else {
            Table::row(1899356400, -18000, 3600, "EDT")
           }
          }
         }
        }
       } else {
        if i < 225 {
         if i < 221 {
          if i < 219 {
           Table::row(1919916000, -18000, 0, "EST")
          } else {
           if i < 220 {
            Table::row(1930806000, -18000, 3600, "EDT")
           } else {
            Table::row(1951365600, -18000, 0, "EST")
           }
          }
         } else {
          if i < 223 {
           if i < 222 {
            Table::row(1962860400, -18000, 3600, "EDT")
           } else {
            Table::row(1983420000, -18000, 0, "EST")
           }
          } else {
           if i < 224 {
            Table::row(1994310000, -18000, 3600, "EDT")
           } else {
            Table::row(2014869600, -18000, 0, "EST")
           }
          }
         }
        } else {
         if i < 229 {
          if i < 227 {
           if i < 226 {
            Table::row(2025759600, -18000, 3600, "EDT")
           } else {
            Table::row(2046319200, -18000, 0, "EST")
           }
          } else {
           if i < 228 {
            Table::row(2057209200, -18000, 3600, "EDT")
           } else {
            Table::row(2077768800, -18000, 0, "EST")
           }
          }
         } else {
          if i < 231 {
           if i < 230 {
            Table::row(2088658800, -18000, 3600, "EDT")
           } else {
            Table::row(2109218400, -18000, 0, "EST")
           }
          } else {
           if i < 232 {
            Table::row(2120108400, -18000, 3600, "EDT")
           } else {
            Table::row(2140668000, -18000, 0, "EST")
           }
          }
         }
        }
       }
      }
     }
    }
}

/// The rows of the table of the zone `America/Thunder_Bay`.
pub open spec fn thunder_bay_rows() -> spec_fn(int) -> (i64, FixedTimespan) {
    |i: int| thunder_bay_row(i)
}

/// The table of the zone `America/Thunder_Bay`.
pub open spec fn thunder_bay() -> Table {
    Table::listed(Table::row(0, -19052, 0, "LMT").1, 233, thunder_bay_rows())
}

/// Row `i` of the table of the zone `America/Tijuana`.
pub open spec fn tijuana_row(i: int) -> (i64, FixedTimespan) {
    if i < 77 {
     if i < 38 {
      if i < 19 {
       if i < 9 {
        if i < 4 {
         if i < 2 {
          if i < 1 {
           Table::row(-1514739600, -25200, 0, "MST")
          } else {
           Table::row(-1451667600, -28800, 0, "PST")
          }
         } else {
          if i < 3 {
           Table::row(-1343145600, -25200, 0, "MST")
          } else {
           Table::row(-1234803600, -28800, 0, "PST")
          }
         }
        } else {
         if i < 6 {
          if i < 5 {
           Table::row(-1222963200, -28800, 3600, "PDT")
          } else {
           Table::row(-1207242000, -28800, 0, "PST")
          }
         } else {
          if i < 7 {
           Table::row(-873820800, -28800, 3600, "PWT")
          } else {
           if i < 8 {
            Table::row(-769395600, -28800, 3600, "PPT")
           } else {
            Table::row(-761418000, -28800, 0, "PST")
           }
          }
         }
        }
       } else {
        if i < 14 {
         if i < 11 {
          if i < 10 {
           Table::row(-686073600, -28800, 3600, "PDT")
          } else {
           Table::row(-661539600, -28800, 0, "PST")
          }
         } else {
          if i < 12 {
           Table::row(-620755200, -28800, 3600, "PDT")
          } else {
           if i < 13 {
            Table::row(-608144400, -28800, 0, "PST")
           } else {
            Table::row(-589384800, -28800, 3600, "PDT")
           }
          }
         }
        } else {
         if i < 16 {
          if i < 15 {
           Table::row(-576082800, -28800, 0, "PST")
          } else {
           Table::row(-557935200, -28800, 3600, "PDT")
          }
         } else {
          if i < 17 {
           Table::row(-544633200, -28800, 0, "PST")
          } else {
           if i < 18 {
            Table::row(-495039600, -28800, 3600, "PDT")
           } else {
            Table::row(-481734000, -28800, 0, "PST")
           }
          }
         }
        }
       }
      } else {
       if i < 28 {
        if i < 23 {
         if i < 21 {
          if i < 20 {
           Table::row(-463590000, -28800, 3600, "PDT")
          } else {
           Table::row(-450284400, -28800, 0, "PST")
          }
         } else {
          if i < 22 {
           Table::row(-431535600, -28800, 3600, "PDT")
          } else {
           Table::row(-418230000, -28800, 0, "PST")
          }
         }
        } else {
         if i < 25 {
          if i < 24 {
           Table::row(-400086000, -28800, 3600, "PDT")
          } else {
           Table::row(-386780400, -28800, 0, "PST")
          }
         } else {
          if i < 26 {
           Table::row(-368636400, -28800, 3600, "PDT")
          } else {
           if i < 27 {
            Table::row(-355330800, -28800, 0, "PST")
           } else {
            Table::row(-337186800, -28800, 3600, "PDT")
           }
          }
         }
        }
       } else {
        if i < 33 {
         if i < 30 {
          if i < 29 {
           Table::row(-323881200, -28800, 0, "PST")
          } else {
           Table::row(-305737200, -28800, 3600, "PDT")
          }
         } else {
          if i < 31 {
           Table::row(-292431600, -28800, 0, "PST")
          } else {
           if i < 32 {
            Table::row(199274400, -28800, 3600, "PDT")
           } else {
            Table::row(215600400, -28800, 0, "PST")
           }
          }
         }
        } else {
         if i < 35 {
          if i < 34 {
           Table::row(230724000, -28800, 3600, "PDT")
          } else {
           Table::row(247050000, -28800, 0, "PST")
          }
         } else {
          if i < 36 {
           Table::row(262778400, -28800, 3600, "PDT")
          } else {
           if i < 37 {
            Table::row(278499600, -28800, 0, "PST")
           } else {
            Table::row(294228000, -28800, 3600, "PDT")
           }
          }
         }
        }
       }
      }
     } else {
      if i < 57 {
       if i < 47 {
        if i < 42 {
         if i < 40 {
          if i < 39 {
           Table::row(309949200, -28800, 0, "PST")
          } else {
           Table::row(325677600, -28800, 3600, "PDT")
          }
         } else {
          if i < 41 {
           Table::row(341398800, -28800, 0, "PST")
          } else {
           Table::row(357127200, -28800, 3600, "PDT")
          }
         }
        } else {
         if i < 44 {
          if i < 43 {
           Table::row(372848400, -28800, 0, "PST")
          } else {
           Table::row(388576800, -28800, 3600, "PDT")
          }
         } else {
          if i < 45 {
           Table::row(404902800, -28800, 0, "PST")
          } else {
           if i < 46 {
            Table::row(420026400, -28800, 3600, "PDT")
           } else {
            Table::row(436352400, -28800, 0, "PST")
           }
          }
         }
        }
       } else {
        if i < 52 {
         if i < 49 {
          if i < 48 {
           Table::row(452080800, -28800, 3600, "PDT")
          } else {
           Table::row(467802000, -28800, 0, "PST")
          }
         } else {
          if i < 50 {
           Table::row(483530400, -28800, 3600, "PDT")
          } else {
           if i < 51 {
            Table::row(499251600, -28800, 0, "PST")
           } else {
            Table::row(514980000, -28800, 3600, "PDT")
           }
          }
         }
        } else {
         if i < 54 {
          if i < 53 {
           Table::row(530701200, -28800, 0, "PST")
          } else {
           Table::row(544615200, -28800, 3600, "PDT")
          }
         } else {
          if i < 55 {
           Table::row(562150800, -28800, 0, "PST")
          } else {
           if i < 56 {
            Table::row(576064800, -28800, 3600, "PDT")
           } else {
            Table::row(594205200, -28800, 0, "PST")
           }
          }
         }
        }
       }
      } else {
       if i < 67 {
        if i < 62 {
         if i < 59 {
          if i < 58 {
           Table::row(607514400, -28800, 3600, "PDT")
          } else {
           Table::row(625654800, -28800, 0, "PST")
          }
         } else {
          if i < 60 {
           Table::row(638964000, -28800, 3600, "PDT")
          } else {
           if i < 61 {
            Table::row(657104400, -28800, 0, "PST")
           } else {
            Table::row(671018400, -28800, 3600, "PDT")
           }
          }
         }
        } else {
         if i < 64 {
          if i < 63 {
           Table::row(688554000, -28800, 0, "PST")
          } else {
           Table::row(702468000, -28800, 3600, "PDT")
          }
         } else {
          if i < 65 {
           Table::row(720003600, -28800, 0, "PST")
          } else {
           if i < 66 {
            Table::row(733917600, -28800, 3600, "PDT")
           } else {
            Table::row(752058000, -28800, 0, "PST")
           }
          }
         }
        }
       } else {
        if i < 72 {
         if i < 69 {
          if i < 68 {
           Table::row(765367200, -28800, 3600, "PDT")
          } else {
           Table::row(783507600, -28800, 0, "PST")
          }
         } else {
          if i < 70 {
           Table::row(796816800, -28800, 3600, "PDT")
          } else {
           if i < 71 {
            Table::row(814957200, -28800, 0, "PST")
           } else {
            Table::row(828871200, -28800, 3600, "PDT")
           }
          }
         }
        } else {
         if i < 74 {
          if i < 73 {
           Table::row(846406800, -28800, 0, "PST")
          } else {
           Table::row(860320800, -28800, 3600, "PDT")
          }
         } else {
          if i < 75 {
           Table::row(877856400, -28800, 0, "PST")
          } else {
           if i < 76 {
            Table::row(891770400, -28800, 3600, "PDT")
           } else {
            Table::row(909306000, -28800, 0, "PST")
           }
          }
         }
        }
       }
      }
     }
    } else {
     if i < 116 {
      if i < 96 {
       if i < 86 {
        if i < 81 {
         if i < 79 {
          if i < 78 {
           Table::row(923220000, -28800, 3600, "PDT")
          } else {
           Table::row(941360400, -28800, 0, "PST")
          }
         } else {
          if i < 80 {
           Table::row(954669600, -28800, 3600, "PDT")
          } else {
           Table::row(972810000, -28800, 0, "PST")
          }
         }
        } else {
         if i < 83 {
          if i < 82 {
           Table::row(986119200, -28800, 3600, "PDT")
          } else {
           Table::row(1004259600, -28800, 0, "PST")
          }
         } else {
          if i < 84 {
           Table::row(1018173600, -28800, 3600, "PDT")
          } else {
           if i < 85 {
            Table::row(1035709200, -28800, 0, "PST")
           } else {
            Table::row(1049623200, -28800, 3600, "PDT")
           }
          }
         }
        }
       } else {
        if i < 91 {
         if i < 88 {
          if i < 87 {
           Table::row(1067158800, -28800, 0, "PST")
          } else {
           Table::row(1081072800, -28800, 3600, "PDT")
          }
         } else {
          if i < 89 {
           Table::row(1099213200, -28800, 0, "PST")
          } else {
           if i < 90 {
            Table::row(1112522400, -28800, 3600, "PDT")
           } else {
            Table::row(1130662800, -28800, 0, "PST")
           }
          }
         }
        } else {
         if i < 93 {
          if i < 92 {
           Table::row(1143972000, -28800, 3600, "PDT")
          } else {
           Table::row(1162112400, -28800, 0, "PST")
          }
         } else {
          if i < 94 {
           Table::row(1175421600, -28800, 3600, "PDT")
          } else {
           if i < 95 {
            Table::row(1193562000, -28800, 0, "PST")
           } else {
            Table::row(1207476000, -28800, 3600, "PDT")
           }
          }
         }
        }
       }
      } else {
       if i < 106 {
        if i < 101 {
         if i < 98 {
          if i < 97 {
           Table::row(1225011600, -28800, 0, "PST")
          } else {
           Table::row(1238925600, -28800, 3600, "PDT")
          }
         } else {
          if i < 99 {
           Table::row(1256461200, -28800, 0, "PST")
          } else {
           if i < 100 {
            Table::row(1268560800, -28800, 3600, "PDT")
           } else {
            Table::row(1289120400, -28800, 0, "PST")
           }
          }
         }
        } else {
         if i < 103 {
          if i < 102 {
           Table::row(1300010400, -28800, 3600, "PDT")
          } else {
           Table::row(1320570000, -28800, 0, "PST")
          }
         } else {
          if i < 104 {
           Table::row(1331460000, -28800, 3600, "PDT")
          } else {
           if i < 105 {
            Table::row(1352019600, -28800, 0, "PST")
           } else {
            Table::row(1362909600, -28800, 3600, "PDT")
           }
          }
         }
        }
       } else {
        if i < 111 {
         if i < 108 {
          if i < 107 {
           Table::row(1383469200, -28800, 0, "PST")
          } else {
           Table::row(1394359200, -28800, 3600, "PDT")
          }
         } else {
          if i < 109 {
           Table::row(1414918800, -28800, 0, "PST")
          } else {
           if i < 110 {
            Table::row(1425808800, -28800, 3600, "PDT")
           } else {
            Table::row(1446368400, -28800, 0, "PST")
           }
          }
         }
        } else {
         if i < 113 {
          if i < 112 {
           Table::row(1457863200, -28800, 3600, "PDT")
          } else {
           Table::row(1478422800, -28800, 0, "PST")
          }
         } else {
          if i < 114 {
           Table::row(1489312800, -28800, 3600, "PDT")
          } else {
           if i < 115 {
            Table::row(1509872400, -28800, 0, "PST")
           } else {
            Table::row(1520762400, -28800, 3600, "PDT")
           }
          }
         }
        }
       }
      }
     } else {
      if i < 135 {
       if i < 125 {
        if i < 120 {
         if i < 118 {
          if i < 117 {
           Table::row(1541322000, -28800, 0, "PST")
          } else {
           Table::row(1552212000, -28800, 3600, "PDT")
          }
         } else {
          if i < 119 {
           Table::row(1572771600, -28800, 0, "PST")
          } else {
           Table::row(1583661600, -28800, 3600, "PDT")
          }
         }
        } else {
         if i < 122 {
          if i < 121 {
           Table::row(1604221200, -28800, 0, "PST")
          } else {
           Table::row(1615716000, -28800, 3600, "PDT")
          }
         } else {
          if i < 123 {
           Table::row(1636275600, -28800, 0, "PST")
          } else {
           if i < 124 {
            Table::row(1647165600, -28800, 3600, "PDT")
           } else {
            Table::row(1667725200, -28800, 0, "PST")
           }
          }
         }
        }
       } else {
        if i < 130 {
         if i < 127 {
          if i < 126 {
           Table::row(1678615200, -28800, 3600, "PDT")
          } else {
           Table::row(1699174800, -28800, 0, "PST")
          }
         } else {
          if i < 128 {
           Table::row(1710064800, -28800, 3600, "PDT")
          } else {
           if i < 129 {
            Table::row(1730624400, -28800, 0, "PST")
           } else {
            Table::row(1741514400, -28800, 3600, "PDT")
           }
          }
         }
        } else {
         if i < 132 {
          if i < 131 {
           Table::row(1762074000, -28800, 0, "PST")
          } else {
           Table::row(1772964000, -28800, 3600, "PDT")
          }
         } else {
          if i < 133 {
           Table::row(1793523600, -28800, 0, "PST")
          } else {
           if i < 134 {
            Table::row(1805018400, -28800, 3600, "PDT")
           } else {
            Table::row(1825578000, -28800, 0, "PST")
           }
          }
         }
        }
       }
      } else {
       if i < 145 {
        if i < 140 {
         if i < 137 {
          if i < 136 {
           Table::row(1836468000, -28800, 3600, "PDT")
          } else {
           Table::row(1857027600, -28800, 0, "PST")
          }
         } else {
          if i < 138 {
           Table::row(1867917600, -28800, 3600, "PDT")
          } else {
           if i < 139 {
            Table::row(1888477200, -28800, 0, "PST")
           } else {
            Table::row(1899367200, -28800, 3600, "PDT")
           }
          }
         }
        } else {
         if i < 142 {
          if i < 141 {
           Table::row(1919926800, -28800, 0, "PST")
          } else {
           Table::row(1930816800, -28800, 3600, "PDT")
          }
         } else {
          if i < 143 {
           Table::row(1951376400, -28800, 0, "PST")
          } else {
           if i < 144 {
            Table::row(1962871200, -28800, 3600, "PDT")
           } else {
            Table::row(1983430800, -28800, 0, "PST")
           }
          }
         }
        }
       } else {
        if i < 150 {
         if i < 147 {
          if i < 146 {
           Table::row(1994320800, -28800, 3600, "PDT")
          } else {
           Table::row(2014880400, -28800, 0, "PST")
          }
         } else {
          if i < 148 {
           Table::row(2025770400, -28800, 3600, "PDT")
          } else {
           if i < 149 {
            Table::row(2046330000, -28800, 0, "PST")
           } else {
            Table::row(2057220000, -28800, 3600, "PDT")
           }
          }
         }
        } else {
         if i < 152 {
          if i < 151 {
           Table::row(2077779600, -28800, 0, "PST")
          } else {
           Table::row(2088669600, -28800, 3600, "PDT")
          }
         } else {
          if i < 153 {
           Table::row(2109229200, -28800, 0, "PST")
          } else {
           if i < 154 {
            Table::row(2120119200, -28800, 3600, "PDT")
           } else {
            Table::row(2140678800, -28800, 0, "PST")
           }
          }
         }
        }
       }
      }
     }
    }
}

/// The rows of the table of the zone `America/Tijuana`.
pub open spec fn tijuana_rows() -> spec_fn(int) -> (i64, FixedTimespan) {
    |i: int| tijuana_row(i)
}

/// The table of the zone `America/Tijuana`.
pub open spec fn tijuana() -> Table {
    Table::listed(Table::row(0, -28084, 0, "LMT").1, 155, tijuana_rows())
}

/// Row `i` of the table of the zone `America/Toronto`.
pub open spec fn toronto_row(i: int) -> (i64, FixedTimespan) {
    if i < 116 {
     if i < 58 {
      if i < 29 {
       if i < 14 {
        if i < 7 {
         if i < 3 {
          if i < 1 {
           Table::row(-2366736148, -18000, 0, "EST")
          } else {
           if i < 2 {
            Table::row(-1632070800, -18000, 3600, "EDT")
           } else {
            Table::row(-1615140000, -18000, 0, "EST")
           }
          }
         } else {
          if i < 5 {
           if i < 4 {
            Table::row(-1601753400, -18000, 3600, "EDT")
           } else {
            Table::row(-1583697600, -18000, 0, "EST")
           }
          } else {
           if i < 6 {
            Table::row(-1567357200, -18000, 3600, "EDT")
           } else {
            Table::row(-1554667200, -18000, 0, "EST")
           }
          }
         }
        } else {
         if i < 10 {
          if i < 8 {
           Table::row(-1534698000, -18000, 3600, "EDT")
          } else {
           if i < 9 {
            Table::row(-1524074400, -18000, 0, "EST")
           } else {
            Table::row(-1503248400, -18000, 3600, "EDT")
           }
          }
         } else {
          if i < 12 {
           if i < 11 {
            Table::row(-1492365600, -18000, 0, "EST")
           } else {
            Table::row(-1471798800, -18000, 3600, "EDT")
           }
          } else {
           if i < 13 {
            Table::row(-1460916000, -18000, 0, "EST")
           } else {
            Table::row(-1440954000, -18000, 3600, "EDT")
           }
          }
         }
        }
       } else {
        if i < 21 {
         if i < 17 {
          if i < 15 {
           Table::row(-1428861600, -18000, 0, "EST")
          } else {
           if i < 16 {
            Table::row(-1409504400, -18000, 3600, "EDT")
           } else {
            Table::row(-1397412000, -18000, 0, "EST")
           }
          }
         } else {
          if i < 19 {
           if i < 18 {
            Table::row(-1378054800, -18000, 3600, "EDT")
           } else {
            Table::row(-1365962400, -18000, 0, "EST")
           }
          } else {
           if i < 20 {
            Table::row(-1346605200, -18000, 3600, "EDT")
           } else {
            Table::row(-1333908000, -18000, 0, "EST")
           }
          }
         }
        } else {
         if i < 25 {
          if i < 23 {
           if i < 22 {
            Table::row(-1315155600, -18000, 3600, "EDT")
           } else {
            Table::row(-1301853600, -18000, 0, "EST")
           }
          } else {
           if i < 24 {
            Table::row(-1283706000, -18000, 3600, "EDT")
           } else {
            Table::row(-1270404000, -18000, 0, "EST")
           }
          }
         } else {
          if i < 27 {
           if i < 26 {
            Table::row(-1252256400, -18000, 3600, "EDT")
           } else {
            Table::row(-1238954400, -18000, 0, "EST")
           }
          } else {
           if i < 28 {
            Table::row(-1220806800, -18000, 3600, "EDT")
           } else {
            Table::row(-1207504800, -18000, 0, "EST")
           }
          }
         }
        }
       }
      } else {
       if i < 43 {
        if i < 36 {
         if i < 32 {
          if i < 30 {
           Table::row(-1188752400, -18000, 3600, "EDT")
          } else {
           if i < 31 {
            Table::row(-1176055200, -18000, 0, "EST")
           } else {
            Table::row(-1157302800, -18000, 3600, "EDT")
           }
          }
         } else {
          if i < 34 {
           if i < 33 {
            Table::row(-1144000800, -18000, 0, "EST")
           } else {
            Table::row(-1125853200, -18000, 3600, "EDT")
           }
          } else {
           if i < 35 {
            Table::row(-1112551200, -18000, 0, "EST")
           } else {
            Table::row(-1094403600, -18000, 3600, "EDT")
           }
          }
         }
        } else {
         if i < 39 {
          if i < 37 {
           Table::row(-1081101600, -18000, 0, "EST")
          } else {
           if i < 38 {
            Table::row(-1062954000, -18000, 3600, "EDT")
           } else {
            Table::row(-1049652000, -18000, 0, "EST")
           }
          }
         } else {
          if i < 41 {
           if i < 40 {
            Table::row(-1031504400, -18000, 3600, "EDT")
           } else {
            Table::row(-1018202400, -18000, 0, "EST")
           }
          } else {
           if i < 42 {
            Table::row(-1000054800, -18000, 3600, "EDT")
           } else {
            Table::row(-986752800, -18000, 0, "EST")
           }
          }
         }
        }
       } else {
        if i < 50 {
         if i < 46 {
          if i < 44 {
           Table::row(-968000400, -18000, 3600, "EDT")
          } else {
           if i < 45 {
            Table::row(-955303200, -18000, 0, "EST")
           } else {
            Table::row(-936550800, -18000, 3600, "EDT")
           }
          }
         } else {
          if i < 48 {
           if i < 47 {
            Table::row(-880218000, -18000, 3600, "EWT")
           } else {
            Table::row(-769395600, -18000, 3600, "EPT")
           }
          } else {
           if i < 49 {
            Table::row(-765396000, -18000, 0, "EST")
           } else {
            Table::row(-747248400, -18000, 3600, "EDT")
           }
          }
         }
        } else {
         if i < 54 {
          if i < 52 {
           if i < 51 {
            Table::row(-733946400, -18000, 0, "EST")
           } else {
            Table::row(-715798800, -18000, 3600, "EDT")
           }
          } else {
           if i < 53 {
            Table::row(-702496800, -18000, 0, "EST")
           } else {
            Table::row(-684349200, -18000, 3600, "EDT")
           }
          }
         } else {
          if i < 56 {
           if i < 55 {
            Table::row(-671047200, -18000, 0, "EST")
           } else {
            Table::row(-652899600, -18000, 3600, "EDT")
           }
          } else {
           if i < 57 {
            Table::row(-634154400, -18000, 0, "EST")
           } else {
            Table::row(-620845200, -18000, 3600, "EDT")
           }
          }
         }
        }
       }
      }
     } else {
      if i < 87 {
       if i < 72 {
        if i < 65 {
         if i < 61 {
          if i < 59 {
           Table::row(-602704800, -18000, 0, "EST")
          } else {
           if i < 60 {
            Table::row(-589395600, -18000, 3600, "EDT")
           } else {
            Table::row(-576093600, -18000, 0, "EST")
           }
          }
         } else {
          if i < 63 {
           if i < 62 {
            Table::row(-557946000, -18000, 3600, "EDT")
           } else {
            Table::row(-544644000, -18000, 0, "EST")
           }
          } else {
           if i < 64 {
            Table::row(-526496400, -18000, 3600, "EDT")
           } else {
            Table::row(-513194400, -18000, 0, "EST")
           }
          }
         }
        } else {
         if i < 68 {
          if i < 66 {
           Table::row(-495046800, -18000, 3600, "EDT")
          } else {
           if i < 67 {
            Table::row(-481744800, -18000, 0, "EST")
           } else {
            Table::row(-463597200, -18000, 3600, "EDT")
           }
          }
         } else {
          if i < 70 {
           if i < 69 {
            Table::row(-450295200, -18000, 0, "EST")
           } else {
            Table::row(-431542800, -18000, 3600, "EDT")
           }
          } else {
           if i < 71 {
            Table::row(-418240800, -18000, 0, "EST")
           } else {
            Table::row(-400093200, -18000, 3600, "EDT")
           }
          }
         }
        }
       } else {
        if i < 79 {
         if i < 75 {
          if i < 73 {
           Table::row(-384372000, -18000, 0, "EST")
          } else {
           if i < 74 {
            Table::row(-368643600, -18000, 3600, "EDT")
           } else {
            Table::row(-352922400, -18000, 0, "EST")
           }
          }
         } else {
          if i < 77 {
           if i < 76 {
            Table::row(-337194000, -18000, 3600, "EDT")
           } else {
            Table::row(-321472800, -18000, 0, "EST")
           }
          } else {
           if i < 78 {
            Table::row(-305744400, -18000, 3600, "EDT")
           } else {
            Table::row(-289418400, -18000, 0, "EST")
           }
          }
         }
        } else {
         if i < 83 {
          if i < 81 {
           if i < 80 {
            Table::row(-273690000, -18000, 3600, "EDT")
           } else {
            Table::row(-257968800, -18000, 0, "EST")
           }
          } else {
           if i < 82 {
            Table::row(-242240400, -18000, 3600, "EDT")
           } else {
            Table::row(-226519200, -18000, 0, "EST")
           }
          }
         } else {
          if i < 85 {
           if i < 84 {
            Table::row(-210790800, -18000, 3600, "EDT")
           } else {
            Table::row(-195069600, -18000, 0, "EST")
           }
          } else {
           if i < 86 {
            Table::row(-179341200, -18000, 3600, "EDT")
           } else {
            Table::row(-163620000, -18000, 0, "EST")
           }
          }
         }
        }
       }
      } else {
       if i < 101 {
        if i < 94 {
         if i < 90 {
          if i < 88 {
           Table::row(-147891600, -18000, 3600, "EDT")
          } else {
           if i < 89 {
            Table::row(-131565600, -18000, 0, "EST")
           } else {
            Table::row(-116442000, -18000, 3600, "EDT")
           }
          }
         } else {
          if i < 92 {
           if i < 91 {
            Table::row(-100116000, -18000, 0, "EST")
           } else {
            Table::row(-84387600, -18000, 3600, "EDT")
           }
          } else {
           if i < 93 {
            Table::row(-68666400, -18000, 0, "EST")
           } else {
            Table::row(-52938000, -18000, 3600, "EDT")
           }
          }
         }
        } else {
         if i < 97 {
          if i < 95 {
           Table::row(-37216800, -18000, 0, "EST")
          } else {
           if i < 96 {
            Table::row(-21488400, -18000, 3600, "EDT")
           } else {
            Table::row(-5767200, -18000, 0, "EST")
           }
          }
         } else {
          if i < 99 {
           if i < 98 {
            Table::row(9961200, -18000, 3600, "EDT")
           } else {
            Table::row(25682400, -18000, 0, "EST")
           }
          } else {
           if i < 100 {
            Table::row(41410800, -18000, 3600, "EDT")
           } else {
            Table::row(57736800, -18000, 0, "EST")
           }
          }
         }
        }
       } else {
        if i < 108 {
         if i < 104 {
          if i < 102 {
           Table::row(73465200, -18000, 3600, "EDT")
          } else {
           if i < 103 {
            Table::row(89186400, -18000, 0, "EST")
           } else {
            Table::row(104914800, -18000, 3600, "EDT")
           }
          }
         } else {
          if i < 106 {
           if i < 105 {
            Table::row(120636000, -18000, 0, "EST")
           } else {
            Table::row(136364400, -18000, 3600, "EDT")
           }
          } else {
           if i < 107 {
            Table::row(152085600, -18000, 0, "EST")
           } else {
            Table::row(167814000, -18000, 3600, "EDT")
           }
          }
         }
        } else {
         if i < 112 {
          if i < 110 {
           if i < 109 {
            Table::row(183535200, -18000, 0, "EST")
           } else {
            Table::row(199263600, -18000, 3600, "EDT")
           }
          } else {
           if i < 111 {
            Table::row(215589600, -18000, 0, "EST")
           } else {
            Table::row(230713200, -18000, 3600, "EDT")
           }
          }
         } else {
          if i < 114 {
           if i < 113 {
            Table::row(247039200, -18000, 0, "EST")
           } else {
            Table::row(262767600, -18000, 3600, "EDT")
           }
          } else {
           if i < 115 {
            Table::row(278488800, -18000, 0, "EST")
           } else {
            Table::row(294217200, -18000, 3600, "EDT")
           }
          }
         }
        }
       }
      }
     }
    } else {
     if i < 174 {
      if i < 145 {
       if i < 130 {
        if i < 123 {
         if i < 119 {
          if i < 117 {
           Table::row(309938400, -18000, 0, "EST")
          } else {
           if i < 118 {
            Table::row(325666800, -18000, 3600, "EDT")
           } else {
            Table::row(341388000, -18000, 0, "EST")
           }
          }
         } else {
          if i < 121 {
           if i < 120 {
            Table::row(357116400, -18000, 3600, "EDT")
           } else {
            Table::row(372837600, -18000, 0, "EST")
           }
          } else {
           if i < 122 {
            Table::row(388566000, -18000, 3600, "EDT")
           } else {
            Table::row(404892000, -18000, 0, "EST")
           }
          }
         }
        } else {
         if i < 126 {
          if i < 124 {
           Table::row(420015600, -18000, 3600, "EDT")
          } else {
           if i < 125 {
            Table::row(436341600, -18000, 0, "EST")
           } else {
            Table::row(452070000, -18000, 3600, "EDT")
           }
          }
         } else {
          if i < 128 {
           if i < 127 {
            Table::row(467791200, -18000, 0, "EST")
           } else {
            Table::row(483519600, -18000, 3600, "EDT")
           }
          } else {
           if i < 129 {
            Table::row(499240800, -18000, 0, "EST")
           } else {
            Table::row(514969200, -18000, 3600, "EDT")
           }
          }
         }
        }
       } else {
        if i < 137 {
         if i < 133 {
          if i < 131 {
           Table::row(530690400, -18000, 0, "EST")
          } else {
           if i < 132 {
            Table::row(544604400, -18000, 3600, "EDT")
           } else {
            Table::row(562140000, -18000, 0, "EST")
           }
          }
         } else {
          if i < 135 {
           if i < 134 {
            Table::row(576054000, -18000, 3600, "EDT")
           } else {
            Table::row(594194400, -18000, 0, "EST")
           }
          } else {
           if i < 136 {
            Table::row(607503600, -18000, 3600, "EDT")
           } else {
            Table::row(625644000, -18000, 0, "EST")
           }
          }
         }
        } else {
         if i < 141 {
          if i < 139 {
           if i < 138 {
            Table::row(638953200, -18000, 3600, "EDT")
           } else {
            Table::row(657093600, -18000, 0, "EST")
           }
          } else {
           if i < 140 {
            Table::row(671007600, -18000, 3600, "EDT")
           } else {
            Table::row(688543200, -18000, 0, "EST")
           }
          }
         } else {
          if i < 143 {
           if i < 142 {
            Table::row(702457200, -18000, 3600, "EDT")
           } else {
            Table::row(719992800, -18000, 0, "EST")
           }
          } else {
           if i < 144 {
            Table::row(733906800, -18000, 3600, "EDT")
           } else {
            Table::row(752047200, -18000, 0, "EST")
           }
          }
         }
        }
       }
      } else {
       if i < 159 {
        if i < 152 {
         if i < 148 {
          if i < 146 {
           Table::row(765356400, -18000, 3600, "EDT")
          } else {
           if i < 147 {
            Table::row(783496800, -18000, 0, "EST")
           } else {
            Table::row(796806000, -18000, 3600, "EDT")
           }
          }
         } else {
          if i < 150 {
           if i < 149 {
            Table::row(814946400, -18000, 0, "EST")
           } else {
            Table::row(828860400, -18000, 3600, "EDT")
           }
          } else {
           if i < 151 {
            Table::row(846396000, -18000, 0, "EST")
           } else {
            Table::row(860310000, -18000, 3600, "EDT")
           }
          }
         }
        } else {
         if i < 155 {
          if i < 153 {
           Table::row(877845600, -18000, 0, "EST")
          } else {
           if i < 154 {
            Table::row(891759600, -18000, 3600, "EDT")
           } else {
            Table::row(909295200, -18000, 0, "EST")
           }
          }
         } else {
          if i < 157 {
           if i < 156 {
            Table::row(923209200, -18000, 3600, "EDT")
           } else {
            Table::row(941349600, -18000, 0, "EST")
           }
          } else {
           if i < 158 {
            Table::row(954658800, -18000, 3600, "EDT")
           } else {
            Table::row(972799200, -18000, 0, "EST")
           }
          }
         }
        }
       } else {
        if i < 166 {
         if i < 162 {
          if i < 160 {
           Table::row(986108400, -18000, 3600, "EDT")
          } else {
           if i < 161 {
            Table::row(1004248800, -18000, 0, "EST")
           } else {
            Table::row(1018162800, -18000, 3600, "EDT")
           }
          }
         } else {
          if i < 164 {
           if i < 163 {
            Table::row(1035698400, -18000, 0, "EST")
           } else {
            Table::row(1049612400, -18000, 3600, "EDT")
           }
          } else {
           if i < 165 {
            Table::row(1067148000, -18000, 0, "EST")
           } else {
            Table::row(1081062000, -18000, 3600, "EDT")
           }
          }
         }
        } else {
         if i < 170 {
          if i < 168 {
           if i < 167 {
            Table::row(1099202400, -18000, 0, "EST")
           } else {
            Table::row(1112511600, -18000, 3600, "EDT")
           }
          } else {
           if i < 169 {
            Table::row(1130652000, -18000, 0, "EST")
           } else {
            Table::row(1143961200, -18000, 3600, "EDT")
           }
          }
         } else {
          if i < 172 {
           if i < 171 {
            Table::row(1162101600, -18000, 0, "EST")
           } else {
            Table::row(1173596400, -18000, 3600, "EDT")
           }
          } else {
           if i < 173 {
            Table::row(1194156000, -18000, 0, "EST")
           } else {
            Table::row(1205046000, -18000, 3600, "EDT")
           }
          }
         }
        }
       }
      }
     } else {
      if i < 203 {
       if i < 188 {
        if i < 181 {
         if i < 177 {
          if i < 175 {
           Table::row(1225605600, -18000, 0, "EST")
          } else {
           if i < 176 {
            Table::row(1236495600, -18000, 3600, "EDT")
           } else {
            Table::row(1257055200, -18000, 0, "EST")
           }
          }
         } else {
          if i < 179 {
           if i < 178 {
            Table::row(1268550000, -18000, 3600, "EDT")
           } else {
            Table::row(1289109600, -18000, 0, "EST")
           }
          } else {
           if i < 180 {
            Table::row(1299999600, -18000, 3600, "EDT")
           } else {
            Table::row(1320559200, -18000, 0, "EST")
           }
          }
         }
        } else {
         if i < 184 {
          if i < 182 {
           Table::row(1331449200, -18000, 3600, "EDT")
          } else {
           if i < 183 {
            Table::row(1352008800, -18000, 0, "EST")
           } else {
            Table::row(1362898800, -18000, 3600, "EDT")
           }
          }
         } else {
          if i < 186 {
           if i < 185 {
            Table::row(1383458400, -18000, 0, "EST")
           } else {
            Table::row(1394348400, -18000, 3600, "EDT")
           }
          } else {
           if i < 187 {
            Table::row(1414908000, -18000, 0, "EST")
           } else {
            Table::row(1425798000, -18000, 3600, "EDT")
           }
          }
         }
        }
       } else {
        if i < 195 {
         if i < 191 {
          if i < 189 {
           Table::row(1446357600, -18000, 0, "EST")
          } else {
           if i < 190 {
            Table::row(1457852400, -18000, 3600, "EDT")
           } else {
            Table::row(1478412000, -18000, 0, "EST")
           }
          }
         } else {
          if i < 193 {
           if i < 192 {
            Table::row(1489302000, -18000, 3600, "EDT")
           } else {
            Table::row(1509861600, -18000, 0, "EST")
           }
          } else {
           if i < 194 {
            Table::row(1520751600, -18000, 3600, "EDT")
           } else {
            Table::row(1541311200, -18000, 0, "EST")
           }
          }
         }
        } else {
         if i < 199 {
          if i < 197 {
           if i < 196 {
            Table::row(1552201200, -18000, 3600, "EDT")
           } else {
            Table::row(1572760800, -18000, 0, "EST")
           }
          } else {
           if i < 198 {
            Table::row(1583650800, -18000, 3600, "EDT")
           } else {
            Table::row(1604210400, -18000, 0, "EST")
           }
          }
         } else {
          if i < 201 {
           if i < 200 {
            Table::row(1615705200, -18000, 3600, "EDT")
           } else {
            Table::row(1636264800, -18000, 0, "EST")
           }
          } else {
           if i < 202 {
            Table::row(1647154800, -18000, 3600, "EDT")
           } else {
            Table::row(1667714400, -18000, 0, "EST")
           }
          }
         }
        }
       }
      } else {
       if i < 218 {
        if i < 210 {
         if i < 206 {
          if i < 204 {
           Table::row(1678604400, -18000, 3600, "EDT")
          } else {
           if i < 205 {
            Table::row(1699164000, -18000, 0, "EST")
           } else {
            Table::row(1710054000, -18000, 3600, "EDT")
           }
          }
         } else {
          if i < 208 {
           if i < 207 {
            Table::row(1730613600, -18000, 0, "EST")
           } else {
            Table::row(1741503600, -18000, 3600, "EDT")
           }
          } else {
           if i < 209 {
            Table::row(1762063200, -18000, 0, "EST")
           } else {
            Table::row(1772953200, -18000, 3600, "EDT")
           }
          }
         }
        } else {
         if i < 214 {
          if i < 212 {
           if i < 211 {
            Table::row(1793512800, -18000, 0, "EST")
           } else {
            Table::row(1805007600, -18000, 3600, "EDT")
           }
          } else {
           if i < 213 {
            Table::row(1825567200, -18000, 0, "EST")
           } else {
            Table::row(1836457200, -18000, 3600, "EDT")
           }
          }
         } else {
          if i < 216 {
           if i < 215 {
            Table::row(1857016800, -18000, 0, "EST")
           } else {
            Table::row(1867906800, -18000, 3600, "EDT")
           }
          } else {
           if i < 217 {
            Table::row(1888466400, -18000, 0, "EST")
           } else {
            Table::row(1899356400, -18000, 3600, "EDT")
           }
          }
         }
        }
       } else {
        if i < 225 {
         if i < 221 {
          if i < 219 {
           Table::row(1919916000, -18000, 0, "EST")
          } else {
           if i < 220 {
            Table::row(1930806000, -18000, 3600, "EDT")
           } else {
            Table::row(1951365600, -18000, 0, "EST")
           }
          }
         } else {
          if i < 223 {
           if i < 222 {
            Table::row(1962860400, -18000, 3600, "EDT")
           } else {
            Table::row(1983420000, -18000, 0, "EST")
           }
          } else {
           if i < 224 {
            Table::row(1994310000, -18000, 3600, "EDT")
           } else {
            Table::row(2014869600, -18000, 0, "EST")
           }
          }
         }
        } else {
         if i < 229 {
          if i < 227 {
           if i < 226 {
            Table::row(2025759600, -18000, 3600, "EDT")
           } else {
            Table::row(2046319200, -18000, 0, "EST")
           }
          } else {
           if i < 228 {
            Table::row(2057209200, -18000, 3600, "EDT")
           } else {
            Table::row(2077768800, -18000, 0, "EST")
           }
          }
         } else {
          if i < 231 {
           if i < 230 {
            Table::row(2088658800, -18000, 3600, "EDT")
           } else {
            Table::row(2109218400, -18000, 0, "EST")
           }
          } else {
           if i < 232 {
            Table::row(2120108400, -18000, 3600, "EDT")
           } else {
            Table::row(2140668000, -18000, 0, "EST")
           }
          }
         }
        }
       }
      }
     }
    }
}

/// The rows of the table of the zone `America/Toronto`.
pub open spec fn toronto_rows() -> spec_fn(int) -> (i64, FixedTimespan) {
    |i: int| toronto_row(i)
}

/// The table of the zone `America/Toronto`.
pub open spec fn toronto() -> Table {
    Table::listed(Table::row(0, -19052, 0, "LMT").1, 233, toronto_rows())
}

/// Row `i` of the table of the zone `America/Tortola`.
pub open spec fn tortola_row(i: int) -> (i64, FixedTimespan) {
    Table::row(-1846266092, -14400, 0, "AST")
}

/// The rows of the table of the zone `America/Tortola`.
pub open spec fn tortola_rows() -> spec_fn(int) -> (i64, FixedTimespan) {
    |i: int| tortola_row(i)
}

/// The table of the zone `America/Tortola`.
pub open spec fn tortola() -> Table {
    Table::listed(Table::row(0, -15508, 0, "LMT").1, 1, tortola_rows())
}

/// Row `i` of the table of the zone `America/Vancouver`.
pub open spec fn vancouver_row(i: int) -> (i64, FixedTimespan) {
    if i < 95 {
     if i < 47 {
      if i < 23 {
       if i < 11 {
        if i < 5 {
         if i < 2 {
          if i < 1 {
           Table::row(-2713880852, -28800, 0, "PST")
          } else {
           Table::row(-1632060000, -28800, 3600, "PDT")
          }
         } else {
          if i < 3 {
           Table::row(-1615129200, -28800, 0, "PST")
          } else {
           if i < 4 {
            Table::row(-880207200, -28800, 3600, "PWT")
           } else {
            Table::row(-769395600, -28800, 3600, "PPT")
           }
          }
         }
        } else {
         if i < 8 {
          if i < 6 {
           Table::row(-765385200, -28800, 0, "PST")
          } else {
           if i < 7 {
            Table::row(-747237600, -28800, 3600, "PDT")
           } else {
            Table::row(-733935600, -28800, 0, "PST")
           }
          }
         } else {
          if i < 9 {
           Table::row(-715788000, -28800, 3600, "PDT")
          } else {
           if i < 10 {
            Table::row(-702486000, -28800, 0, "PST")
           } else {
            Table::row(-684338400, -28800, 3600, "PDT")
           }
          }
         }
        }
       } else {
        if i < 17 {
         if i < 14 {
          if i < 12 {
           Table::row(-671036400, -28800, 0, "PST")
          } else {
           if i < 13 {
            Table::row(-652888800, -28800, 3600, "PDT")
           } else {
            Table::row(-639586800, -28800, 0, "PST")
           }
          }
         } else {
          if i < 15 {
           Table::row(-620834400, -28800, 3600, "PDT")
          } else {
           if i < 16 {
            Table::row(-608137200, -28800, 0, "PST")
           } else {
            Table::row(-589384800, -28800, 3600, "PDT")
           }
          }
         }
        } else {
         if i < 20 {
          if i < 18 {
           Table::row(-576082800, -28800, 0, "PST")
          } else {
           if i < 19 {
            Table::row(-557935200, -28800, 3600, "PDT")
           } else {
            Table::row(-544633200, -28800, 0, "PST")
           }
          }
         } else {
          if i < 21 {
           Table::row(-526485600, -28800, 3600, "PDT")
          } else {
           if i < 22 {
            Table::row(-513183600, -28800, 0, "PST")
           } else {
            Table::row(-495036000, -28800, 3600, "PDT")
           }
          }
         }
        }
       }
      } else {
       if i < 35 {
        if i < 29 {
         if i < 26 {
          if i < 24 {
           Table::row(-481734000, -28800, 0, "PST")
          } else {
           if i < 25 {
            Table::row(-463586400, -28800, 3600, "PDT")
           } else {
            Table::row(-450284400, -28800, 0, "PST")
           }
          }
         } else {
          if i < 27 {
           Table::row(-431532000, -28800, 3600, "PDT")
          } else {
           if i < 28 {
            Table::row(-418230000, -28800, 0, "PST")
           } else {
            Table::row(-400082400, -28800, 3600, "PDT")
           }
          }
         }
        } else {
         if i < 32 {
          if i < 30 {
           Table::row(-386780400, -28800, 0, "PST")
          } else {
           if i < 31 {
            Table::row(-368632800, -28800, 3600, "PDT")
           } else {
            Table::row(-355330800, -28800, 0, "PST")
           }
          }
         } else {
          if i < 33 {
           Table::row(-337183200, -28800, 3600, "PDT")
          } else {
           if i < 34 {
            Table::row(-323881200, -28800, 0, "PST")
           } else {
            Table::row(-305733600, -28800, 3600, "PDT")
           }
          }
         }
        }
       } else {
        if i < 41 {
         if i < 38 {
          if i < 36 {
           Table::row(-292431600, -28800, 0, "PST")
          } else {
           if i < 37 {
            Table::row(-273679200, -28800, 3600, "PDT")
           } else {
            Table::row(-260982000, -28800, 0, "PST")
           }
          }
         } else {
          if i < 39 {
           Table::row(-242229600, -28800, 3600, "PDT")
          } else {
           if i < 40 {
            Table::row(-226508400, -28800, 0, "PST")
           } else {
            Table::row(-210780000, -28800, 3600, "PDT")
           }
          }
         }
        } else {
         if i < 44 {
          if i < 42 {
           Table::row(-195058800, -28800, 0, "PST")
          } else {
           if i < 43 {
            Table::row(-179330400, -28800, 3600, "PDT")
           } else {
            Table::row(-163609200, -28800, 0, "PST")
           }
          }
         } else {
          if i < 45 {
           Table::row(-147880800, -28800, 3600, "PDT")
          } else {
           if i < 46 {
            Table::row(-131554800, -28800, 0, "PST")
           } else {
            Table::row(-116431200, -28800, 3600, "PDT")
           }
          }
         }
        }
       }
      }
     } else {
      if i < 71 {
       if i < 59 {
        if i < 53 {
         if i < 50 {
          if i < 48 {
           Table::row(-100105200, -28800, 0, "PST")
          } else {
           if i < 49 {
            Table::row(-84376800, -28800, 3600, "PDT")
           } else {
            Table::row(-68655600, -28800, 0, "PST")
           }
          }
         } else {
          if i < 51 {
           Table::row(-52927200, -28800, 3600, "PDT")
          } else {
           if i < 52 {
            Table::row(-37206000, -28800, 0, "PST")
           } else {
            Table::row(-21477600, -28800, 3600, "PDT")
           }
          }
         }
        } else {
         if i < 56 {
          if i < 54 {
           Table::row(-5756400, -28800, 0, "PST")
          } else {
           if i < 55 {
            Table::row(9972000, -28800, 3600, "PDT")
           } else {
            Table::row(25693200, -28800, 0, "PST")
           }
          }
         } else {
          if i < 57 {
           Table::row(41421600, -28800, 3600, "PDT")
          } else {
           if i < 58 {
            Table::row(57747600, -28800, 0, "PST")
           } else {
            Table::row(73476000, -28800, 3600, "PDT")
           }
          }
         }
        }
       } else {
        if i < 65 {
         if i < 62 {
          if i < 60 {
           Table::row(89197200, -28800, 0, "PST")
          } else {
           if i < 61 {
            Table::row(104925600, -28800, 3600, "PDT")
           } else {
            Table::row(120646800, -28800, 0, "PST")
           }
          }
         } else {
          if i < 63 {
           Table::row(136375200, -28800, 3600, "PDT")
          } else {
           if i < 64 {
            Table::row(152096400, -28800, 0, "PST")
           } else {
            Table::row(167824800, -28800, 3600, "PDT")
           }
          }
         }
        } else {
         if i < 68 {
          if i < 66 {
           Table::row(183546000, -28800, 0, "PST")
          } else {
           if i < 67 {
            Table::row(199274400, -28800, 3600, "PDT")
           } else {
            Table::row(215600400, -28800, 0, "PST")
           }
          }
         } else {
          if i < 69 {
           Table::row(230724000, -28800, 3600, "PDT")
          } else {
           if i < 70 {
            Table::row(247050000, -28800, 0, "PST")
           } else {
            Table::row(262778400, -28800, 3600, "PDT")
           }
          }
         }
        }
       }
      } else {
       if i < 83 {
        if i < 77 {
         if i < 74 {
          if i < 72 {
           Table::row(278499600, -28800, 0, "PST")
          } else {
           if i < 73 {
            Table::row(294228000, -28800, 3600, "PDT")
           } else {
            Table::row(309949200, -28800, 0, "PST")
           }
          }
         } else {
          if i < 75 {
           Table::row(325677600, -28800, 3600, "PDT")
          } else {
           if i < 76 {
            Table::row(341398800, -28800, 0, "PST")
           } else {
            Table::row(357127200, -28800, 3600, "PDT")
           }
          }
         }
        } else {
         if i < 80 {
          if i < 78 {
           Table::row(372848400, -28800, 0, "PST")
          } else {
           if i < 79 {
            Table::row(388576800, -28800, 3600, "PDT")
           } else {
            Table::row(404902800, -28800, 0, "PST")
           }
          }
         } else {
          if i < 81 {
           Table::row(420026400, -28800, 3600, "PDT")
          } else {
           if i < 82 {
            Table::row(436352400, -28800, 0, "PST")
           } else {
            Table::row(452080800, -28800, 3600, "PDT")
           }
          }
         }
        }
       } else {
        if i < 89 {
         if i < 86 {
          if i < 84 {
           Table::row(467802000, -28800, 0, "PST")
          } else {
           if i < 85 {
            Table::row(483530400, -28800, 3600, "PDT")
           } else {
            Table::row(499251600, -28800, 0, "PST")
           }
          }
         } else {
          if i < 87 {
           Table::row(514980000, -28800, 3600, "PDT")
          } else {
           if i < 88 {
            Table::row(530701200, -28800, 0, "PST")
           } else {
            Table::row(544615200, -28800, 3600, "PDT")
           }
          }
         }
        } else {
         if i < 92 {
          if i < 90 {
           Table::row(562150800, -28800, 0, "PST")
          } else {
           if i < 91 {
            Table::row(576064800, -28800, 3600, "PDT")
           } else {
            Table::row(594205200, -28800, 0, "PST")
           }
          }
         } else {
          if i < 93 {
           Table::row(607514400, -28800, 3600, "PDT")
          } else {
           if i < 94 {
            Table::row(625654800, -28800, 0, "PST")
           } else {
            Table::row(638964000, -28800, 3600, "PDT")
           }
          }
         }
        }
       }
      }
     }
    } else {
     if i < 142 {
      if i < 118 {
       if i < 106 {
        if i < 100 {
         if i < 97 {
          if i < 96 {
           Table::row(657104400, -28800, 0, "PST")
          } else {
           Table::row(671018400, -28800, 3600, "PDT")
          }
         } else {
          if i < 98 {
           Table::row(688554000, -28800, 0, "PST")
          } else {
           if i < 99 {
            Table::row(702468000, -28800, 3600, "PDT")
           } else {
            Table::row(720003600, -28800, 0, "PST")
           }
          }
         }
        } else {
         if i < 103 {
          if i < 101 {
           Table::row(733917600, -28800, 3600, "PDT")
          } else {
           if i < 102 {
            Table::row(752058000, -28800, 0, "PST")
           } else {
            Table::row(765367200, -28800, 3600, "PDT")
           }
          }
         } else {
          if i < 104 {
           Table::row(783507600, -28800, 0, "PST")
          } else {
           if i < 105 {
            Table::row(796816800, -28800, 3600, "PDT")
           } else {
            Table::row(814957200, -28800, 0, "PST")
           }
          }
         }
        }
       } else {
        if i < 112 {
         if i < 109 {
          if i < 107 {
           Table::row(828871200, -28800, 3600, "PDT")
          } else {
           if i < 108 {
            Table::row(846406800, -28800, 0, "PST")
           } else {
            Table::row(860320800, -28800, 3600, "PDT")
           }
          }
         } else {
          if i < 110 {
           Table::row(877856400, -28800, 0, "PST")
          } else {
           if i < 111 {
            Table::row(891770400, -28800, 3600, "PDT")
           } else {
            Table::row(909306000, -28800, 0, "PST")
           }
          }
         }
        } else {
         if i < 115 {
          if i < 113 {
           Table::row(923220000, -28800, 3600, "PDT")
          } else {
           if i < 114 {
            Table::row(941360400, -28800, 0, "PST")
           } else {
            Table::row(954669600, -28800, 3600, "PDT")
           }
          }
         } else {
          if i < 116 {
           Table::row(972810000, -28800, 0, "PST")
          } else {
           if i < 117 {
            Table::row(986119200, -28800, 3600, "PDT")
           } else {
            Table::row(1004259600, -28800, 0, "PST")
           }
          }
         }
        }
       }
      } else {
       if i < 130 {
        if i < 124 {
         if i < 121 {
          if i < 119 {
           Table::row(1018173600, -28800, 3600, "PDT")
          } else {
           if i < 120 {
            Table::row(1035709200, -28800, 0, "PST")
           } else {
            Table::row(1049623200, -28800, 3600, "PDT")
           }
          }
         } else {
          if i < 122 {
           Table::row(1067158800, -28800, 0, "PST")
          } else {
           if i < 123 {
            Table::row(1081072800, -28800, 3600, "PDT")
           } else {
            Table::row(1099213200, -28800, 0, "PST")
           }
          }
         }
        } else {
         if i < 127 {
          if i < 125 {
           Table::row(1112522400, -28800, 3600, "PDT")
          } else {
           if i < 126 {
            Table::row(1130662800, -28800, 0, "PST")
           } else {
            Table::row(1143972000, -28800, 3600, "PDT")
           }
          }
         } else {
          if i < 128 {
           Table::row(1162112400, -28800, 0, "PST")
          } else {
           if i < 129 {
            Table::row(1173607200, -28800, 3600, "PDT")
           } else {
            Table::row(1194166800, -28800, 0, "PST")
           }
          }
         }
        }
       } else {
        if i < 136 {
         if i < 133 {
          if i < 131 {
           Table::row(1205056800, -28800, 3600, "PDT")
          } else {
           if i < 132 {
            Table::row(1225616400, -28800, 0, "PST")
           } else {
            Table::row(1236506400, -28800, 3600, "PDT")
           }
          }
         } else {
          if i < 134 {
           Table::row(1257066000, -28800, 0, "PST")
          } else {
           if i < 135 {
            Table::row(1268560800, -28800, 3600, "PDT")
           } else {
            Table::row(1289120400, -28800, 0, "PST")
           }
          }
         }
        } else {
         if i < 139 {
          if i < 137 {
           Table::row(1300010400, -28800, 3600, "PDT")
          } else {
           if i < 138 {
            Table::row(1320570000, -28800, 0, "PST")
           } else {
            Table::row(1331460000, -28800, 3600, "PDT")
           }
          }
         } else {
          if i < 140 {
           Table::row(1352019600, -28800, 0, "PST")
          } else {
           if i < 141 {
            Table::row(1362909600, -28800, 3600, "PDT")
           } else {
            Table::row(1383469200, -28800, 0, "PST")
           }
          }
         }
        }
       }
      }
     } else {
      if i < 166 {
       if i < 154 {
        if i < 148 {
         if i < 145 {
          if i < 143 {
           Table::row(1394359200, -28800, 3600, "PDT")
          } else {
           if i < 144 {
            Table::row(1414918800, -28800, 0, "PST")
           } else {
            Table::row(1425808800, -28800, 3600, "PDT")
           }
          }
         } else {
          if i < 146 {
           Table::row(1446368400, -28800, 0, "PST")
          } else {
           if i < 147 {
            Table::row(1457863200, -28800, 3600, "PDT")
           } else {
            Table::row(1478422800, -28800, 0, "PST")
           }
          }
         }
        } else {
         if i < 151 {
          if i < 149 {
           Table::row(1489312800, -28800, 3600, "PDT")
          } else {
           if i < 150 {
            Table::row(1509872400, -28800, 0, "PST")
           } else {
            Table::row(1520762400, -28800, 3600, "PDT")
           }
          }
         } else {
          if i < 152 {
           Table::row(1541322000, -28800, 0, "PST")
          } else {
           if i < 153 {
            Table::row(1552212000, -28800, 3600, "PDT")
           } else {
            Table::row(1572771600, -28800, 0, "PST")
           }
          }
         }
        }
       } else {
        if i < 160 {
         if i < 157 {
          if i < 155 {
           Table::row(1583661600, -28800, 3600, "PDT")
          } else {
           if i < 156 {
            Table::row(1604221200, -28800, 0, "PST")
           } else {
            Table::row(1615716000, -28800, 3600, "PDT")
           }
          }
         } else {
          if i < 158 {
           Table::row(1636275600, -28800, 0, "PST")
          } else {
           if i < 159 {
            Table::row(1647165600, -28800, 3600, "PDT")
           } else {
            Table::row(1667725200, -28800, 0, "PST")
           }
          }
         }
        } else {
         if i < 163 {
          if i < 161 {
           Table::row(1678615200, -28800, 3600, "PDT")
          } else {
           if i < 162 {
            Table::row(1699174800, -28800, 0, "PST")
           } else {
            Table::row(1710064800, -28800, 3600, "PDT")
           }
          }
         } else {
          if i < 164 {
           Table::row(1730624400, -28800, 0, "PST")
          } else {
           if i < 165 {
            Table::row(1741514400, -28800, 3600, "PDT")
           } else {
            Table::row(1762074000, -28800, 0, "PST")
           }
          }
         }
        }
       }
      } else {
       if i < 178 {
        if i < 172 {
         if i < 169 {
          if i < 167 {
           Table::row(1772964000, -28800, 3600, "PDT")
          } else {
           if i < 168 {
            Table::row(1793523600, -28800, 0, "PST")
           } else {
            Table::row(1805018400, -28800, 3600, "PDT")
           }
          }
         } else {
          if i < 170 {
           Table::row(1825578000, -28800, 0, "PST")
          } else {
           if i < 171 {
            Table::row(1836468000, -28800, 3600, "PDT")
           } else {
            Table::row(1857027600, -28800, 0, "PST")
           }
          }
         }
        } else {
         if i < 175 {
          if i < 173 {
           Table::row(1867917600, -28800, 3600, "PDT")
          } else {
           if i < 174 {
            Table::row(1888477200, -28800, 0, "PST")
           } else {
            Table::row(1899367200, -28800, 3600, "PDT")
           }
          }
         } else {
          if i < 176 {
           Table::row(1919926800, -28800, 0, "PST")
          } else {
           if i < 177 {
            Table::row(1930816800, -28800, 3600, "PDT")
           } else {
            Table::row(1951376400, -28800, 0, "PST")
           }
          }
         }
        }
       } else {
        if i < 184 {
         if i < 181 {
          if i < 179 {
           Table::row(1962871200, -28800, 3600, "PDT")
          } else {
           if i < 180 {
            Table::row(1983430800, -28800, 0, "PST")
           } else {
            Table::row(1994320800, -28800, 3600, "PDT")
           }
          }
         } else {
          if i < 182 {
           Table::row(2014880400, -28800, 0, "PST")
          } else {
           if i < 183 {
            Table::row(2025770400, -28800, 3600, "PDT")
           } else {
            Table::row(2046330000, -28800, 0, "PST")
           }
          }
         }
        } else {
         if i < 187 {
          if i < 185 {
           Table::row(2057220000, -28800, 3600, "PDT")
          } else {
           if i < 186 {
            Table::row(2077779600, -28800, 0, "PST")
           } else {
            Table::row(2088669600, -28800, 3600, "PDT")
           }
          }
         } else {
          if i < 188 {
           Table::row(2109229200, -28800, 0, "PST")
          } else {
           if i < 189 {
            Table::row(2120119200, -28800, 3600, "PDT")
           } else {
            Table::row(2140678800, -28800, 0, "PST")
           }
          }
         }
        }
       }
      }
     }
    }
}

/// The rows of the table of the zone `America/Vancouver`.
pub open spec fn vancouver_rows() -> spec_fn(int) -> (i64, FixedTimespan) {
    |i: int| vancouver_row(i)
}

/// The table of the zone `America/Vancouver`.
pub open spec fn vancouver() -> Table {
    Table::listed(Table::row(0, -29548, 0, "LMT").1, 190, vancouver_rows())
}

/// Row `i` of the table of the zone `America/Virgin`.
pub open spec fn virgin_row(i: int) -> (i64, FixedTimespan) {
    if i < 2 {
     if i < 1 {
      Table::row(-2233035335, -14400, 0, "AST")
     } else {
      Table::row(-873057600, -14400, 3600, "AWT")
     }
    } else {
     if i < 3 {
      Table::row(-769395600, -14400, 3600, "APT")
     } else {
      Table::row(-765399600, -14400, 0, "AST")
     }
    }
}

/// The rows of the table of the zone `America/Virgin`.
pub open spec fn virgin_rows() -> spec_fn(int) -> (i64, FixedTimespan) {
    |i: int| virgin_row(i)
}

/// The table of the zone `America/Virgin`.
pub open spec fn virgin() -> Table {
    Table::listed(Table::row(0, -15865, 0, "LMT").1, 4, virgin_rows())
}

/// Row `i` of the table of the zone `America/Whitehorse`.
pub open spec fn whitehorse_row(i: int) -> (i64, FixedTimespan) {
    if i < 46 {
     if i < 23 {
      if i < 11 {
       if i < 5 {
        if i < 2 {
         if i < 1 {
          Table::row(-2188997988, -32400, 0, "YST")
         } else {
          Table::row(-1632056400, -32400, 3600, "YDT")
         }
        } else {
         if i < 3 {
          Table::row(-1615125600, -32400, 0, "YST")
         } else {
          if i < 4 {
           Table::row(-1596978000, -32400, 3600, "YDT")
          } else {
           Table::row(-1583164800, -32400, 0, "YST")
          }
         }
        }
       } else {
        if i < 8 {
         if i < 6 {
          Table::row(-880203600, -32400, 3600, "YWT")
         } else {
          if i < 7 {
           Table::row(-769395600, -32400, 3600, "YPT")
          } else {
           Table::row(-765381600, -32400, 0, "YST")
          }
         }
        } else {
         if i < 9 {
          Table::row(-147884400, -32400, 7200, "YDDT")
         } else {
          if i < 10 {
           Table::row(-131554800, -32400, 0, "YST")
          } else {
           Table::row(-121273200, -28800, 0, "PST")
          }
         }
        }
       }
      } else {
       if i < 17 {
        if i < 14 {
         if i < 12 {
          Table::row(325677600, -28800, 3600, "PDT")
         } else {
          if i < 13 {
           Table::row(341398800, -28800, 0, "PST")
          } else {
           Table::row(357127200, -28800, 3600, "PDT")
          }
         }
        } else {
         if i < 15 {
          Table::row(372848400, -28800, 0, "PST")
         } else {
          if i < 16 {
           Table::row(388576800, -28800, 3600, "PDT")
          } else {
           Table::row(404902800, -28800, 0, "PST")
          }
         }
        }
       } else {
        if i < 20 {
         if i < 18 {
          Table::row(420026400, -28800, 3600, "PDT")
         } else {
          if i < 19 {
           Table::row(436352400, -28800, 0, "PST")
          } else {
           Table::row(452080800, -28800, 3600, "PDT")
          }
         }
        } else {
         if i < 21 {
          Table::row(467802000, -28800, 0, "PST")
         } else {
          if i < 22 {
           Table::row(483530400, -28800, 3600, "PDT")
          } else {
           Table::row(499251600, -28800, 0, "PST")
          }
         }
        }
       }
      }
     } else {
      if i < 34 {
       if i < 28 {
        if i < 25 {
         if i < 24 {
          Table::row(514980000, -28800, 3600, "PDT")
         } else {
          Table::row(530701200, -28800, 0, "PST")
         }
        } else {
         if i < 26 {
          Table::row(544615200, -28800, 3600, "PDT")
         } else {
          if i < 27 {
           Table::row(562150800, -28800, 0, "PST")
          } else {
           Table::row(576064800, -28800, 3600, "PDT")
          }
         }
        }
       } else {
        if i < 31 {
         if i < 29 {
          Table::row(594205200, -28800, 0, "PST")
         } else {
          if i < 30 {
           Table::row(607514400, -28800, 3600, "PDT")
          } else {
           Table::row(625654800, -28800, 0, "PST")
          }
         }
        } else {
         if i < 32 {
          Table::row(638964000, -28800, 3600, "PDT")
         } else {
          if i < 33 {
           Table::row(657104400, -28800, 0, "PST")
          } else {
           Table::row(671018400, -28800, 3600, "PDT")
          }
         }
        }
       }
      } else {
       if i < 40 {
        if i < 37 {
         if i < 35 {
          Table::row(688554000, -28800, 0, "PST")
         } else {
          if i < 36 {
           Table::row(702468000, -28800, 3600, "PDT")
          } else {
           Table::row(720003600, -28800, 0, "PST")
          }
         }
        } else {
         if i < 38 {
          Table::row(733917600, -28800, 3600, "PDT")
         } else {
          if i < 39 {
           Table::row(752058000, -28800, 0, "PST")
          } else {
           Table::row(765367200, -28800, 3600, "PDT")
          }
         }
        }
       } else {
        if i < 43 {
         if i < 41 {
          Table::row(783507600, -28800, 0, "PST")
         } else {
          if i < 42 {
           Table::row(796816800, -28800, 3600, "PDT")
          } else {
           Table::row(814957200, -28800, 0, "PST")
          }
         }
        } else {
         if i < 44 {
          Table::row(828871200, -28800, 3600, "PDT")
         } else {
          if i < 45 {
           Table::row(846406800, -28800, 0, "PST")
          } else {
           Table::row(860320800, -28800, 3600, "PDT")
          }
         }
        }
       }
      }
     }
    } else {
     if i < 69 {
      if i < 57 {
       if i < 51 {
        if i < 48 {
         if i < 47 {
          Table::row(877856400, -28800, 0, "PST")
         } else {
          Table::row(891770400, -28800, 3600, "PDT")
         }
        } else {
         if i < 49 {
          Table::row(909306000, -28800, 0, "PST")
         } else {
          if i < 50 {
           Table::row(923220000, -28800, 3600, "PDT")
          } else {
           Table::row(941360400, -28800, 0, "PST")
          }
         }
        }
       } else {
        if i < 54 {
         if i < 52 {
          Table::row(954669600, -28800, 3600, "PDT")
         } else {
          if i < 53 {
           Table::row(972810000, -28800, 0, "PST")
          } else {
           Table::row(986119200, -28800, 3600, "PDT")
          }
         }
        } else {
         if i < 55 {
          Table::row(1004259600, -28800, 0, "PST")
         } else {
          if i < 56 {
           Table::row(1018173600, -28800, 3600, "PDT")
          } else {
           Table::row(1035709200, -28800, 0, "PST")
          }
         }
        }
       }
      } else {
       if i < 63 {
        if i < 60 {
         if i < 58 {
          Table::row(1049623200, -28800, 3600, "PDT")
         } else {
          if i < 59 {
           Table::row(1067158800, -28800, 0, "PST")
          } else {
           Table::row(1081072800, -28800, 3600, "PDT")
          }
         }
        } else {
         if i < 61 {
          Table::row(1099213200, -28800, 0, "PST")
         } else {
          if i < 62 {
           Table::row(1112522400, -28800, 3600, "PDT")
          } else {
           Table::row(1130662800, -28800, 0, "PST")
          }
         }
        }
       } else {
        if i < 66 {
         if i < 64 {
          Table::row(1143972000, -28800, 3600, "PDT")
         } else {
          if i < 65 {
           Table::row(1162112400, -28800, 0, "PST")
          } else {
           Table::row(1173607200, -28800, 3600, "PDT")
          }
         }
        } else {
         if i < 67 {
          Table::row(1194166800, -28800, 0, "PST")
         } else {
          if i < 68 {
           Table::row(1205056800, -28800, 3600, "PDT")
          } else {
           Table::row(1225616400, -28800, 0, "PST")
          }
         }
        }
       }
      }
     } else {
      if i < 81 {
       if i < 75 {
        if i < 72 {
         if i < 70 {
          Table::row(1236506400, -28800, 3600, "PDT")
         } else {
          if i < 71 {
           Table::row(1257066000, -28800, 0, "PST")
          } else {
           Table::row(1268560800, -28800, 3600, "PDT")
          }
         }
        } else {
         if i < 73 {
          Table::row(1289120400, -28800, 0, "PST")
         } else {
          if i < 74 {
           Table::row(1300010400, -28800, 3600, "PDT")
          } else {
           Table::row(1320570000, -28800, 0, "PST")
          }
         }
        }
       } else {
        if i < 78 {
         if i < 76 {
          Table::row(1331460000, -28800, 3600, "PDT")
         } else {
          if i < 77 {
           Table::row(1352019600, -28800, 0, "PST")
          } else {
           Table::row(1362909600, -28800, 3600, "PDT")
          }
         }
        } else {
         if i < 79 {
          Table::row(1383469200, -28800, 0, "PST")
         } else {
          if i < 80 {
           Table::row(1394359200, -28800, 3600, "PDT")
          } else {
           Table::row(1414918800, -28800, 0, "PST")
          }
         }
        }
       }
      } else {
       if i < 87 {
        if i < 84 {
         if i < 82 {
          Table::row(1425808800, -28800, 3600, "PDT")
         } else {
          if i < 83 {
           Table::row(1446368400, -28800, 0, "PST")
          } else {
           Table::row(1457863200, -28800, 3600, "PDT")
          }
         }
        } else {
         if i < 85 {
          Table::row(1478422800, -28800, 0, "PST")
         } else {
          if i < 86 {
           Table::row(1489312800, -28800, 3600, "PDT")
          } else {
           Table::row(1509872400, -28800, 0, "PST")
          }
         }
        }
       } else {
        if i < 90 {
         if i < 88 {
          Table::row(1520762400, -28800, 3600, "PDT")
         } else {
          if i < 89 {
           Table::row(1541322000, -28800, 0, "PST")
          } else {
           Table::row(1552212000, -28800, 3600, "PDT")
          }
         }
        } else {
         if i < 91 {
          Table::row(1572771600, -28800, 0, "PST")
         } else {
          if i < 92 {
           Table::row(1583661600, -28800, 3600, "PDT")
          } else {
           Table::row(1604214000, -25200, 0, "MST")
          }
         }
        }
       }
      }
     }
    }
}

/// The rows of the table of the zone `America/Whitehorse`.
pub open spec fn whitehorse_rows() -> spec_fn(int) -> (i64, FixedTimespan) {
    |i: int| whitehorse_row(i)
}

/// The table of the zone `America/Whitehorse`.
pub open spec fn whitehorse() -> Table {
    Table::listed(Table::row(0, -32412, 0, "LMT").1, 93, whitehorse_rows())
}

/// Row `i` of the table of the zone `America/Winnipeg`.
pub open spec fn winnipeg_row(i: int) -> (i64, FixedTimespan) {
    if i < 93 {
     if i < 46 {
      if i < 23 {
       if i < 11 {
        if i < 5 {
         if i < 2 {
          if i < 1 {
           Table::row(-2602258284, -21600, 0, "CST")
          } else {
           Table::row(-1694368800, -21600, 3600, "CDT")
          }
         } else {
          if i < 3 {
           Table::row(-1681671600, -21600, 0, "CST")
          } else {
           if i < 4 {
            Table::row(-1632067200, -21600, 3600, "CDT")
           } else {
            Table::row(-1615136400, -21600, 0, "CST")
           }
          }
         }
        } else {
         if i < 8 {
          if i < 6 {
           Table::row(-1029686400, -21600, 3600, "CDT")
          } else {
           if i < 7 {
            Table::row(-1018198800, -21600, 0, "CST")
           } else {
            Table::row(-880214400, -21600, 3600, "CWT")
           }
          }
         } else {
          if i < 9 {
           Table::row(-769395600, -21600, 3600, "CPT")
          } else {
           if i < 10 {
            Table::row(-765392400, -21600, 0, "CST")
           } else {
            Table::row(-746035200, -21600, 3600, "CDT")
           }
          }
         }
        }
       } else {
        if i < 17 {
         if i < 14 {
          if i < 12 {
           Table::row(-732733200, -21600, 0, "CST")
          } else {
           if i < 13 {
            Table::row(-715795200, -21600, 3600, "CDT")
           } else {
            Table::row(-702493200, -21600, 0, "CST")
           }
          }
         } else {
          if i < 15 {
           Table::row(-684345600, -21600, 3600, "CDT")
          } else {
           if i < 16 {
            Table::row(-671043600, -21600, 0, "CST")
           } else {
            Table::row(-652896000, -21600, 3600, "CDT")
           }
          }
         }
        } else {
         if i < 20 {
          if i < 18 {
           Table::row(-639594000, -21600, 0, "CST")
          } else {
           if i < 19 {
            Table::row(-620755200, -21600, 3600, "CDT")
           } else {
            Table::row(-607626000, -21600, 0, "CST")
           }
          }
         } else {
          if i < 21 {
           Table::row(-589392000, -21600, 3600, "CDT")
          } else {
           if i < 22 {
            Table::row(-576090000, -21600, 0, "CST")
           } else {
            Table::row(-557942400, -21600, 3600, "CDT")
           }
          }
         }
        }
       }
      } else {
       if i < 34 {
        if i < 28 {
         if i < 25 {
          if i < 24 {
           Table::row(-544640400, -21600, 0, "CST")
          } else {
           Table::row(-526492800, -21600, 3600, "CDT")
          }
         } else {
          if i < 26 {
           Table::row(-513190800, -21600, 0, "CST")
          } else {
           if i < 27 {
            Table::row(-495043200, -21600, 3600, "CDT")
           } else {
            Table::row(-481741200, -21600, 0, "CST")
           }
          }
         }
        } else {
         if i < 31 {
          if i < 29 {
           Table::row(-463593600, -21600, 3600, "CDT")
          } else {
           if i < 30 {
            Table::row(-450291600, -21600, 0, "CST")
           } else {
            Table::row(-431539200, -21600, 3600, "CDT")
           }
          }
         } else {
          if i < 32 {
           Table::row(-418237200, -21600, 0, "CST")
          } else {
           if i < 33 {
            Table::row(-400089600, -21600, 3600, "CDT")
           } else {
            Table::row(-386787600, -21600, 0, "CST")
           }
          }
         }
        }
       } else {
        if i < 40 {
         if i < 37 {
          if i < 35 {
           Table::row(-368640000, -21600, 3600, "CDT")
          } else {
           if i < 36 {
            Table::row(-355338000, -21600, 0, "CST")
           } else {
            Table::row(-337190400, -21600, 3600, "CDT")
           }
          }
         } else {
          if i < 38 {
           Table::row(-321469200, -21600, 0, "CST")
          } else {
           if i < 39 {
            Table::row(-305740800, -21600, 3600, "CDT")
           } else {
            Table::row(-292438800, -21600, 0, "CST")
           }
          }
         }
        } else {
         if i < 43 {
          if i < 41 {
           Table::row(-210787200, -21600, 3600, "CDT")
          } else {
           if i < 42 {
            Table::row(-198090000, -21600, 0, "CST")
           } else {
            Table::row(-116438400, -21600, 3600, "CDT")
           }
          }
         } else {
          if i < 44 {
           Table::row(-100108800, -21600, 0, "CST")
          } else {
           if i < 45 {
            Table::row(-84384000, -21600, 3600, "CDT")
           } else {
            Table::row(-68659200, -21600, 0, "CST")
           }
          }
         }
        }
       }
      }
     } else {
      if i < 69 {
       if i < 57 {
        if i < 51 {
         if i < 48 {
          if i < 47 {
           Table::row(-52934400, -21600, 3600, "CDT")
          } else {
           Table::row(-37209600, -21600, 0, "CST")
          }
         } else {
          if i < 49 {
           Table::row(-21484800, -21600, 3600, "CDT")
          } else {
           if i < 50 {
            Table::row(-5760000, -21600, 0, "CST")
           } else {
            Table::row(9964800, -21600, 3600, "CDT")
           }
          }
         }
        } else {
         if i < 54 {
          if i < 52 {
           Table::row(25689600, -21600, 0, "CST")
          } else {
           if i < 53 {
            Table::row(41414400, -21600, 3600, "CDT")
           } else {
            Table::row(57744000, -21600, 0, "CST")
           }
          }
         } else {
          if i < 55 {
           Table::row(73468800, -21600, 3600, "CDT")
          } else {
           if i < 56 {
            Table::row(89193600, -21600, 0, "CST")
           } else {
            Table::row(104918400, -21600, 3600, "CDT")
           }
          }
         }
        }
       } else {
        if i < 63 {
         if i < 60 {
          if i < 58 {
           Table::row(120643200, -21600, 0, "CST")
          } else {
           if i < 59 {
            Table::row(136368000, -21600, 3600, "CDT")
           } else {
            Table::row(152092800, -21600, 0, "CST")
           }
          }
         } else {
          if i < 61 {
           Table::row(167817600, -21600, 3600, "CDT")
          } else {
           if i < 62 {
            Table::row(183542400, -21600, 0, "CST")
           } else {
            Table::row(199267200, -21600, 3600, "CDT")
           }
          }
         }
        } else {
         if i < 66 {
          if i < 64 {
           Table::row(215596800, -21600, 0, "CST")
          } else {
           if i < 65 {
            Table::row(230716800, -21600, 3600, "CDT")
           } else {
            Table::row(247046400, -21600, 0, "CST")
           }
          }
         } else {
          if i < 67 {
           Table::row(262771200, -21600, 3600, "CDT")
          } else {
           if i < 68 {
            Table::row(278496000, -21600, 0, "CST")
           } else {
            Table::row(294220800, -21600, 3600, "CDT")
           }
          }
         }
        }
       }
      } else {
       if i < 81 {
        if i < 75 {
         if i < 72 {
          if i < 70 {
           Table::row(309945600, -21600, 0, "CST")
          } else {
           if i < 71 {
            Table::row(325670400, -21600, 3600, "CDT")
           } else {
            Table::row(341395200, -21600, 0, "CST")
           }
          }
         } else {
          if i < 73 {
           Table::row(357120000, -21600, 3600, "CDT")
          } else {
           if i < 74 {
            Table::row(372844800, -21600, 0, "CST")
           } else {
            Table::row(388569600, -21600, 3600, "CDT")
           }
          }
         }
        } else {
         if i < 78 {
          if i < 76 {
           Table::row(404899200, -21600, 0, "CST")
          } else {
           if i < 77 {
            Table::row(420019200, -21600, 3600, "CDT")
           } else {
            Table::row(436348800, -21600, 0, "CST")
           }
          }
         } else {
          if i < 79 {
           Table::row(452073600, -21600, 3600, "CDT")
          } else {
           if i < 80 {
            Table::row(467798400, -21600, 0, "CST")
           } else {
            Table::row(483523200, -21600, 3600, "CDT")
           }
          }
         }
        }
       } else {
        if i < 87 {
         if i < 84 {
          if i < 82 {
           Table::row(499248000, -21600, 0, "CST")
          } else {
           if i < 83 {
            Table::row(514972800, -21600, 3600, "CDT")
           } else {
            Table::row(530697600, -21600, 0, "CST")
           }
          }
         } else {
          if i < 85 {
           Table::row(544608000, -21600, 3600, "CDT")
          } else {
           if i < 86 {
            Table::row(562147200, -21600, 0, "CST")
           } else {
            Table::row(576057600, -21600, 3600, "CDT")
           }
          }
         }
        } else {
         if i < 90 {
          if i < 88 {
           Table::row(594201600, -21600, 0, "CST")
          } else {
           if i < 89 {
            Table::row(607507200, -21600, 3600, "CDT")
           } else {
            Table::row(625651200, -21600, 0, "CST")
           }
          }
         } else {
          if i < 91 {
           Table::row(638956800, -21600, 3600, "CDT")
          } else {
           if i < 92 {
            Table::row(657100800, -21600, 0, "CST")
           } else {
            Table::row(671011200, -21600, 3600, "CDT")
           }
          }
         }
        }
       }
      }
     }
    } else {
     if i < 139 {
      if i < 116 {
       if i < 104 {
        if i < 98 {
         if i < 95 {
          if i < 94 {
           Table::row(688550400, -21600, 0, "CST")
          } else {
           Table::row(702460800, -21600, 3600, "CDT")
          }
         } else {
          if i < 96 {
           Table::row(720000000, -21600, 0, "CST")
          } else {
           if i < 97 {
            Table::row(733910400, -21600, 3600, "CDT")
           } else {
            Table::row(752054400, -21600, 0, "CST")
           }
          }
         }
        } else {
         if i < 101 {
          if i < 99 {
           Table::row(765360000, -21600, 3600, "CDT")
          } else {
           if i < 100 {
            Table::row(783504000, -21600, 0, "CST")
           } else {
            Table::row(796809600, -21600, 3600, "CDT")
           }
          }
         } else {
          if i < 102 {
           Table::row(814953600, -21600, 0, "CST")
          } else {
           if i < 103 {
            Table::row(828864000, -21600, 3600, "CDT")
           } else {
            Table::row(846403200, -21600, 0, "CST")
           }
          }
         }
        }
       } else {
        if i < 110 {
         if i < 107 {
          if i < 105 {
           Table::row(860313600, -21600, 3600, "CDT")
          } else {
           if i < 106 {
            Table::row(877852800, -21600, 0, "CST")
           } else {
            Table::row(891763200, -21600, 3600, "CDT")
           }
          }
         } else {
          if i < 108 {
           Table::row(909302400, -21600, 0, "CST")
          } else {
           if i < 109 {
            Table::row(923212800, -21600, 3600, "CDT")
           } else {
            Table::row(941356800, -21600, 0, "CST")
           }
          }
         }
        } else {
         if i < 113 {
          if i < 111 {
           Table::row(954662400, -21600, 3600, "CDT")
          } else {
           if i < 112 {
            Table::row(972806400, -21600, 0, "CST")
           } else {
            Table::row(986112000, -21600, 3600, "CDT")
           }
          }
         } else {
          if i < 114 {
           Table::row(1004256000, -21600, 0, "CST")
          } else {
           if i < 115 {
            Table::row(1018166400, -21600, 3600, "CDT")
           } else {
            Table::row(1035705600, -21600, 0, "CST")
           }
          }
         }
        }
       }
      } else {
       if i < 127 {
        if i < 121 {
         if i < 118 {
          if i < 117 {
           Table::row(1049616000, -21600, 3600, "CDT")
          } else {
           Table::row(1067155200, -21600, 0, "CST")
          }
         } else {
          if i < 119 {
           Table::row(1081065600, -21600, 3600, "CDT")
          } else {
           if i < 120 {
            Table::row(1099209600, -21600, 0, "CST")
           } else {
            Table::row(1112515200, -21600, 3600, "CDT")
           }
          }
         }
        } else {
         if i < 124 {
          if i < 122 {
           Table::row(1130659200, -21600, 0, "CST")
          } else {
           if i < 123 {
            Table::row(1143964800, -21600, 3600, "CDT")
           } else {
            Table::row(1162105200, -21600, 0, "CST")
           }
          }
         } else {
          if i < 125 {
           Table::row(1173600000, -21600, 3600, "CDT")
          } else {
           if i < 126 {
            Table::row(1194159600, -21600, 0, "CST")
           } else {
            Table::row(1205049600, -21600, 3600, "CDT")
           }
          }
         }
        }
       } else {
        if i < 133 {
         if i < 130 {
          if i < 128 {
           Table::row(1225609200, -21600, 0, "CST")
          } else {
           if i < 129 {
            Table::row(1236499200, -21600, 3600, "CDT")
           } else {
            Table::row(1257058800, -21600, 0, "CST")
           }
          }
         } else {
          if i < 131 {
           Table::row(1268553600, -21600, 3600, "CDT")
          } else {
           if i < 132 {
            Table::row(1289113200, -21600, 0, "CST")
           } else {
            Table::row(1300003200, -21600, 3600, "CDT")
           }
          }
         }
        } else {
         if i < 136 {
          if i < 134 {
           Table::row(1320562800, -21600, 0, "CST")
          } else {
           if i < 135 {
            Table::row(1331452800, -21600, 3600, "CDT")
           } else {
            Table::row(1352012400, -21600, 0, "CST")
           }
          }
         } else {
          if i < 137 {
           Table::row(1362902400, -21600, 3600, "CDT")
          } else {
           if i < 138 {
            Table::row(1383462000, -21600, 0, "CST")
           } else {
            Table::row(1394352000, -21600, 3600, "CDT")
           }
          }
         }
        }
       }
      }
     } else {
      if i < 162 {
       if i < 150 {
        if i < 144 {
         if i < 141 {
          if i < 140 {
           Table::row(1414911600, -21600, 0, "CST")
          } else {
           Table::row(1425801600, -21600, 3600, "CDT")
          }
         } else {
          if i < 142 {
           Table::row(1446361200, -21600, 0, "CST")
          } else {
           if i < 143 {
            Table::row(1457856000, -21600, 3600, "CDT")
           } else {
            Table::row(1478415600, -21600, 0, "CST")
           }
          }
         }
        } else {
         if i < 147 {
          if i < 145 {
           Table::row(1489305600, -21600, 3600, "CDT")
          } else {
           if i < 146 {
            Table::row(1509865200, -21600, 0, "CST")
           } else {
            Table::row(1520755200, -21600, 3600, "CDT")
           }
          }
         } else {
          if i < 148 {
           Table::row(1541314800, -21600, 0, "CST")
          } else {
           if i < 149 {
            Table::row(1552204800, -21600, 3600, "CDT")
           } else {
            Table::row(1572764400, -21600, 0, "CST")
           }
          }
         }
        }
       } else {
        if i < 156 {
         if i < 153 {
          if i < 151 {
           Table::row(1583654400, -21600, 3600, "CDT")
          } else {
           if i < 152 {
            Table::row(1604214000, -21600, 0, "CST")
           } else {
            Table::row(1615708800, -21600, 3600, "CDT")
           }
          }
         } else {
          if i < 154 {
           Table::row(1636268400, -21600, 0, "CST")
          } else {
           if i < 155 {
            Table::row(1647158400, -21600, 3600, "CDT")
           } else {
            Table::row(1667718000, -21600, 0, "CST")
           }
          }
         }
        } else {
         if i < 159 {
          if i < 157 {
           Table::row(1678608000, -21600, 3600, "CDT")
          } else {
           if i < 158 {
            Table::row(1699167600, -21600, 0, "CST")
           } else {
            Table::row(1710057600, -21600, 3600, "CDT")
           }
          }
         } else {
          if i < 160 {
           Table::row(1730617200, -21600, 0, "CST")
          } else {
           if i < 161 {
            Table::row(1741507200, -21600, 3600, "CDT")
           } else {
            Table::row(1762066800, -21600, 0, "CST")
           }
          }
         }
        }
       }
      } else {
       if i < 174 {
        if i < 168 {
         if i < 165 {
          if i < 163 {
           Table::row(1772956800, -21600, 3600, "CDT")
          } else {
           if i < 164 {
            Table::row(1793516400, -21600, 0, "CST")
           } else {
            Table::row(1805011200, -21600, 3600, "CDT")
           }
          }
         } else {
          if i < 166 {
           Table::row(1825570800, -21600, 0, "CST")
          } else {
           if i < 167 {
            Table::row(1836460800, -21600, 3600, "CDT")
           } else {
            Table::row(1857020400, -21600, 0, "CST")
           }
          }
         }
        } else {
         if i < 171 {
          if i < 169 {
           Table::row(1867910400, -21600, 3600, "CDT")
          } else {
           if i < 170 {
            Table::row(1888470000, -21600, 0, "CST")
           } else {
            Table::row(1899360000, -21600, 3600, "CDT")
           }
          }
         } else {
          if i < 172 {
           Table::row(1919919600, -21600, 0, "CST")
          } else {
           if i < 173 {
            Table::row(1930809600, -21600, 3600, "CDT")
           } else {
            Table::row(1951369200, -21600, 0, "CST")
           }
          }
         }
        }
       } else {
        if i < 180 {
         if i < 177 {
          if i < 175 {
           Table::row(1962864000, -21600, 3600, "CDT")
          } else {
           if i < 176 {
            Table::row(1983423600, -21600, 0, "CST")
           } else {
            Table::row(1994313600, -21600, 3600, "CDT")
           }
          }
         } else {
          if i < 178 {
           Table::row(2014873200, -21600, 0, "CST")
          } else {
           if i < 179 {
            Table::row(2025763200, -21600, 3600, "CDT")
           } else {
            Table::row(2046322800, -21600, 0, "CST")
           }
          }
         }
        } else {
         if i < 183 {
          if i < 181 {
           Table::row(2057212800, -21600, 3600, "CDT")
          } else {
           if i < 182 {
            Table::row(2077772400, -21600, 0, "CST")
           } else {
            Table::row(2088662400, -21600, 3600, "CDT")
           }
          }
         } else {
          if i < 184 {
           Table::row(2109222000, -21600, 0, "CST")
          } else {
           if i < 185 {
            Table::row(2120112000, -21600, 3600, "CDT")
           } else {
            Table::row(2140671600, -21600, 0, "CST")
           }
          }
         }
        }
       }
      }
     }
    }
}

/// The rows of the table of the zone `America/Winnipeg`.
pub open spec fn winnipeg_rows() -> spec_fn(int) -> (i64, FixedTimespan) {
    |i: int| winnipeg_row(i)
}

/// The table of the zone `America/Winnipeg`.
pub open spec fn winnipeg() -> Table {
    Table::listed(Table::row(0, -23316, 0, "LMT").1, 186, winnipeg_rows())
}

/// Row `i` of the table of the zone `America/Yakutat`.
pub open spec fn yakutat_row(i: int) -> (i64, FixedTimespan) {
    if i < 72 {
     if i < 36 {
      if i < 18 {
       if i < 9 {
        if i < 4 {
         if i < 2 {
          if i < 1 {
           Table::row(-3225223727, -33535, 0, "LMT")
          } else {
           Table::row(-2188953665, -32400, 0, "YST")
          }
         } else {
          if i < 3 {
           Table::row(-880203600, -32400, 3600, "YWT")
          } else {
           Table::row(-769395600, -32400, 3600, "YPT")
          }
         }
        } else {
         if i < 6 {
          if i < 5 {
           Table::row(-765381600, -32400, 0, "YST")
          } else {
           Table::row(-21474000, -32400, 3600, "YDT")
          }
         } else {
          if i < 7 {
           Table::row(-5752800, -32400, 0, "YST")
          } else {
           if i < 8 {
            Table::row(9975600, -32400, 3600, "YDT")
           } else {
            Table::row(25696800, -32400, 0, "YST")
           }
          }
         }
        }
       } else {
        if i < 13 {
         if i < 11 {
          if i < 10 {
           Table::row(41425200, -32400, 3600, "YDT")
          } else {
           Table::row(57751200, -32400, 0, "YST")
          }
         } else {
          if i < 12 {
           Table::row(73479600, -32400, 3600, "YDT")
          } else {
           Table::row(89200800, -32400, 0, "YST")
          }
         }
        } else {
         if i < 15 {
          if i < 14 {
           Table::row(104929200, -32400, 3600, "YDT")
          } else {
           Table::row(120650400, -32400, 0, "YST")
          }
         } else {
          if i < 16 {
           Table::row(126702000, -32400, 3600, "YDT")
          } else {
           if i < 17 {
            Table::row(152100000, -32400, 0, "YST")
           } else {
            Table::row(162385200, -32400, 3600, "YDT")
           }
          }
         }
        }
       }
      } else {
       if i < 27 {
        if i < 22 {
         if i < 20 {
          if i < 19 {
           Table::row(183549600, -32400, 0, "YST")
          } else {
           Table::row(199278000, -32400, 3600, "YDT")
          }
         } else {
          if i < 21 {
           Table::row(215604000, -32400, 0, "YST")
          } else {
           Table::row(230727600, -32400, 3600, "YDT")
          }
         }
        } else {
         if i < 24 {
          if i < 23 {
           Table::row(247053600, -32400, 0, "YST")
          } else {
           Table::row(262782000, -32400, 3600, "YDT")
          }
         } else {
          if i < 25 {
           Table::row(278503200, -32400, 0, "YST")
          } else {
           if i < 26 {
            Table::row(294231600, -32400, 3600, "YDT")
           } else {
            Table::row(309952800, -32400, 0, "YST")
           }
          }
         }
        }
       } else {
        if i < 31 {
         if i < 29 {
          if i < 28 {
           Table::row(325681200, -32400, 3600, "YDT")
          } else {
           Table::row(341402400, -32400, 0, "YST")
          }
         } else {
          if i < 30 {
           Table::row(357130800, -32400, 3600, "YDT")
          } else {
           Table::row(372852000, -32400, 0, "YST")
          }
         }
        } else {
         if i < 33 {
          if i < 32 {
           Table::row(388580400, -32400, 3600, "YDT")
          } else {
           Table::row(404906400, -32400, 0, "YST")
          }
         } else {
          if i < 34 {
           Table::row(420030000, -32400, 3600, "YDT")
          } else {
           if i < 35 {
            Table::row(436356000, -32400, 0, "YST")
           } else {
            Table::row(439030800, -32400, 0, "AKST")
           }
          }
         }
        }
       }
      }
     } else {
      if i < 54 {
       if i < 45 {
        if i < 40 {
         if i < 38 {
          if i < 37 {
           Table::row(452084400, -32400, 3600, "AKDT")
          } else {
           Table::row(467805600, -32400, 0, "AKST")
          }
         } else {
          if i < 39 {
           Table::row(483534000, -32400, 3600, "AKDT")
          } else {
           Table::row(499255200, -32400, 0, "AKST")
          }
         }
        } else {
         if i < 42 {
          if i < 41 {
           Table::row(514983600, -32400, 3600, "AKDT")
          } else {
           Table::row(530704800, -32400, 0, "AKST")
          }
         } else {
          if i < 43 {
           Table::row(544618800, -32400, 3600, "AKDT")
          } else {
           if i < 44 {
            Table::row(562154400, -32400, 0, "AKST")
           } else {
            Table::row(576068400, -32400, 3600, "AKDT")
           }
          }
         }
        }
       } else {
        if i < 49 {
         if i < 47 {
          if i < 46 {
           Table::row(594208800, -32400, 0, "AKST")
          } else {
           Table::row(607518000, -32400, 3600, "AKDT")
          }
         } else {
          if i < 48 {
           Table::row(625658400, -32400, 0, "AKST")
          } else {
           Table::row(638967600, -32400, 3600, "AKDT")
          }
         }
        } else {
         if i < 51 {
          if i < 50 {
           Table::row(657108000, -32400, 0, "AKST")
          } else {
           Table::row(671022000, -32400, 3600, "AKDT")
          }
         } else {
          if i < 52 {
           Table::row(688557600, -32400, 0, "AKST")
          } else {
           if i < 53 {
            Table::row(702471600, -32400, 3600, "AKDT")
           } else {
            Table::row(720007200, -32400, 0, "AKST")
           }
          }
         }
        }
       }
      } else {
       if i < 63 {
        if i < 58 {
         if i < 56 {
          if i < 55 {
           Table::row(733921200, -32400, 3600, "AKDT")
          } else {
           Table::row(752061600, -32400, 0, "AKST")
          }
         } else {
          if i < 57 {
           Table::row(765370800, -32400, 3600, "AKDT")
          } else {
           Table::row(783511200, -32400, 0, "AKST")
          }
         }
        } else {
         if i < 60 {
          if i < 59 {
           Table::row(796820400, -32400, 3600, "AKDT")
          } else {
           Table::row(814960800, -32400, 0, "AKST")
          }
         } else {
          if i < 61 {
           Table::row(828874800, -32400, 3600, "AKDT")
          } else {
           if i < 62 {
            Table::row(846410400, -32400, 0, "AKST")
           } else {
            Table::row(860324400, -32400, 3600, "AKDT")
           }
          }
         }
        }
       } else {
        if i < 67 {
         if i < 65 {
          if i < 64 {
           Table::row(877860000, -32400, 0, "AKST")
          } else {
           Table::row(891774000, -32400, 3600, "AKDT")
          }
         } else {
          if i < 66 {
           Table::row(909309600, -32400, 0, "AKST")
          } else {
           Table::row(923223600, -32400, 3600, "AKDT")
          }
         }
        } else {
         if i < 69 {
          if i < 68 {
           Table::row(941364000, -32400, 0, "AKST")
          } else {
           Table::row(954673200, -32400, 3600, "AKDT")
          }
         } else {
          if i < 70 {
           Table::row(972813600, -32400, 0, "AKST")
          } else {
           if i < 71 {
            Table::row(986122800, -32400, 3600, "AKDT")
           } else {
            Table::row(1004263200, -32400, 0, "AKST")
           }
          }
         }
        }
       }
      }
     }
    } else {
     if i < 108 {
      if i < 90 {
       if i < 81 {
        if i < 76 {
         if i < 74 {
          if i < 73 {
           Table::row(1018177200, -32400, 3600, "AKDT")
          } else {
           Table::row(1035712800, -32400, 0, "AKST")
          }
         } else {
          if i < 75 {
           Table::row(1049626800, -32400, 3600, "AKDT")
          } else {
           Table::row(1067162400, -32400, 0, "AKST")
          }
         }
        } else {
         if i < 78 {
          if i < 77 {
           Table::row(1081076400, -32400, 3600, "AKDT")
          } else {
           Table::row(1099216800, -32400, 0, "AKST")
          }
         } else {
          if i < 79 {
           Table::row(1112526000, -32400, 3600, "AKDT")
          } else {
           if i < 80 {
            Table::row(1130666400, -32400, 0, "AKST")
           } else {
            Table::row(1143975600, -32400, 3600, "AKDT")
           }
          }
         }
        }
       } else {
        if i < 85 {
         if i < 83 {
          if i < 82 {
           Table::row(1162116000, -32400, 0, "AKST")
          } else {
           Table::row(1173610800, -32400, 3600, "AKDT")
          }
         } else {
          if i < 84 {
           Table::row(1194170400, -32400, 0, "AKST")
          } else {
           Table::row(1205060400, -32400, 3600, "AKDT")
          }
         }
        } else {
         if i < 87 {
          if i < 86 {
           Table::row(1225620000, -32400, 0, "AKST")
          } else {
           Table::row(1236510000, -32400, 3600, "AKDT")
          }
         } else {
          if i < 88 {
           Table::row(1257069600, -32400, 0, "AKST")
          } else {
           if i < 89 {
            Table::row(1268564400, -32400, 3600, "AKDT")
           } else {
            Table::row(1289124000, -32400, 0, "AKST")
           }
          }
         }
        }
       }
      } else {
       if i < 99 {
        if i < 94 {
         if i < 92 {
          if i < 91 {
           Table::row(1300014000, -32400, 3600, "AKDT")
          } else {
           Table::row(1320573600, -32400, 0, "AKST")
          }
         } else {
          if i < 93 {
           Table::row(1331463600, -32400, 3600, "AKDT")
          } else {
           Table::row(1352023200, -32400, 0, "AKST")
          }
         }
        } else {
         if i < 96 {
          if i < 95 {
           Table::row(1362913200, -32400, 3600, "AKDT")
          } else {
           Table::row(1383472800, -32400, 0, "AKST")
          }
         } else {
          if i < 97 {
           Table::row(1394362800, -32400, 3600, "AKDT")
          } else {
           if i < 98 {
            Table::row(1414922400, -32400, 0, "AKST")
           } else {
            Table::row(1425812400, -32400, 3600, "AKDT")
           }
          }
         }
        }
       } else {
        if i < 103 {
         if i < 101 {
          if i < 100 {
           Table::row(1446372000, -32400, 0, "AKST")
          } else {
           Table::row(1457866800, -32400, 3600, "AKDT")
          }
         } else {
          if i < 102 {
           Table::row(1478426400, -32400, 0, "AKST")
          } else {
           Table::row(1489316400, -32400, 3600, "AKDT")
          }
         }
        } else {
         if i < 105 {
          if i < 104 {
           Table::row(1509876000, -32400, 0, "AKST")
          } else {
           Table::row(1520766000, -32400, 3600, "AKDT")
          }
         } else {
          if i < 106 {
           Table::row(1541325600, -32400, 0, "AKST")
          } else {
           if i < 107 {
            Table::row(1552215600, -32400, 3600, "AKDT")
           } else {
            Table::row(1572775200, -32400, 0, "AKST")
           }
          }
         }
        }
       }
      }
     } else {
      if i < 126 {
       if i < 117 {
        if i < 112 {
         if i < 110 {
          if i < 109 {
           Table::row(1583665200, -32400, 3600, "AKDT")
          } else {
           Table::row(1604224800, -32400, 0, "AKST")
          }
         } else {
          if i < 111 {
           Table::row(1615719600, -32400, 3600, "AKDT")
          } else {
           Table::row(1636279200, -32400, 0, "AKST")
          }
         }
        } else {
         if i < 114 {
          if i < 113 {
           Table::row(1647169200, -32400, 3600, "AKDT")
          } else {
           Table::row(1667728800, -32400, 0, "AKST")
          }
         } else {
          if i < 115 {
           Table::row(1678618800, -32400, 3600, "AKDT")
          } else {
           if i < 116 {
            Table::row(1699178400, -32400, 0, "AKST")
           } else {
            Table::row(1710068400, -32400, 3600, "AKDT")
           }
          }
         }
        }
       } else {
        if i < 121 {
         if i < 119 {
          if i < 118 {
           Table::row(1730628000, -32400, 0, "AKST")
          } else {
           Table::row(1741518000, -32400, 3600, "AKDT")
          }
         } else {
          if i < 120 {
           Table::row(1762077600, -32400, 0, "AKST")
          } else {
           Table::row(1772967600, -32400, 3600, "AKDT")
          }
         }
        } else {
         if i < 123 {
          if i < 122 {
           Table::row(1793527200, -32400, 0, "AKST")
          } else {
           Table::row(1805022000, -32400, 3600, "AKDT")
          }
         } else {
          if i < 124 {
           Table::row(1825581600, -32400, 0, "AKST")
          } else {
           if i < 125 {
            Table::row(1836471600, -32400, 3600, "AKDT")
           } else {
            Table::row(1857031200, -32400, 0, "AKST")
           }
          }
         }
        }
       }
      } else {
       if i < 135 {
        if i < 130 {
         if i < 128 {
          if i < 127 {
           Table::row(1867921200, -32400, 3600, "AKDT")
          } else {
           Table::row(1888480800, -32400, 0, "AKST")
          }
         } else {
          if i < 129 {
           Table::row(1899370800, -32400, 3600, "AKDT")
          } else {
           Table::row(1919930400, -32400, 0, "AKST")
          }
         }
        } else {
         if i < 132 {
          if i < 131 {
           Table::row(1930820400, -32400, 3600, "AKDT")
          } else {
           Table::row(1951380000, -32400, 0, "AKST")
          }
         } else {
          if i < 133 {
           Table::row(1962874800, -32400, 3600, "AKDT")
          } else {
           if i < 134 {
            Table::row(1983434400, -32400, 0, "AKST")
           } else {
            Table::row(1994324400, -32400, 3600, "AKDT")
           }
          }
         }
        }
       } else {
        if i < 139 {
         if i < 137 {
          if i < 136 {
           Table::row(2014884000, -32400, 0, "AKST")
          } else {
           Table::row(2025774000, -32400, 3600, "AKDT")
          }
         } else {
          if i < 138 {
           Table::row(2046333600, -32400, 0, "AKST")
          } else {
           Table::row(2057223600, -32400, 3600, "AKDT")
          }
         }
        } else {
         if i < 141 {
          if i < 140 {
           Table::row(2077783200, -32400, 0, "AKST")
          } else {
           Table::row(2088673200, -32400, 3600, "AKDT")
          }
         } else {
          if i < 142 {
           Table::row(2109232800, -32400, 0, "AKST")
          } else {
           if i < 143 {
            Table::row(2120122800, -32400, 3600, "AKDT")
           } else {
            Table::row(2140682400, -32400, 0, "AKST")
           }
          }
         }
        }
       }
      }
     }
    }
}

/// The rows of the table of the zone `America/Yakutat`.
pub open spec fn yakutat_rows() -> spec_fn(int) -> (i64, FixedTimespan) {
    |i: int| yakutat_row(i)
}

/// The table of the zone `America/Yakutat`.
pub open spec fn yakutat() -> Table {
    Table::listed(Table::row(0, 52865, 0, "LMT").1, 144, yakutat_rows())
}

/// Row `i` of the table of the zone `America/Yellowknife`.
pub open spec fn yellowknife_row(i: int) -> (i64, FixedTimespan) {
    if i < 75 {
     if i < 37 {
      if i < 18 {
       if i < 9 {
        if i < 4 {
         if i < 2 {
          if i < 1 {
           Table::row(-1998663968, -25200, 0, "MST")
          } else {
           Table::row(-1632063600, -25200, 3600, "MDT")
          }
         } else {
          if i < 3 {
           Table::row(-1615132800, -25200, 0, "MST")
          } else {
           Table::row(-1600614000, -25200, 3600, "MDT")
          }
         }
        } else {
         if i < 6 {
          if i < 5 {
           Table::row(-1596816000, -25200, 0, "MST")
          } else {
           Table::row(-1567954800, -25200, 3600, "MDT")
          }
         } else {
          if i < 7 {
           Table::row(-1551628800, -25200, 0, "MST")
          } else {
           if i < 8 {
            Table::row(-1536505200, -25200, 3600, "MDT")
           } else {
            Table::row(-1523203200, -25200, 0, "MST")
           }
          }
         }
        }
       } else {
        if i < 13 {
         if i < 11 {
          if i < 10 {
           Table::row(-1504450800, -25200, 3600, "MDT")
          } else {
           Table::row(-1491753600, -25200, 0, "MST")
          }
         } else {
          if i < 12 {
           Table::row(-1473001200, -25200, 3600, "MDT")
          } else {
           Table::row(-1459699200, -25200, 0, "MST")
          }
         }
        } else {
         if i < 15 {
          if i < 14 {
           Table::row(-880210800, -25200, 3600, "MWT")
          } else {
           Table::row(-769395600, -25200, 3600, "MPT")
          }
         } else {
          if i < 16 {
           Table::row(-765388800, -25200, 0, "MST")
          } else {
           if i < 17 {
            Table::row(-715791600, -25200, 3600, "MDT")
           } else {
            Table::row(-702489600, -25200, 0, "MST")
           }
          }
         }
        }
       }
      } else {
       if i < 27 {
        if i < 22 {
         if i < 20 {
          if i < 19 {
           Table::row(73472400, -25200, 3600, "MDT")
          } else {
           Table::row(89193600, -25200, 0, "MST")
          }
         } else {
          if i < 21 {
           Table::row(104922000, -25200, 3600, "MDT")
          } else {
           Table::row(120643200, -25200, 0, "MST")
          }
         }
        } else {
         if i < 24 {
          if i < 23 {
           Table::row(136371600, -25200, 3600, "MDT")
          } else {
           Table::row(152092800, -25200, 0, "MST")
          }
         } else {
          if i < 25 {
           Table::row(167821200, -25200, 3600, "MDT")
          } else {
           if i < 26 {
            Table::row(183542400, -25200, 0, "MST")
           } else {
            Table::row(199270800, -25200, 3600, "MDT")
           }
          }
         }
        }
       } else {
        if i < 32 {
         if i < 29 {
          if i < 28 {
           Table::row(215596800, -25200, 0, "MST")
          } else {
           Table::row(230720400, -25200, 3600, "MDT")
          }
         } else {
          if i < 30 {
           Table::row(247046400, -25200, 0, "MST")
          } else {
           if i < 31 {
            Table::row(262774800, -25200, 3600, "MDT")
           } else {
            Table::row(278496000, -25200, 0, "MST")
           }
          }
         }
        } else {
         if i < 34 {
          if i < 33 {
           Table::row(294224400, -25200, 3600, "MDT")
          } else {
           Table::row(309945600, -25200, 0, "MST")
          }
         } else {
          if i < 35 {
           Table::row(325674000, -25200, 3600, "MDT")
          } else {
           if i < 36 {
            Table::row(341395200, -25200, 0, "MST")
           } else {
            Table::row(357123600, -25200, 3600, "MDT")
           }
          }
         }
        }
       }
      }
     } else {
      if i < 56 {
       if i < 46 {
        if i < 41 {
         if i < 39 {
          if i < 38 {
           Table::row(372844800, -25200, 0, "MST")
          } else {
           Table::row(388573200, -25200, 3600, "MDT")
          }
         } else {
          if i < 40 {
           Table::row(404899200, -25200, 0, "MST")
          } else {
           Table::row(420022800, -25200, 3600, "MDT")
          }
         }
        } else {
         if i < 43 {
          if i < 42 {
           Table::row(436348800, -25200, 0, "MST")
          } else {
           Table::row(452077200, -25200, 3600, "MDT")
          }
         } else {
          if i < 44 {
           Table::row(467798400, -25200, 0, "MST")
          } else {
           if i < 45 {
            Table::row(483526800, -25200, 3600, "MDT")
           } else {
            Table::row(499248000, -25200, 0, "MST")
           }
          }
         }
        }
       } else {
        if i < 51 {
         if i < 48 {
          if i < 47 {
           Table::row(514976400, -25200, 3600, "MDT")
          } else {
           Table::row(530697600, -25200, 0, "MST")
          }
         } else {
          if i < 49 {
           Table::row(544611600, -25200, 3600, "MDT")
          } else {
           if i < 50 {
            Table::row(562147200, -25200, 0, "MST")
           } else {
            Table::row(576061200, -25200, 3600, "MDT")
           }
          }
         }
        } else {
         if i < 53 {
          if i < 52 {
           Table::row(594201600, -25200, 0, "MST")
          } else {
           Table::row(607510800, -25200, 3600, "MDT")
          }
         } else {
          if i < 54 {
           Table::row(625651200, -25200, 0, "MST")
          } else {
           if i < 55 {
            Table::row(638960400, -25200, 3600, "MDT")
           } else {
            Table::row(657100800, -25200, 0, "MST")
           }
          }
         }
        }
       }
      } else {
       if i < 65 {
        if i < 60 {
         if i < 58 {
          if i < 57 {
           Table::row(671014800, -25200, 3600, "MDT")
          } else {
           Table::row(688550400, -25200, 0, "MST")
          }
         } else {
          if i < 59 {
           Table::row(702464400, -25200, 3600, "MDT")
          } else {
           Table::row(720000000, -25200, 0, "MST")
          }
         }
        } else {
         if i < 62 {
          if i < 61 {
           Table::row(733914000, -25200, 3600, "MDT")
          } else {
           Table::row(752054400, -25200, 0, "MST")
          }
         } else {
          if i < 63 {
           Table::row(765363600, -25200, 3600, "MDT")
          } else {
           if i < 64 {
            Table::row(783504000, -25200, 0, "MST")
           } else {
            Table::row(796813200, -25200, 3600, "MDT")
           }
          }
         }
        }
       } else {
        if i < 70 {
         if i < 67 {
          if i < 66 {
           Table::row(814953600, -25200, 0, "MST")
          } else {
           Table::row(828867600, -25200, 3600, "MDT")
          }
         } else {
          if i < 68 {
           Table::row(846403200, -25200, 0, "MST")
          } else {
           if i < 69 {
            Table::row(860317200, -25200, 3600, "MDT")
           } else {
            Table::row(877852800, -25200, 0, "MST")
           }
          }
         }
        } else {
         if i < 72 {
          if i < 71 {
           Table::row(891766800, -25200, 3600, "MDT")
          } else {
           Table::row(909302400, -25200, 0, "MST")
          }
         } else {
          if i < 73 {
           Table::row(923216400, -25200, 3600, "MDT")
          } else {
           if i < 74 {
            Table::row(941356800, -25200, 0, "MST")
           } else {
            Table::row(954666000, -25200, 3600, "MDT")
           }
          }
         }
        }
       }
      }
     }
    } else {
     if i < 112 {
      if i < 93 {
       if i < 84 {
        if i < 79 {
         if i < 77 {
          if i < 76 {
           Table::row(972806400, -25200, 0, "MST")
          } else {
           Table::row(986115600, -25200, 3600, "MDT")
          }
         } else {
          if i < 78 {
           Table::row(1004256000, -25200, 0, "MST")
          } else {
           Table::row(1018170000, -25200, 3600, "MDT")
          }
         }
        } else {
         if i < 81 {
          if i < 80 {
           Table::row(1035705600, -25200, 0, "MST")
          } else {
           Table::row(1049619600, -25200, 3600, "MDT")
          }
         } else {
          if i < 82 {
           Table::row(1067155200, -25200, 0, "MST")
          } else {
           if i < 83 {
            Table::row(1081069200, -25200, 3600, "MDT")
           } else {
            Table::row(1099209600, -25200, 0, "MST")
           }
          }
         }
        }
       } else {
        if i < 88 {
         if i < 86 {
          if i < 85 {
           Table::row(1112518800, -25200, 3600, "MDT")
          } else {
           Table::row(1130659200, -25200, 0, "MST")
          }
         } else {
          if i < 87 {
           Table::row(1143968400, -25200, 3600, "MDT")
          } else {
           Table::row(1162108800, -25200, 0, "MST")
          }
         }
        } else {
         if i < 90 {
          if i < 89 {
           Table::row(1173603600, -25200, 3600, "MDT")
          } else {
           Table::row(1194163200, -25200, 0, "MST")
          }
         } else {
          if i < 91 {
           Table::row(1205053200, -25200, 3600, "MDT")
          } else {
           if i < 92 {
            Table::row(1225612800, -25200, 0, "MST")
           } else {
            Table::row(1236502800, -25200, 3600, "MDT")
           }
          }
         }
        }
       }
      } else {
       if i < 102 {
        if i < 97 {
         if i < 95 {
          if i < 94 {
           Table::row(1257062400, -25200, 0, "MST")
          } else {
           Table::row(1268557200, -25200, 3600, "MDT")
          }
         } else {
          if i < 96 {
           Table::row(1289116800, -25200, 0, "MST")
          } else {
           Table::row(1300006800, -25200, 3600, "MDT")
          }
         }
        } else {
         if i < 99 {
          if i < 98 {
           Table::row(1320566400, -25200, 0, "MST")
          } else {
           Table::row(1331456400, -25200, 3600, "MDT")
          }
         } else {
          if i < 100 {
           Table::row(1352016000, -25200, 0, "MST")
          } else {
           if i < 101 {
            Table::row(1362906000, -25200, 3600, "MDT")
           } else {
            Table::row(1383465600, -25200, 0, "MST")
           }
          }
         }
        }
       } else {
        if i < 107 {
         if i < 104 {
          if i < 103 {
           Table::row(1394355600, -25200, 3600, "MDT")
          } else {
           Table::row(1414915200, -25200, 0, "MST")
          }
         } else {
          if i < 105 {
           Table::row(1425805200, -25200, 3600, "MDT")
          } else {
           if i < 106 {
            Table::row(1446364800, -25200, 0, "MST")
           } else {
            Table::row(1457859600, -25200, 3600, "MDT")
           }
          }
         }
        } else {
         if i < 109 {
          if i < 108 {
           Table::row(1478419200, -25200, 0, "MST")
          } else {
           Table::row(1489309200, -25200, 3600, "MDT")
          }
         } else {
          if i < 110 {
           Table::row(1509868800, -25200, 0, "MST")
          } else {
           if i < 111 {
            Table::row(1520758800, -25200, 3600, "MDT")
           } else {
            Table::row(1541318400, -25200, 0, "MST")
           }
          }
         }
        }
       }
      }
     } else {
      if i < 131 {
       if i < 121 {
        if i < 116 {
         if i < 114 {
          if i < 113 {
           Table::row(1552208400, -25200, 3600, "MDT")
          } else {
           Table::row(1572768000, -25200, 0, "MST")
          }
         } else {
          if i < 115 {
           Table::row(1583658000, -25200, 3600, "MDT")
          } else {
           Table::row(1604217600, -25200, 0, "MST")
          }
         }
        } else {
         if i < 118 {
          if i < 117 {
           Table::row(1615712400, -25200, 3600, "MDT")
          } else {
           Table::row(1636272000, -25200, 0, "MST")
          }
         } else {
          if i < 119 {
           Table::row(1647162000, -25200, 3600, "MDT")
          } else {
           if i < 120 {
            Table::row(1667721600, -25200, 0, "MST")
           } else {
            Table::row(1678611600, -25200, 3600, "MDT")
           }
          }
         }
        }
       } else {
        if i < 126 {
         if i < 123 {
          if i < 122 {
           Table::row(1699171200, -25200, 0, "MST")
          } else {
           Table::row(1710061200, -25200, 3600, "MDT")
          }
         } else {
          if i < 124 {
           Table::row(1730620800, -25200, 0, "MST")
          } else {
           if i < 125 {
            Table::row(1741510800, -25200, 3600, "MDT")
           } else {
            Table::row(1762070400, -25200, 0, "MST")
           }
          }
         }
        } else {
         if i < 128 {
          if i < 127 {
           Table::row(1772960400, -25200, 3600, "MDT")
          } else {
           Table::row(1793520000, -25200, 0, "MST")
          }
         } else {
          if i < 129 {
           Table::row(1805014800, -25200, 3600, "MDT")
          } else {
           if i < 130 {
            Table::row(1825574400, -25200, 0, "MST")
           } else {
            Table::row(1836464400, -25200, 3600, "MDT")
           }
          }
         }
        }
       }
      } else {
       if i < 140 {
        if i < 135 {
         if i < 133 {
          if i < 132 {
           Table::row(1857024000, -25200, 0, "MST")
          } else {
           Table::row(1867914000, -25200, 3600, "MDT")
          }
         } else {
          if i < 134 {
           Table::row(1888473600, -25200, 0, "MST")
          } else {
           Table::row(1899363600, -25200, 3600, "MDT")
          }
         }
        } else {
         if i < 137 {
          if i < 136 {
           Table::row(1919923200, -25200, 0, "MST")
          } else {
           Table::row(1930813200, -25200, 3600, "MDT")
          }
         } else {
          if i < 138 {
           Table::row(1951372800, -25200, 0, "MST")
          } else {
           if i < 139 {
            Table::row(1962867600, -25200, 3600, "MDT")
           } else {
            Table::row(1983427200, -25200, 0, "MST")
           }
          }
         }
        }
       } else {
        if i < 145 {
         if i < 142 {
          if i < 141 {
           Table::row(1994317200, -25200, 3600, "MDT")
          } else {
           Table::row(2014876800, -25200, 0, "MST")
          }
         } else {
          if i < 143 {
           Table::row(2025766800, -25200, 3600, "MDT")
          } else {
           if i < 144 {
            Table::row(2046326400, -25200, 0, "MST")
           } else {
            Table::row(2057216400, -25200, 3600, "MDT")
           }
          }
         }
        } else {
         if i < 147 {
          if i < 146 {
           Table::row(2077776000, -25200, 0, "MST")
          } else {
           Table::row(2088666000, -25200, 3600, "MDT")
          }
         } else {
          if i < 148 {
           Table::row(2109225600, -25200, 0, "MST")
          } else {
           if i < 149 {
            Table::row(2120115600, -25200, 3600, "MDT")
           } else {
            Table::row(2140675200, -25200, 0, "MST")
           }
          }
         }
        }
       }
      }
     }
    }
}

/// The rows of the table of the zone `America/Yellowknife`.
pub open spec fn yellowknife_rows() -> spec_fn(int) -> (i64, FixedTimespan) {
    |i: int| yellowknife_row(i)
}

/// The table of the zone `America/Yellowknife`.
pub open spec fn yellowknife() -> Table {
    Table::listed(Table::row(0, -27232, 0, "LMT").1, 150, yellowknife_rows())
}

} // verus!
