//! The tables of the zones of the United States, under their older names.

use crate::timezone_impl::{FixedTimespan, Table};
use vstd::prelude::*;

verus! {

/// Row `i` of the table of the zone `US/Alaska`.
pub open spec fn alaska_row(i: int) -> (i64, FixedTimespan) {
    if i < 72 {
     if i < 36 {
      if i < 18 {
       if i < 9 {
        if i < 4 {
         if i < 2 {
          if i < 1 {
           Table::row(-3225223727, -35976, 0, "LMT")
          } else {
           Table::row(-2188951224, -36000, 0, "AST")
          }
         } else {
          if i < 3 {
           Table::row(-880200000, -36000, 3600, "AWT")
          } else {
           Table::row(-769395600, -36000, 3600, "APT")
          }
         }
        } else {
         if i < 6 {
          if i < 5 {
           Table::row(-765378000, -36000, 0, "AST")
          } else {
           Table::row(-86882400, -36000, 0, "AHST")
          }
         } else {
          if i < 7 {
           Table::row(-21470400, -36000, 3600, "AHDT")
          } else {
           if i < 8 {
            Table::row(-5749200, -36000, 0, "AHST")
           } else {
            Table::row(9979200, -36000, 3600, "AHDT")
           }
          }
         }
        }
       } else {
        if i < 13 {
         if i < 11 {
          if i < 10 {
           Table::row(25700400, -36000, 0, "AHST")
          } else {
           Table::row(41428800, -36000, 3600, "AHDT")
          }
         } else {
          if i < 12 {
           Table::row(57754800, -36000, 0, "AHST")
          } else {
           Table::row(73483200, -36000, 3600, "AHDT")
          }
         }
        } else {
         if i < 15 {
          if i < 14 {
           Table::row(89204400, -36000, 0, "AHST")
          } else {
           Table::row(104932800, -36000, 3600, "AHDT")
          }
         } else {
          if i < 16 {
           Table::row(120654000, -36000, 0, "AHST")
          } else {
           if i < 17 {
            Table::row(126705600, -36000, 3600, "AHDT")
           } else {
            Table::row(152103600, -36000, 0, "AHST")
           }
          }
         }
        }
       }
      } else {
       if i < 27 {
        if i < 22 {
         if i < 20 {
          if i < 19 {
           Table::row(162388800, -36000, 3600, "AHDT")
          } else {
           Table::row(183553200, -36000, 0, "AHST")
          }
         } else {
          if i < 21 {
           Table::row(199281600, -36000, 3600, "AHDT")
          } else {
           Table::row(215607600, -36000, 0, "AHST")
          }
         }
        } else {
         if i < 24 {
          if i < 23 {
           Table::row(230731200, -36000, 3600, "AHDT")
          } else {
           Table::row(247057200, -36000, 0, "AHST")
          }
         } else {
          if i < 25 {
           Table::row(262785600, -36000, 3600, "AHDT")
          } else {
           if i < 26 {
            Table::row(278506800, -36000, 0, "AHST")
           } else {
            Table::row(294235200, -36000, 3600, "AHDT")
           }
          }
         }
        }
       } else {
        if i < 31 {
         if i < 29 {
          if i < 28 {
           Table::row(309956400, -36000, 0, "AHST")
          } else {
           Table::row(325684800, -36000, 3600, "AHDT")
          }
         } else {
          if i < 30 {
           Table::row(341406000, -36000, 0, "AHST")
          } else {
           Table::row(357134400, -36000, 3600, "AHDT")
          }
         }
        } else {
         if i < 33 {
          if i < 32 {
           Table::row(372855600, -36000, 0, "AHST")
          } else {
           Table::row(388584000, -36000, 3600, "AHDT")
          }
         } else {
          if i < 34 {
           Table::row(404910000, -36000, 0, "AHST")
          } else {
           if i < 35 {
            Table::row(420033600, -36000, 3600, "AHDT")
           } else {
            Table::row(436359600, -32400, 0, "YST")
           }
          }
         }
        }
       }
      }
     } else {
      if i < 54 {
       if i < 45 {
        if i < 40 {
         if i < 38 {
          if i < 37 {
           Table::row(439030800, -32400, 0, "AKST")
          } else {
           Table::row(452084400, -32400, 3600, "AKDT")
          }
         } else {
          if i < 39 {
           Table::row(467805600, -32400, 0, "AKST")
          } else {
           Table::row(483534000, -32400, 3600, "AKDT")
          }
         }
        } else {
         if i < 42 {
          if i < 41 {
           Table::row(499255200, -32400, 0, "AKST")
          } else {
           Table::row(514983600, -32400, 3600, "AKDT")
          }
         } else {
          if i < 43 {
           Table::row(530704800, -32400, 0, "AKST")
          } else {
           if i < 44 {
            Table::row(544618800, -32400, 3600, "AKDT")
           } else {
            Table::row(562154400, -32400, 0, "AKST")
           }
          }
         }
        }
       } else {
        if i < 49 {
         if i < 47 {
          if i < 46 {
           Table::row(576068400, -32400, 3600, "AKDT")
          } else {
           Table::row(594208800, -32400, 0, "AKST")
          }
         } else {
          if i < 48 {
           Table::row(607518000, -32400, 3600, "AKDT")
          } else {
           Table::row(625658400, -32400, 0, "AKST")
          }
         }
        } else {
         if i < 51 {
          if i < 50 {
           Table::row(638967600, -32400, 3600, "AKDT")
          } else {
           Table::row(657108000, -32400, 0, "AKST")
          }
         } else {
          if i < 52 {
           Table::row(671022000, -32400, 3600, "AKDT")
          } else {
           if i < 53 {
            Table::row(688557600, -32400, 0, "AKST")
           } else {
            Table::row(702471600, -32400, 3600, "AKDT")
           }
          }
         }
        }
       }
      } else {
       if i < 63 {
        if i < 58 {
         if i < 56 {
          if i < 55 {
           Table::row(720007200, -32400, 0, "AKST")
          } else {
           Table::row(733921200, -32400, 3600, "AKDT")
          }
         } else {
          if i < 57 {
           Table::row(752061600, -32400, 0, "AKST")
          } else {
           Table::row(765370800, -32400, 3600, "AKDT")
          }
         }
        } else {
         if i < 60 {
          if i < 59 {
           Table::row(783511200, -32400, 0, "AKST")
          } else {
           Table::row(796820400, -32400, 3600, "AKDT")
          }
         } else {
          if i < 61 {
           Table::row(814960800, -32400, 0, "AKST")
          } else {
           if i < 62 {
            Table::row(828874800, -32400, 3600, "AKDT")
           } else {
            Table::row(846410400, -32400, 0, "AKST")
           }
          }
         }
        }
       } else {
        if i < 67 {
         if i < 65 {
          if i < 64 {
           Table::row(860324400, -32400, 3600, "AKDT")
          } else {
           Table::row(877860000, -32400, 0, "AKST")
          }
         } else {
          if i < 66 {
           Table::row(891774000, -32400, 3600, "AKDT")
          } else {
           Table::row(909309600, -32400, 0, "AKST")
          }
         }
        } else {
         if i < 69 {
          if i < 68 {
           Table::row(923223600, -32400, 3600, "AKDT")
          } else {
           Table::row(941364000, -32400, 0, "AKST")
          }
         } else {
          if i < 70 {
           Table::row(954673200, -32400, 3600, "AKDT")
          } else {
           if i < 71 {
            Table::row(972813600, -32400, 0, "AKST")
           } else {
            Table::row(986122800, -32400, 3600, "AKDT")
           }
          }
         }
        }
       }
      }
     }
    } else {
     if i < 108 {
      if i < 90 {
       if i < 81 {
        if i < 76 {
         if i < 74 {
          if i < 73 {
           Table::row(1004263200, -32400, 0, "AKST")
          } else {
           Table::row(1018177200, -32400, 3600, "AKDT")
          }
         } else {
          if i < 75 {
           Table::row(1035712800, -32400, 0, "AKST")
          } else {
           Table::row(1049626800, -32400, 3600, "AKDT")
          }
         }
        } else {
         if i < 78 {
          if i < 77 {
           Table::row(1067162400, -32400, 0, "AKST")
          } else {
           Table::row(1081076400, -32400, 3600, "AKDT")
          }
         } else {
          if i < 79 {
           Table::row(1099216800, -32400, 0, "AKST")
          } else {
           if i < 80 {
            Table::row(1112526000, -32400, 3600, "AKDT")
           } else {
            Table::row(1130666400, -32400, 0, "AKST")
           }
          }
         }
        }
       } else {
        if i < 85 {
         if i < 83 {
          if i < 82 {
           Table::row(1143975600, -32400, 3600, "AKDT")
          } else {
           Table::row(1162116000, -32400, 0, "AKST")
          }
         } else {
          if i < 84 {
           Table::row(1173610800, -32400, 3600, "AKDT")
          } else {
           Table::row(1194170400, -32400, 0, "AKST")
          }
         }
        } else {
         if i < 87 {
          if i < 86 {
           Table::row(1205060400, -32400, 3600, "AKDT")
          } else {
           Table::row(1225620000, -32400, 0, "AKST")
          }
         } else {
          if i < 88 {
           Table::row(1236510000, -32400, 3600, "AKDT")
          } else {
           if i < 89 {
            Table::row(1257069600, -32400, 0, "AKST")
           } else {
            Table::row(1268564400, -32400, 3600, "AKDT")
           }
          }
         }
        }
       }
      } else {
       if i < 99 {
        if i < 94 {
         if i < 92 {
          if i < 91 {
           Table::row(1289124000, -32400, 0, "AKST")
          } else {
           Table::row(1300014000, -32400, 3600, "AKDT")
          }
         } else {
          if i < 93 {
           Table::row(1320573600, -32400, 0, "AKST")
          } else {
           Table::row(1331463600, -32400, 3600, "AKDT")
          }
         }
        } else {
         if i < 96 {
          if i < 95 {
           Table::row(1352023200, -32400, 0, "AKST")
          } else {
           Table::row(1362913200, -32400, 3600, "AKDT")
          }
         } else {
          if i < 97 {
           Table::row(1383472800, -32400, 0, "AKST")
          } else {
           if i < 98 {
            Table::row(1394362800, -32400, 3600, "AKDT")
           } else {
            Table::row(1414922400, -32400, 0, "AKST")
           }
          }
         }
        }
       } else {
        if i < 103 {
         if i < 101 {
          if i < 100 {
           Table::row(1425812400, -32400, 3600, "AKDT")
          } else {
           Table::row(1446372000, -32400, 0, "AKST")
          }
         } else {
          if i < 102 {
           Table::row(1457866800, -32400, 3600, "AKDT")
          } else {
           Table::row(1478426400, -32400, 0, "AKST")
          }
         }
        } else {
         if i < 105 {
          if i < 104 {
           Table::row(1489316400, -32400, 3600, "AKDT")
          } else {
           Table::row(1509876000, -32400, 0, "AKST")
          }
         } else {
          if i < 106 {
           Table::row(1520766000, -32400, 3600, "AKDT")
          } else {
           if i < 107 {
            Table::row(1541325600, -32400, 0, "AKST")
           } else {
            Table::row(1552215600, -32400, 3600, "AKDT")
           }
          }
         }
        }
       }
      }
     } else {
      if i < 126 {
       if i < 117 {
        if i < 112 {
         if i < 110 {
          if i < 109 {
           Table::row(1572775200, -32400, 0, "AKST")
          } else {
           Table::row(1583665200, -32400, 3600, "AKDT")
          }
         } else {
          if i < 111 {
           Table::row(1604224800, -32400, 0, "AKST")
          } else {
           Table::row(1615719600, -32400, 3600, "AKDT")
          }
         }
        } else {
         if i < 114 {
          if i < 113 {
           Table::row(1636279200, -32400, 0, "AKST")
          } else {
           Table::row(1647169200, -32400, 3600, "AKDT")
          }
         } else {
          if i < 115 {
           Table::row(1667728800, -32400, 0, "AKST")
          } else {
           if i < 116 {
            Table::row(1678618800, -32400, 3600, "AKDT")
           } else {
            Table::row(1699178400, -32400, 0, "AKST")
           }
          }
         }
        }
       } else {
        if i < 121 {
         if i < 119 {
          if i < 118 {
           Table::row(1710068400, -32400, 3600, "AKDT")
          } else {
           Table::row(1730628000, -32400, 0, "AKST")
          }
         } else {
          if i < 120 {
           Table::row(1741518000, -32400, 3600, "AKDT")
          } else {
           Table::row(1762077600, -32400, 0, "AKST")
          }
         }
        } else {
         if i < 123 {
          if i < 122 {
           Table::row(1772967600, -32400, 3600, "AKDT")
          } else {
           Table::row(1793527200, -32400, 0, "AKST")
          }
         } else {
          if i < 124 {
           Table::row(1805022000, -32400, 3600, "AKDT")
          } else {
           if i < 125 {
            Table::row(1825581600, -32400, 0, "AKST")
           } else {
            Table::row(1836471600, -32400, 3600, "AKDT")
           }
          }
         }
        }
       }
      } else {
       if i < 135 {
        if i < 130 {
         if i < 128 {
          if i < 127 {
           Table::row(1857031200, -32400, 0, "AKST")
          } else {
           Table::row(1867921200, -32400, 3600, "AKDT")
          }
         } else {
          if i < 129 {
           Table::row(1888480800, -32400, 0, "AKST")
          } else {
           Table::row(1899370800, -32400, 3600, "AKDT")
          }
         }
        } else {
         if i < 132 {
          if i < 131 {
           Table::row(1919930400, -32400, 0, "AKST")
          } else {
           Table::row(1930820400, -32400, 3600, "AKDT")
          }
         } else {
          if i < 133 {
           Table::row(1951380000, -32400, 0, "AKST")
          } else {
           if i < 134 {
            Table::row(1962874800, -32400, 3600, "AKDT")
           } else {
            Table::row(1983434400, -32400, 0, "AKST")
           }
          }
         }
        }
       } else {
        if i < 140 {
         if i < 137 {
          if i < 136 {
           Table::row(1994324400, -32400, 3600, "AKDT")
          } else {
           Table::row(2014884000, -32400, 0, "AKST")
          }
         } else {
          if i < 138 {
           Table::row(2025774000, -32400, 3600, "AKDT")
          } else {
           if i < 139 {
            Table::row(2046333600, -32400, 0, "AKST")
           } else {
            Table::row(2057223600, -32400, 3600, "AKDT")
           }
          }
         }
        } else {
         if i < 142 {
          if i < 141 {
           Table::row(2077783200, -32400, 0, "AKST")
          } else {
           Table::row(2088673200, -32400, 3600, "AKDT")
          }
         } else {
          if i < 143 {
           Table::row(2109232800, -32400, 0, "AKST")
          } else {
           if i < 144 {
            Table::row(2120122800, -32400, 3600, "AKDT")
           } else {
            Table::row(2140682400, -32400, 0, "AKST")
           }
          }
         }
        }
       }
      }
     }
    }
}

/// The rows of the table of the zone `US/Alaska`.
pub open spec fn alaska_rows() -> spec_fn(int) -> (i64, FixedTimespan) {
    |i: int| alaska_row(i)
}

/// The table of the zone `US/Alaska`.
pub open spec fn alaska() -> Table {
    Table::listed(Table::row(0, 50424, 0, "LMT").1, 145, alaska_rows())
}

/// Row `i` of the table of the zone `US/Aleutian`.
pub open spec fn aleutian_row(i: int) -> (i64, FixedTimespan) {
    if i < 72 {
     if i < 36 {
      if i < 18 {
       if i < 9 {
        if i < 4 {
         if i < 2 {
          if i < 1 {
           Table::row(-3225223727, -42398, 0, "LMT")
          } else {
           Table::row(-2188944802, -39600, 0, "NST")
          }
         } else {
          if i < 3 {
           Table::row(-880196400, -39600, 3600, "NWT")
          } else {
           Table::row(-769395600, -39600, 3600, "NPT")
          }
         }
        } else {
         if i < 6 {
          if i < 5 {
           Table::row(-765374400, -39600, 0, "NST")
          } else {
           Table::row(-86878800, -39600, 0, "BST")
          }
         } else {
          if i < 7 {
           Table::row(-21466800, -39600, 3600, "BDT")
          } else {
           if i < 8 {
            Table::row(-5745600, -39600, 0, "BST")
           } else {
            Table::row(9982800, -39600, 3600, "BDT")
           }
          }
         }
        }
       } else {
        if i < 13 {
         if i < 11 {
          if i < 10 {
           Table::row(25704000, -39600, 0, "BST")
          } else {
           Table::row(41432400, -39600, 3600, "BDT")
          }
         } else {
          if i < 12 {
           Table::row(57758400, -39600, 0, "BST")
          } else {
           Table::row(73486800, -39600, 3600, "BDT")
          }
         }
        } else {
         if i < 15 {
          if i < 14 {
           Table::row(89208000, -39600, 0, "BST")
          } else {
           Table::row(104936400, -39600, 3600, "BDT")
          }
         } else {
          if i < 16 {
           Table::row(120657600, -39600, 0, "BST")
          } else {
           if i < 17 {
            Table::row(126709200, -39600, 3600, "BDT")
           } else {
            Table::row(152107200, -39600, 0, "BST")
           }
          }
         }
        }
       }
      } else {
       if i < 27 {
        if i < 22 {
         if i < 20 {
          if i < 19 {
           Table::row(162392400, -39600, 3600, "BDT")
          } else {
           Table::row(183556800, -39600, 0, "BST")
          }
         } else {
          if i < 21 {
           Table::row(199285200, -39600, 3600, "BDT")
          } else {
           Table::row(215611200, -39600, 0, "BST")
          }
         }
        } else {
         if i < 24 {
          if i < 23 {
           Table::row(230734800, -39600, 3600, "BDT")
          } else {
           Table::row(247060800, -39600, 0, "BST")
          }
         } else {
          if i < 25 {
           Table::row(262789200, -39600, 3600, "BDT")
          } else {
           if i < 26 {
            Table::row(278510400, -39600, 0, "BST")
           } else {
            Table::row(294238800, -39600, 3600, "BDT")
           }
          }
         }
        }
       } else {
        if i < 31 {
         if i < 29 {
          if i < 28 {
           Table::row(309960000, -39600, 0, "BST")
          } else {
           Table::row(325688400, -39600, 3600, "BDT")
          }
         } else {
          if i < 30 {
           Table::row(341409600, -39600, 0, "BST")
          } else {
           Table::row(357138000, -39600, 3600, "BDT")
          }
         }
        } else {
         if i < 33 {
          if i < 32 {
           Table::row(372859200, -39600, 0, "BST")
          } else {
           Table::row(388587600, -39600, 3600, "BDT")
          }
         } else {
          if i < 34 {
           Table::row(404913600, -39600, 0, "BST")
          } else {
           if i < 35 {
            Table::row(420037200, -39600, 3600, "BDT")
           } else {
            Table::row(436363200, -36000, 0, "AHST")
           }
          }
         }
        }
       }
      }
     } else {
      if i < 54 {
       if i < 45 {
        if i < 40 {
         if i < 38 {
          if i < 37 {
           Table::row(439034400, -36000, 0, "HST")
          } else {
           Table::row(452088000, -36000, 3600, "HDT")
          }
         } else {
          if i < 39 {
           Table::row(467809200, -36000, 0, "HST")
          } else {
           Table::row(483537600, -36000, 3600, "HDT")
          }
         }
        } else {
         if i < 42 {
          if i < 41 {
           Table::row(499258800, -36000, 0, "HST")
          } else {
           Table::row(514987200, -36000, 3600, "HDT")
          }
         } else {
          if i < 43 {
           Table::row(530708400, -36000, 0, "HST")
          } else {
           if i < 44 {
            Table::row(544622400, -36000, 3600, "HDT")
           } else {
            Table::row(562158000, -36000, 0, "HST")
           }
          }
         }
        }
       } else {
        if i < 49 {
         if i < 47 {
          if i < 46 {
           Table::row(576072000, -36000, 3600, "HDT")
          } else {
           Table::row(594212400, -36000, 0, "HST")
          }
         } else {
          if i < 48 {
           Table::row(607521600, -36000, 3600, "HDT")
          } else {
           Table::row(625662000, -36000, 0, "HST")
          }
         }
        } else {
         if i < 51 {
          if i < 50 {
           Table::row(638971200, -36000, 3600, "HDT")
          } else {
           Table::row(657111600, -36000, 0, "HST")
          }
         } else {
          if i < 52 {
           Table::row(671025600, -36000, 3600, "HDT")
          } else {
           if i < 53 {
            Table::row(688561200, -36000, 0, "HST")
           } else {
            Table::row(702475200, -36000, 3600, "HDT")
           }
          }
         }
        }
       }
      } else {
       if i < 63 {
        if i < 58 {
         if i < 56 {
          if i < 55 {
           Table::row(720010800, -36000, 0, "HST")
          } else {
           Table::row(733924800, -36000, 3600, "HDT")
          }
         } else {
          if i < 57 {
           Table::row(752065200, -36000, 0, "HST")
          } else {
           Table::row(765374400, -36000, 3600, "HDT")
          }
         }
        } else {
         if i < 60 {
          if i < 59 {
           Table::row(783514800, -36000, 0, "HST")
          } else {
           Table::row(796824000, -36000, 3600, "HDT")
          }
         } else {
          if i < 61 {
           Table::row(814964400, -36000, 0, "HST")
          } else {
           if i < 62 {
            Table::row(828878400, -36000, 3600, "HDT")
           } else {
            Table::row(846414000, -36000, 0, "HST")
           }
          }
         }
        }
       } else {
        if i < 67 {
         if i < 65 {
          if i < 64 {
           Table::row(860328000, -36000, 3600, "HDT")
          } else {
           Table::row(877863600, -36000, 0, "HST")
          }
         } else {
          if i < 66 {
           Table::row(891777600, -36000, 3600, "HDT")
          } else {
           Table::row(909313200, -36000, 0, "HST")
          }
         }
        } else {
         if i < 69 {
          if i < 68 {
           Table::row(923227200, -36000, 3600, "HDT")
          } else {
           Table::row(941367600, -36000, 0, "HST")
          }
         } else {
          if i < 70 {
           Table::row(954676800, -36000, 3600, "HDT")
          } else {
           if i < 71 {
            Table::row(972817200, -36000, 0, "HST")
           } else {
            Table::row(986126400, -36000, 3600, "HDT")
           }
          }
         }
        }
       }
      }
     }
    } else {
     if i < 108 {
      if i < 90 {
       if i < 81 {
        if i < 76 {
         if i < 74 {
          if i < 73 {
           Table::row(1004266800, -36000, 0, "HST")
          } else {
           Table::row(1018180800, -36000, 3600, "HDT")
          }
         } else {
          if i < 75 {
           Table::row(1035716400, -36000, 0, "HST")
          } else {
           Table::row(1049630400, -36000, 3600, "HDT")
          }
         }
        } else {
         if i < 78 {
          if i < 77 {
           Table::row(1067166000, -36000, 0, "HST")
          } else {
           Table::row(1081080000, -36000, 3600, "HDT")
          }
         } else {
          if i < 79 {
           Table::row(1099220400, -36000, 0, "HST")
          } else {
           if i < 80 {
            Table::row(1112529600, -36000, 3600, "HDT")
           } else {
            Table::row(1130670000, -36000, 0, "HST")
           }
          }
         }
        }
       } else {
        if i < 85 {
         if i < 83 {
          if i < 82 {
           Table::row(1143979200, -36000, 3600, "HDT")
          } else {
           Table::row(1162119600, -36000, 0, "HST")
          }
         } else {
          if i < 84 {
           Table::row(1173614400, -36000, 3600, "HDT")
          } else {
           Table::row(1194174000, -36000, 0, "HST")
          }
         }
        } else {
         if i < 87 {
          if i < 86 {
           Table::row(1205064000, -36000, 3600, "HDT")
          } else {
           Table::row(1225623600, -36000, 0, "HST")
          }
         } else {
          if i < 88 {
           Table::row(1236513600, -36000, 3600, "HDT")
          } else {
           if i < 89 {
            Table::row(1257073200, -36000, 0, "HST")
           } else {
            Table::row(1268568000, -36000, 3600, "HDT")
           }
          }
         }
        }
       }
      } else {
       if i < 99 {
        if i < 94 {
         if i < 92 {
          if i < 91 {
           Table::row(1289127600, -36000, 0, "HST")
          } else {
           Table::row(1300017600, -36000, 3600, "HDT")
          }
         } else {
          if i < 93 {
           Table::row(1320577200, -36000, 0, "HST")
          } else {
           Table::row(1331467200, -36000, 3600, "HDT")
          }
         }
        } else {
         if i < 96 {
          if i < 95 {
           Table::row(1352026800, -36000, 0, "HST")
          } else {
           Table::row(1362916800, -36000, 3600, "HDT")
          }
         } else {
          if i < 97 {
           Table::row(1383476400, -36000, 0, "HST")
          } else {
           if i < 98 {
            Table::row(1394366400, -36000, 3600, "HDT")
           } else {
            Table::row(1414926000, -36000, 0, "HST")
           }
          }
         }
        }
       } else {
        if i < 103 {
         if i < 101 {
          if i < 100 {
           Table::row(1425816000, -36000, 3600, "HDT")
          } else {
           Table::row(1446375600, -36000, 0, "HST")
          }
         } else {
          if i < 102 {
           Table::row(1457870400, -36000, 3600, "HDT")
          } else {
           Table::row(1478430000, -36000, 0, "HST")
          }
         }
        } else {
         if i < 105 {
          if i < 104 {
           Table::row(1489320000, -36000, 3600, "HDT")
          } else {
           Table::row(1509879600, -36000, 0, "HST")
          }
         } else {
          if i < 106 {
           Table::row(1520769600, -36000, 3600, "HDT")
          } else {
           if i < 107 {
            Table::row(1541329200, -36000, 0, "HST")
           } else {
            Table::row(1552219200, -36000, 3600, "HDT")
           }
          }
         }
        }
       }
      }
     } else {
      if i < 126 {
       if i < 117 {
        if i < 112 {
         if i < 110 {
          if i < 109 {
           Table::row(1572778800, -36000, 0, "HST")
          } else {
           Table::row(1583668800, -36000, 3600, "HDT")
          }
         } else {
          if i < 111 {
           Table::row(1604228400, -36000, 0, "HST")
          } else {
           Table::row(1615723200, -36000, 3600, "HDT")
          }
         }
        } else {
         if i < 114 {
          if i < 113 {
           Table::row(1636282800, -36000, 0, "HST")
          } else {
           Table::row(1647172800, -36000, 3600, "HDT")
          }
         } else {
          if i < 115 {
           Table::row(1667732400, -36000, 0, "HST")
          } else {
           if i < 116 {
            Table::row(1678622400, -36000, 3600, "HDT")
           } else {
            Table::row(1699182000, -36000, 0, "HST")
           }
          }
         }
        }
       } else {
        if i < 121 {
         if i < 119 {
          if i < 118 {
           Table::row(1710072000, -36000, 3600, "HDT")
          } else {
           Table::row(1730631600, -36000, 0, "HST")
          }
         } else {
          if i < 120 {
           Table::row(1741521600, -36000, 3600, "HDT")
          } else {
           Table::row(1762081200, -36000, 0, "HST")
          }
         }
        } else {
         if i < 123 {
          if i < 122 {
           Table::row(1772971200, -36000, 3600, "HDT")
          } else {
           Table::row(1793530800, -36000, 0, "HST")
          }
         } else {
          if i < 124 {
           Table::row(1805025600, -36000, 3600, "HDT")
          } else {
           if i < 125 {
            Table::row(1825585200, -36000, 0, "HST")
           } else {
            Table::row(1836475200, -36000, 3600, "HDT")
           }
          }
         }
        }
       }
      } else {
       if i < 135 {
        if i < 130 {
         if i < 128 {
          if i < 127 {
           Table::row(1857034800, -36000, 0, "HST")
          } else {
           Table::row(1867924800, -36000, 3600, "HDT")
          }
         } else {
          if i < 129 {
           Table::row(1888484400, -36000, 0, "HST")
          } else {
           Table::row(1899374400, -36000, 3600, "HDT")
          }
         }
        } else {
         if i < 132 {
          if i < 131 {
           Table::row(1919934000, -36000, 0, "HST")
          } else {
           Table::row(1930824000, -36000, 3600, "HDT")
          }
         } else {
          if i < 133 {
           Table::row(1951383600, -36000, 0, "HST")
          } else {
           if i < 134 {
            Table::row(1962878400, -36000, 3600, "HDT")
           } else {
            Table::row(1983438000, -36000, 0, "HST")
           }
          }
         }
        }
       } else {
        if i < 140 {
         if i < 137 {
          if i < 136 {
           Table::row(1994328000, -36000, 3600, "HDT")
          } else {
           Table::row(2014887600, -36000, 0, "HST")
          }
         } else {
          if i < 138 {
           Table::row(2025777600, -36000, 3600, "HDT")
          } else {
           if i < 139 {
            Table::row(2046337200, -36000, 0, "HST")
           } else {
            Table::row(2057227200, -36000, 3600, "HDT")
           }
          }
         }
        } else {
         if i < 142 {
          if i < 141 {
           Table::row(2077786800, -36000, 0, "HST")
          } else {
           Table::row(2088676800, -36000, 3600, "HDT")
          }
         } else {
          if i < 143 {
           Table::row(2109236400, -36000, 0, "HST")
          } else {
           if i < 144 {
            Table::row(2120126400, -36000, 3600, "HDT")
           } else {
            Table::row(2140686000, -36000, 0, "HST")
           }
          }
         }
        }
       }
      }
     }
    }
}

/// The rows of the table of the zone `US/Aleutian`.
pub open spec fn aleutian_rows() -> spec_fn(int) -> (i64, FixedTimespan) {
    |i: int| aleutian_row(i)
}

/// The table of the zone `US/Aleutian`.
pub open spec fn aleutian() -> Table {
    Table::listed(Table::row(0, 44002, 0, "LMT").1, 145, aleutian_rows())
}

/// Row `i` of the table of the zone `US/Arizona`.
pub open spec fn arizona_row(i: int) -> (i64, FixedTimespan) {
    if i < 5 {
     if i < 2 {
      if i < 1 {
       Table::row(-2717643600, -25200, 0, "MST")
      } else {
       Table::row(-1633273200, -25200, 3600, "MDT")
      }
     } else {
      if i < 3 {
       Table::row(-1615132800, -25200, 0, "MST")
      } else {
       if i < 4 {
        Table::row(-1601823600, -25200, 3600, "MDT")
       } else {
        Table::row(-1583683200, -25200, 0, "MST")
       }
      }
     }
    } else {
     if i < 8 {
      if i < 6 {
       Table::row(-880210800, -25200, 3600, "MWT")
      } else {
       if i < 7 {
        Table::row(-820519140, -25200, 0, "MST")
       } else {
        Table::row(-812653140, -25200, 3600, "MWT")
       }
      }
     } else {
      if i < 9 {
       Table::row(-796845540, -25200, 0, "MST")
      } else {
       if i < 10 {
        Table::row(-84380400, -25200, 3600, "MDT")
       } else {
        Table::row(-68659200, -25200, 0, "MST")
       }
      }
     }
    }
}

/// The rows of the table of the zone `US/Arizona`.
pub open spec fn arizona_rows() -> spec_fn(int) -> (i64, FixedTimespan) {
    |i: int| arizona_row(i)
}

/// The table of the zone `US/Arizona`.
pub open spec fn arizona() -> Table {
    Table::listed(Table::row(0, -26898, 0, "LMT").1, 11, arizona_rows())
}

/// Row `i` of the table of the zone `US/Central`.
pub open spec fn central_row(i: int) -> (i64, FixedTimespan) {
    if i < 118 {
     if i < 59 {
      if i < 29 {
       if i < 14 {
        if i < 7 {
         if i < 3 {
          if i < 1 {
           Table::row(-2717647200, -21600, 0, "CST")
          } else {
           if i < 2 {
            Table::row(-1633276800, -21600, 3600, "CDT")
           } else {
            Table::row(-1615136400, -21600, 0, "CST")
           }
          }
         } else {
          if i < 5 {
           if i < 4 {
            Table::row(-1601827200, -21600, 3600, "CDT")
           } else {
            Table::row(-1583686800, -21600, 0, "CST")
           }
          } else {
           if i < 6 {
            Table::row(-1563724800, -21600, 3600, "CDT")
           } else {
            Table::row(-1551632400, -21600, 0, "CST")
           }
          }
         }
        } else {
         if i < 10 {
          if i < 8 {
           Table::row(-1538928000, -21600, 3600, "CDT")
          } else {
           if i < 9 {
            Table::row(-1520182800, -21600, 0, "CST")
           } else {
            Table::row(-1504454400, -21600, 3600, "CDT")
           }
          }
         } else {
          if i < 12 {
           if i < 11 {
            Table::row(-1491757200, -21600, 0, "CST")
           } else {
            Table::row(-1473004800, -21600, 3600, "CDT")
           }
          } else {
           if i < 13 {
            Table::row(-1459702800, -21600, 0, "CST")
           } else {
            Table::row(-1441555200, -21600, 3600, "CDT")
           }
          }
         }
        }
       } else {
        if i < 21 {
         if i < 17 {
          if i < 15 {
           Table::row(-1428253200, -21600, 0, "CST")
          } else {
           if i < 16 {
            Table::row(-1410105600, -21600, 3600, "CDT")
           } else {
            Table::row(-1396803600, -21600, 0, "CST")
           }
          }
         } else {
          if i < 19 {
           if i < 18 {
            Table::row(-1378656000, -21600, 3600, "CDT")
           } else {
            Table::row(-1365354000, -21600, 0, "CST")
           }
          } else {
           if i < 20 {
            Table::row(-1347206400, -21600, 3600, "CDT")
           } else {
            Table::row(-1333904400, -21600, 0, "CST")
           }
          }
         }
        } else {
         if i < 25 {
          if i < 23 {
           if i < 22 {
            Table::row(-1315152000, -21600, 3600, "CDT")
           } else {
            Table::row(-1301850000, -21600, 0, "CST")
           }
          } else {
           if i < 24 {
            Table::row(-1283702400, -21600, 3600, "CDT")
           } else {
            Table::row(-1270400400, -21600, 0, "CST")
           }
          }
         } else {
          if i < 27 {
           if i < 26 {
            Table::row(-1252252800, -21600, 3600, "CDT")
           } else {
            Table::row(-1238950800, -21600, 0, "CST")
           }
          } else {
           if i < 28 {
            Table::row(-1220803200, -21600, 3600, "CDT")
           } else {
            Table::row(-1207501200, -21600, 0, "CST")
           }
          }
         }
        }
       }
      } else {
       if i < 44 {
        if i < 36 {
         if i < 32 {
          if i < 30 {
           Table::row(-1189353600, -21600, 3600, "CDT")
          } else {
           if i < 31 {
            Table::row(-1176051600, -21600, 0, "CST")
           } else {
            Table::row(-1157299200, -21600, 3600, "CDT")
           }
          }
         } else {
          if i < 34 {
           if i < 33 {
            Table::row(-1144602000, -21600, 0, "CST")
           } else {
            Table::row(-1125849600, -21600, 3600, "CDT")
           }
          } else {
           if i < 35 {
            Table::row(-1112547600, -21600, 0, "CST")
           } else {
            Table::row(-1094400000, -21600, 3600, "CDT")
           }
          }
         }
        } else {
         if i < 40 {
          if i < 38 {
           if i < 37 {
            Table::row(-1081098000, -21600, 0, "CST")
           } else {
            Table::row(-1067788800, -18000, 0, "EST")
           }
          } else {
           if i < 39 {
            Table::row(-1045414800, -21600, 0, "CST")
           } else {
            Table::row(-1031500800, -21600, 3600, "CDT")
           }
          }
         } else {
          if i < 42 {
           if i < 41 {
            Table::row(-1018198800, -21600, 0, "CST")
           } else {
            Table::row(-1000051200, -21600, 3600, "CDT")
           }
          } else {
           if i < 43 {
            Table::row(-986749200, -21600, 0, "CST")
           } else {
            Table::row(-967996800, -21600, 3600, "CDT")
           }
          }
         }
        }
       } else {
        if i < 51 {
         if i < 47 {
          if i < 45 {
           Table::row(-955299600, -21600, 0, "CST")
          } else {
           if i < 46 {
            Table::row(-936547200, -21600, 3600, "CDT")
           } else {
            Table::row(-923245200, -21600, 0, "CST")
           }
          }
         } else {
          if i < 49 {
           if i < 48 {
            Table::row(-905097600, -21600, 3600, "CDT")
           } else {
            Table::row(-891795600, -21600, 0, "CST")
           }
          } else {
           if i < 50 {
            Table::row(-880214400, -21600, 3600, "CWT")
           } else {
            Table::row(-769395600, -21600, 3600, "CPT")
           }
          }
         }
        } else {
         if i < 55 {
          if i < 53 {
           if i < 52 {
            Table::row(-765392400, -21600, 0, "CST")
           } else {
            Table::row(-747244800, -21600, 3600, "CDT")
           }
          } else {
           if i < 54 {
            Table::row(-733942800, -21600, 0, "CST")
           } else {
            Table::row(-715795200, -21600, 3600, "CDT")
           }
          }
         } else {
          if i < 57 {
           if i < 56 {
            Table::row(-702493200, -21600, 0, "CST")
           } else {
            Table::row(-684345600, -21600, 3600, "CDT")
           }
          } else {
           if i < 58 {
            Table::row(-671043600, -21600, 0, "CST")
           } else {
            Table::row(-652896000, -21600, 3600, "CDT")
           }
          }
         }
        }
       }
      }
     } else {
      if i < 88 {
       if i < 73 {
        if i < 66 {
         if i < 62 {
          if i < 60 {
           Table::row(-639594000, -21600, 0, "CST")
          } else {
           if i < 61 {
            Table::row(-620841600, -21600, 3600, "CDT")
           } else {
            Table::row(-608144400, -21600, 0, "CST")
           }
          }
         } else {
          if i < 64 {
           if i < 63 {
            Table::row(-589392000, -21600, 3600, "CDT")
           } else {
            Table::row(-576090000, -21600, 0, "CST")
           }
          } else {
           if i < 65 {
            Table::row(-557942400, -21600, 3600, "CDT")
           } else {
            Table::row(-544640400, -21600, 0, "CST")
           }
          }
         }
        } else {
         if i < 69 {
          if i < 67 {
           Table::row(-526492800, -21600, 3600, "CDT")
          } else {
           if i < 68 {
            Table::row(-513190800, -21600, 0, "CST")
           } else {
            Table::row(-495043200, -21600, 3600, "CDT")
           }
          }
         } else {
          if i < 71 {
           if i < 70 {
            Table::row(-481741200, -21600, 0, "CST")
           } else {
            Table::row(-463593600, -21600, 3600, "CDT")
           }
          } else {
           if i < 72 {
            Table::row(-447267600, -21600, 0, "CST")
           } else {
            Table::row(-431539200, -21600, 3600, "CDT")
           }
          }
         }
        }
       } else {
        if i < 80 {
         if i < 76 {
          if i < 74 {
           Table::row(-415818000, -21600, 0, "CST")
          } else {
           if i < 75 {
            Table::row(-400089600, -21600, 3600, "CDT")
           } else {
            Table::row(-384368400, -21600, 0, "CST")
           }
          }
         } else {
          if i < 78 {
           if i < 77 {
            Table::row(-368640000, -21600, 3600, "CDT")
           } else {
            Table::row(-352918800, -21600, 0, "CST")
           }
          } else {
           if i < 79 {
            Table::row(-337190400, -21600, 3600, "CDT")
           } else {
            Table::row(-321469200, -21600, 0, "CST")
           }
          }
         }
        } else {
         if i < 84 {
          if i < 82 {
           if i < 81 {
            Table::row(-305740800, -21600, 3600, "CDT")
           } else {
            Table::row(-289414800, -21600, 0, "CST")
           }
          } else {
           if i < 83 {
            Table::row(-273686400, -21600, 3600, "CDT")
           } else {
            Table::row(-257965200, -21600, 0, "CST")
           }
          }
         } else {
          if i < 86 {
           if i < 85 {
            Table::row(-242236800, -21600, 3600, "CDT")
           } else {
            Table::row(-226515600, -21600, 0, "CST")
           }
          } else {
           if i < 87 {
            Table::row(-210787200, -21600, 3600, "CDT")
           } else {
            Table::row(-195066000, -21600, 0, "CST")
           }
          }
         }
        }
       }
      } else {
       if i < 103 {
        if i < 95 {
         if i < 91 {
          if i < 89 {
           Table::row(-179337600, -21600, 3600, "CDT")
          } else {
           if i < 90 {
            Table::row(-163616400, -21600, 0, "CST")
           } else {
            Table::row(-147888000, -21600, 3600, "CDT")
           }
          }
         } else {
          if i < 93 {
           if i < 92 {
            Table::row(-131562000, -21600, 0, "CST")
           } else {
            Table::row(-116438400, -21600, 3600, "CDT")
           }
          } else {
           if i < 94 {
            Table::row(-100112400, -21600, 0, "CST")
           } else {
            Table::row(-84384000, -21600, 3600, "CDT")
           }
          }
         }
        } else {
         if i < 99 {
          if i < 97 {
           if i < 96 {
            Table::row(-68662800, -21600, 0, "CST")
           } else {
            Table::row(-52934400, -21600, 3600, "CDT")
           }
          } else {
           if i < 98 {
            Table::row(-37213200, -21600, 0, "CST")
           } else {
            Table::row(-21484800, -21600, 3600, "CDT")
           }
          }
         } else {
          if i < 101 {
           if i < 100 {
            Table::row(-5763600, -21600, 0, "CST")
           } else {
            Table::row(9964800, -21600, 3600, "CDT")
           }
          } else {
           if i < 102 {
            Table::row(25686000, -21600, 0, "CST")
           } else {
            Table::row(41414400, -21600, 3600, "CDT")
           }
          }
         }
        }
       } else {
        if i < 110 {
         if i < 106 {
          if i < 104 {
           Table::row(57740400, -21600, 0, "CST")
          } else {
           if i < 105 {
            Table::row(73468800, -21600, 3600, "CDT")
           } else {
            Table::row(89190000, -21600, 0, "CST")
           }
          }
         } else {
          if i < 108 {
           if i < 107 {
            Table::row(104918400, -21600, 3600, "CDT")
           } else {
            Table::row(120639600, -21600, 0, "CST")
           }
          } else {
           if i < 109 {
            Table::row(126691200, -21600, 3600, "CDT")
           } else {
            Table::row(152089200, -21600, 0, "CST")
           }
          }
         }
        } else {
         if i < 114 {
          if i < 112 {
           if i < 111 {
            Table::row(162374400, -21600, 3600, "CDT")
           } else {
            Table::row(183538800, -21600, 0, "CST")
           }
          } else {
           if i < 113 {
            Table::row(199267200, -21600, 3600, "CDT")
           } else {
            Table::row(215593200, -21600, 0, "CST")
           }
          }
         } else {
          if i < 116 {
           if i < 115 {
            Table::row(230716800, -21600, 3600, "CDT")
           } else {
            Table::row(247042800, -21600, 0, "CST")
           }
          } else {
           if i < 117 {
            Table::row(262771200, -21600, 3600, "CDT")
           } else {
            Table::row(278492400, -21600, 0, "CST")
           }
          }
         }
        }
       }
      }
     }
    } else {
     if i < 177 {
      if i < 147 {
       if i < 132 {
        if i < 125 {
         if i < 121 {
          if i < 119 {
           Table::row(294220800, -21600, 3600, "CDT")
          } else {
           if i < 120 {
            Table::row(309942000, -21600, 0, "CST")
           } else {
            Table::row(325670400, -21600, 3600, "CDT")
           }
          }
         } else {
          if i < 123 {
           if i < 122 {
            Table::row(341391600, -21600, 0, "CST")
           } else {
            Table::row(357120000, -21600, 3600, "CDT")
           }
          } else {
           if i < 124 {
            Table::row(372841200, -21600, 0, "CST")
           } else {
            Table::row(388569600, -21600, 3600, "CDT")
           }
          }
         }
        } else {
         if i < 128 {
          if i < 126 {
           Table::row(404895600, -21600, 0, "CST")
          } else {
           if i < 127 {
            Table::row(420019200, -21600, 3600, "CDT")
           } else {
            Table::row(436345200, -21600, 0, "CST")
           }
          }
         } else {
          if i < 130 {
           if i < 129 {
            Table::row(452073600, -21600, 3600, "CDT")
           } else {
            Table::row(467794800, -21600, 0, "CST")
           }
          } else {
           if i < 131 {
            Table::row(483523200, -21600, 3600, "CDT")
           } else {
            Table::row(499244400, -21600, 0, "CST")
           }
          }
         }
        }
       } else {
        if i < 139 {
         if i < 135 {
          if i < 133 {
           Table::row(514972800, -21600, 3600, "CDT")
          } else {
           if i < 134 {
            Table::row(530694000, -21600, 0, "CST")
           } else {
            Table::row(544608000, -21600, 3600, "CDT")
           }
          }
         } else {
          if i < 137 {
           if i < 136 {
            Table::row(562143600, -21600, 0, "CST")
           } else {
            Table::row(576057600, -21600, 3600, "CDT")
           }
          } else {
           if i < 138 {
            Table::row(594198000, -21600, 0, "CST")
           } else {
            Table::row(607507200, -21600, 3600, "CDT")
           }
          }
         }
        } else {
         if i < 143 {
          if i < 141 {
           if i < 140 {
            Table::row(625647600, -21600, 0, "CST")
           } else {
            Table::row(638956800, -21600, 3600, "CDT")
           }
          } else {
           if i < 142 {
            Table::row(657097200, -21600, 0, "CST")
           } else {
            Table::row(671011200, -21600, 3600, "CDT")
           }
          }
         } else {
          if i < 145 {
           if i < 144 {
            Table::row(688546800, -21600, 0, "CST")
           } else {
            Table::row(702460800, -21600, 3600, "CDT")
           }
          } else {
           if i < 146 {
            Table::row(719996400, -21600, 0, "CST")
           } else {
            Table::row(733910400, -21600, 3600, "CDT")
           }
          }
         }
        }
       }
      } else {
       if i < 162 {
        if i < 154 {
         if i < 150 {
          if i < 148 {
           Table::row(752050800, -21600, 0, "CST")
          } else {
           if i < 149 {
            Table::row(765360000, -21600, 3600, "CDT")
           } else {
            Table::row(783500400, -21600, 0, "CST")
           }
          }
         } else {
          if i < 152 {
           if i < 151 {
            Table::row(796809600, -21600, 3600, "CDT")
           } else {
            Table::row(814950000, -21600, 0, "CST")
           }
          } else {
           if i < 153 {
            Table::row(828864000, -21600, 3600, "CDT")
           } else {
            Table::row(846399600, -21600, 0, "CST")
           }
          }
         }
        } else {
         if i < 158 {
          if i < 156 {
           if i < 155 {
            Table::row(860313600, -21600, 3600, "CDT")
           } else {
            Table::row(877849200, -21600, 0, "CST")
           }
          } else {
           if i < 157 {
            Table::row(891763200, -21600, 3600, "CDT")
           } else {
            Table::row(909298800, -21600, 0, "CST")
           }
          }
         } else {
          if i < 160 {
           if i < 159 {
            Table::row(923212800, -21600, 3600, "CDT")
           } else {
            Table::row(941353200, -21600, 0, "CST")
           }
          } else {
           if i < 161 {
            Table::row(954662400, -21600, 3600, "CDT")
           } else {
            Table::row(972802800, -21600, 0, "CST")
           }
          }
         }
        }
       } else {
        if i < 169 {
         if i < 165 {
          if i < 163 {
           Table::row(986112000, -21600, 3600, "CDT")
          } else {
           if i < 164 {
            Table::row(1004252400, -21600, 0, "CST")
           } else {
            Table::row(1018166400, -21600, 3600, "CDT")
           }
          }
         } else {
          if i < 167 {
           if i < 166 {
            Table::row(1035702000, -21600, 0, "CST")
           } else {
            Table::row(1049616000, -21600, 3600, "CDT")
           }
          } else {
           if i < 168 {
            Table::row(1067151600, -21600, 0, "CST")
           } else {
            Table::row(1081065600, -21600, 3600, "CDT")
           }
          }
         }
        } else {
         if i < 173 {
          if i < 171 {
           if i < 170 {
            Table::row(1099206000, -21600, 0, "CST")
           } else {
            Table::row(1112515200, -21600, 3600, "CDT")
           }
          } else {
           if i < 172 {
            Table::row(1130655600, -21600, 0, "CST")
           } else {
            Table::row(1143964800, -21600, 3600, "CDT")
           }
          }
         } else {
          if i < 175 {
           if i < 174 {
            Table::row(1162105200, -21600, 0, "CST")
           } else {
            Table::row(1173600000, -21600, 3600, "CDT")
           }
          } else {
           if i < 176 {
            Table::row(1194159600, -21600, 0, "CST")
           } else {
            Table::row(1205049600, -21600, 3600, "CDT")
           }
          }
         }
        }
       }
      }
     } else {
      if i < 206 {
       if i < 191 {
        if i < 184 {
         if i < 180 {
          if i < 178 {
           Table::row(1225609200, -21600, 0, "CST")
          } else {
           if i < 179 {
            Table::row(1236499200, -21600, 3600, "CDT")
           } else {
            Table::row(1257058800, -21600, 0, "CST")
           }
          }
         } else {
          if i < 182 {
           if i < 181 {
            Table::row(1268553600, -21600, 3600, "CDT")
           } else {
            Table::row(1289113200, -21600, 0, "CST")
           }
          } else {
           if i < 183 {
            Table::row(1300003200, -21600, 3600, "CDT")
           } else {
            Table::row(1320562800, -21600, 0, "CST")
           }
          }
         }
        } else {
         if i < 187 {
          if i < 185 {
           Table::row(1331452800, -21600, 3600, "CDT")
          } else {
           if i < 186 {
            Table::row(1352012400, -21600, 0, "CST")
           } else {
            Table::row(1362902400, -21600, 3600, "CDT")
           }
          }
         } else {
          if i < 189 {
           if i < 188 {
            Table::row(1383462000, -21600, 0, "CST")
           } else {
            Table::row(1394352000, -21600, 3600, "CDT")
           }
          } else {
           if i < 190 {
            Table::row(1414911600, -21600, 0, "CST")
           } else {
            Table::row(1425801600, -21600, 3600, "CDT")
           }
          }
         }
        }
       } else {
        if i < 198 {
         if i < 194 {
          if i < 192 {
           Table::row(1446361200, -21600, 0, "CST")
          } else {
           if i < 193 {
            Table::row(1457856000, -21600, 3600, "CDT")
           } else {
            Table::row(1478415600, -21600, 0, "CST")
           }
          }
         } else {
          if i < 196 {
           if i < 195 {
            Table::row(1489305600, -21600, 3600, "CDT")
           } else {
            Table::row(1509865200, -21600, 0, "CST")
           }
          } else {
           if i < 197 {
            Table::row(1520755200, -21600, 3600, "CDT")
           } else {
            Table::row(1541314800, -21600, 0, "CST")
           }
          }
         }
        } else {
         if i < 202 {
          if i < 200 {
           if i < 199 {
            Table::row(1552204800, -21600, 3600, "CDT")
           } else {
            Table::row(1572764400, -21600, 0, "CST")
           }
          } else {
           if i < 201 {
            Table::row(1583654400, -21600, 3600, "CDT")
           } else {
            Table::row(1604214000, -21600, 0, "CST")
           }
          }
         } else {
          if i < 204 {
           if i < 203 {
            Table::row(1615708800, -21600, 3600, "CDT")
           } else {
            Table::row(1636268400, -21600, 0, "CST")
           }
          } else {
           if i < 205 {
            Table::row(1647158400, -21600, 3600, "CDT")
           } else {
            Table::row(1667718000, -21600, 0, "CST")
           }
          }
         }
        }
       }
      } else {
       if i < 221 {
        if i < 213 {
         if i < 209 {
          if i < 207 {
           Table::row(1678608000, -21600, 3600, "CDT")
          } else {
           if i < 208 {
            Table::row(1699167600, -21600, 0, "CST")
           } else {
            Table::row(1710057600, -21600, 3600, "CDT")
           }
          }
         } else {
          if i < 211 {
           if i < 210 {
            Table::row(1730617200, -21600, 0, "CST")
           } else {
            Table::row(1741507200, -21600, 3600, "CDT")
           }
          } else {
           if i < 212 {
            Table::row(1762066800, -21600, 0, "CST")
           } else {
            Table::row(1772956800, -21600, 3600, "CDT")
           }
          }
         }
        } else {
         if i < 217 {
          if i < 215 {
           if i < 214 {
            Table::row(1793516400, -21600, 0, "CST")
           } else {
            Table::row(1805011200, -21600, 3600, "CDT")
           }
          } else {
           if i < 216 {
            Table::row(1825570800, -21600, 0, "CST")
           } else {
            Table::row(1836460800, -21600, 3600, "CDT")
           }
          }
         } else {
          if i < 219 {
           if i < 218 {
            Table::row(1857020400, -21600, 0, "CST")
           } else {
            Table::row(1867910400, -21600, 3600, "CDT")
           }
          } else {
           if i < 220 {
            Table::row(1888470000, -21600, 0, "CST")
           } else {
            Table::row(1899360000, -21600, 3600, "CDT")
           }
          }
         }
        }
       } else {
        if i < 228 {
         if i < 224 {
          if i < 222 {
           Table::row(1919919600, -21600, 0, "CST")
          } else {
           if i < 223 {
            Table::row(1930809600, -21600, 3600, "CDT")
           } else {
            Table::row(1951369200, -21600, 0, "CST")
           }
          }
         } else {
          if i < 226 {
           if i < 225 {
            Table::row(1962864000, -21600, 3600, "CDT")
           } else {
            Table::row(1983423600, -21600, 0, "CST")
           }
          } else {
           if i < 227 {
            Table::row(1994313600, -21600, 3600, "CDT")
           } else {
            Table::row(2014873200, -21600, 0, "CST")
           }
          }
         }
        } else {
         if i < 232 {
          if i < 230 {
           if i < 229 {
            Table::row(2025763200, -21600, 3600, "CDT")
           } else {
            Table::row(2046322800, -21600, 0, "CST")
           }
          } else {
           if i < 231 {
            Table::row(2057212800, -21600, 3600, "CDT")
           } else {
            Table::row(2077772400, -21600, 0, "CST")
           }
          }
         } else {
          if i < 234 {
           if i < 233 {
            Table::row(2088662400, -21600, 3600, "CDT")
           } else {
            Table::row(2109222000, -21600, 0, "CST")
           }
          } else {
           if i < 235 {
            Table::row(2120112000, -21600, 3600, "CDT")
           } else {
            Table::row(2140671600, -21600, 0, "CST")
           }
          }
         }
        }
       }
      }
     }
    }
}

/// The rows of the table of the zone `US/Central`.
pub open spec fn central_rows() -> spec_fn(int) -> (i64, FixedTimespan) {
    |i: int| central_row(i)
}

/// The table of the zone `US/Central`.
pub open spec fn central() -> Table {
    Table::listed(Table::row(0, -21036, 0, "LMT").1, 236, central_rows())
}

/// Row `i` of the table of the zone `US/East-Indiana`.
pub open spec fn east_indiana_row(i: int) -> (i64, FixedTimespan) {
    if i < 49 {
     if i < 24 {
      if i < 12 {
       if i < 6 {
        if i < 3 {
         if i < 1 {
          Table::row(-2717647200, -21600, 0, "CST")
         } else {
          if i < 2 {
           Table::row(-1633276800, -21600, 3600, "CDT")
          } else {
           Table::row(-1615136400, -21600, 0, "CST")
          }
         }
        } else {
         if i < 4 {
          Table::row(-1601827200, -21600, 3600, "CDT")
         } else {
          if i < 5 {
           Table::row(-1583686800, -21600, 0, "CST")
          } else {
           Table::row(-900259200, -21600, 3600, "CDT")
          }
         }
        }
       } else {
        if i < 9 {
         if i < 7 {
          Table::row(-891795600, -21600, 0, "CST")
         } else {
          if i < 8 {
           Table::row(-880214400, -21600, 3600, "CWT")
          } else {
           Table::row(-769395600, -21600, 3600, "CPT")
          }
         }
        } else {
         if i < 10 {
          Table::row(-765392400, -21600, 0, "CST")
         } else {
          if i < 11 {
           Table::row(-747244800, -21600, 3600, "CDT")
          } else {
           Table::row(-733942800, -21600, 0, "CST")
          }
         }
        }
       }
      } else {
       if i < 18 {
        if i < 15 {
         if i < 13 {
          Table::row(-715795200, -21600, 3600, "CDT")
         } else {
          if i < 14 {
           Table::row(-702493200, -21600, 0, "CST")
          } else {
           Table::row(-684345600, -21600, 3600, "CDT")
          }
         }
        } else {
         if i < 16 {
          Table::row(-671043600, -21600, 0, "CST")
         } else {
          if i < 17 {
           Table::row(-652896000, -21600, 3600, "CDT")
          } else {
           Table::row(-639594000, -21600, 0, "CST")
          }
         }
        }
       } else {
        if i < 21 {
         if i < 19 {
          Table::row(-620841600, -21600, 3600, "CDT")
         } else {
          if i < 20 {
           Table::row(-608144400, -21600, 0, "CST")
          } else {
           Table::row(-589392000, -21600, 3600, "CDT")
          }
         }
        } else {
         if i < 22 {
          Table::row(-576090000, -21600, 0, "CST")
         } else {
          if i < 23 {
           Table::row(-557942400, -21600, 3600, "CDT")
          } else {
           Table::row(-544640400, -21600, 0, "CST")
          }
         }
        }
       }
      }
     } else {
      if i < 36 {
       if i < 30 {
        if i < 27 {
         if i < 25 {
          Table::row(-526492800, -21600, 3600, "CDT")
         } else {
          if i < 26 {
           Table::row(-513190800, -21600, 0, "CST")
          } else {
           Table::row(-495043200, -21600, 3600, "CDT")
          }
         }
        } else {
         if i < 28 {
          Table::row(-481741200, -21600, 0, "CST")
         } else {
          if i < 29 {
           Table::row(-463593600, -18000, 0, "EST")
          } else {
           Table::row(-386787600, -21600, 0, "CST")
          }
         }
        }
       } else {
        if i < 33 {
         if i < 31 {
          Table::row(-368640000, -18000, 0, "EST")
         } else {
          if i < 32 {
           Table::row(-21488400, -18000, 3600, "EDT")
          } else {
           Table::row(-5767200, -18000, 0, "EST")
          }
         }
        } else {
         if i < 34 {
          Table::row(9961200, -18000, 3600, "EDT")
         } else {
          if i < 35 {
           Table::row(25682400, -18000, 0, "EST")
          } else {
           Table::row(1143961200, -18000, 3600, "EDT")
          }
         }
        }
       }
      } else {
       if i < 42 {
        if i < 39 {
         if i < 37 {
          Table::row(1162101600, -18000, 0, "EST")
         } else {
          if i < 38 {
           Table::row(1173596400, -18000, 3600, "EDT")
          } else {
           Table::row(1194156000, -18000, 0, "EST")
          }
         }
        } else {
         if i < 40 {
          Table::row(1205046000, -18000, 3600, "EDT")
         } else {
          if i < 41 {
           Table::row(1225605600, -18000, 0, "EST")
          } else {
           Table::row(1236495600, -18000, 3600, "EDT")
          }
         }
        }
       } else {
        if i < 45 {
         if i < 43 {
          Table::row(1257055200, -18000, 0, "EST")
         } else {
          if i < 44 {
           Table::row(1268550000, -18000, 3600, "EDT")
          } else {
           Table::row(1289109600, -18000, 0, "EST")
          }
         }
        } else {
         if i < 47 {
          if i < 46 {
           Table::row(1299999600, -18000, 3600, "EDT")
          } else {
           Table::row(1320559200, -18000, 0, "EST")
          }
         } else {
          if i < 48 {
           Table::row(1331449200, -18000, 3600, "EDT")
          } else {
           Table::row(1352008800, -18000, 0, "EST")
          }
         }
        }
       }
      }
     }
    } else {
     if i < 74 {
      if i < 61 {
       if i < 55 {
        if i < 52 {
         if i < 50 {
          Table::row(1362898800, -18000, 3600, "EDT")
         } else {
          if i < 51 {
           Table::row(1383458400, -18000, 0, "EST")
          } else {
           Table::row(1394348400, -18000, 3600, "EDT")
          }
         }
        } else {
         if i < 53 {
          Table::row(1414908000, -18000, 0, "EST")
         } else {
          if i < 54 {
           Table::row(1425798000, -18000, 3600, "EDT")
          } else {
           Table::row(1446357600, -18000, 0, "EST")
          }
         }
        }
       } else {
        if i < 58 {
         if i < 56 {
          Table::row(1457852400, -18000, 3600, "EDT")
         } else {
          if i < 57 {
           Table::row(1478412000, -18000, 0, "EST")
          } else {
           Table::row(1489302000, -18000, 3600, "EDT")
          }
         }
        } else {
         if i < 59 {
          Table::row(1509861600, -18000, 0, "EST")
         } else {
          if i < 60 {
           Table::row(1520751600, -18000, 3600, "EDT")
          } else {
           Table::row(1541311200, -18000, 0, "EST")
          }
         }
        }
       }
      } else {
       if i < 67 {
        if i < 64 {
         if i < 62 {
          Table::row(1552201200, -18000, 3600, "EDT")
         } else {
          if i < 63 {
           Table::row(1572760800, -18000, 0, "EST")
          } else {
           Table::row(1583650800, -18000, 3600, "EDT")
          }
         }
        } else {
         if i < 65 {
          Table::row(1604210400, -18000, 0, "EST")
         } else {
          if i < 66 {
           Table::row(1615705200, -18000, 3600, "EDT")
          } else {
           Table::row(1636264800, -18000, 0, "EST")
          }
         }
        }
       } else {
        if i < 70 {
         if i < 68 {
          Table::row(1647154800, -18000, 3600, "EDT")
         } else {
          if i < 69 {
           Table::row(1667714400, -18000, 0, "EST")
          } else {
           Table::row(1678604400, -18000, 3600, "EDT")
          }
         }
        } else {
         if i < 72 {
          if i < 71 {
           Table::row(1699164000, -18000, 0, "EST")
          } else {
           Table::row(1710054000, -18000, 3600, "EDT")
          }
         } else {
          if i < 73 {
           Table::row(1730613600, -18000, 0, "EST")
          } else {
           Table::row(1741503600, -18000, 3600, "EDT")
          }
         }
        }
       }
      }
     } else {
      if i < 86 {
       if i < 80 {
        if i < 77 {
         if i < 75 {
          Table::row(1762063200, -18000, 0, "EST")
         } else {
          if i < 76 {
           Table::row(1772953200, -18000, 3600, "EDT")
          } else {
           Table::row(1793512800, -18000, 0, "EST")
          }
         }
        } else {
         if i < 78 {
          Table::row(1805007600, -18000, 3600, "EDT")
         } else {
          if i < 79 {
           Table::row(1825567200, -18000, 0, "EST")
          } else {
           Table::row(1836457200, -18000, 3600, "EDT")
          }
         }
        }
       } else {
        if i < 83 {
         if i < 81 {
          Table::row(1857016800, -18000, 0, "EST")
         } else {
          if i < 82 {
           Table::row(1867906800, -18000, 3600, "EDT")
          } else {
           Table::row(1888466400, -18000, 0, "EST")
          }
         }
        } else {
         if i < 84 {
          Table::row(1899356400, -18000, 3600, "EDT")
         } else {
          if i < 85 {
           Table::row(1919916000, -18000, 0, "EST")
          } else {
           Table::row(1930806000, -18000, 3600, "EDT")
          }
         }
        }
       }
      } else {
       if i < 92 {
        if i < 89 {
         if i < 87 {
          Table::row(1951365600, -18000, 0, "EST")
         } else {
          if i < 88 {
           Table::row(1962860400, -18000, 3600, "EDT")
          } else {
           Table::row(1983420000, -18000, 0, "EST")
          }
         }
        } else {
         if i < 90 {
          Table::row(1994310000, -18000, 3600, "EDT")
         } else {
          if i < 91 {
           Table::row(2014869600, -18000, 0, "EST")
          } else {
           Table::row(2025759600, -18000, 3600, "EDT")
          }
         }
        }
       } else {
        if i < 95 {
         if i < 93 {
          Table::row(2046319200, -18000, 0, "EST")
         } else {
          if i < 94 {
           Table::row(2057209200, -18000, 3600, "EDT")
          } else {
           Table::row(2077768800, -18000, 0, "EST")
          }
         }
        } else {
         if i < 97 {
          if i < 96 {
           Table::row(2088658800, -18000, 3600, "EDT")
          } else {
           Table::row(2109218400, -18000, 0, "EST")
          }
         } else {
          if i < 98 {
           Table::row(2120108400, -18000, 3600, "EDT")
          } else {
           Table::row(2140668000, -18000, 0, "EST")
          }
         }
        }
       }
      }
     }
    }
}

/// The rows of the table of the zone `US/East-Indiana`.
pub open spec fn east_indiana_rows() -> spec_fn(int) -> (i64, FixedTimespan) {
    |i: int| east_indiana_row(i)
}

/// The table of the zone `US/East-Indiana`.
pub open spec fn east_indiana() -> Table {
    Table::listed(Table::row(0, -20678, 0, "LMT").1, 99, east_indiana_rows())
}

/// Row `i` of the table of the zone `US/Eastern`.
pub open spec fn eastern_row(i: int) -> (i64, FixedTimespan) {
    if i < 118 {
     if i < 59 {
      if i < 29 {
       if i < 14 {
        if i < 7 {
         if i < 3 {
          if i < 1 {
           Table::row(-2717650800, -18000, 0, "EST")
          } else {
           if i < 2 {
            Table::row(-1633280400, -18000, 3600, "EDT")
           } else {
            Table::row(-1615140000, -18000, 0, "EST")
           }
          }
         } else {
          if i < 5 {
           if i < 4 {
            Table::row(-1601830800, -18000, 3600, "EDT")
           } else {
            Table::row(-1583690400, -18000, 0, "EST")
           }
          } else {
           if i < 6 {
            Table::row(-1570381200, -18000, 3600, "EDT")
           } else {
            Table::row(-1551636000, -18000, 0, "EST")
           }
          }
         }
        } else {
         if i < 10 {
          if i < 8 {
           Table::row(-1536512400, -18000, 3600, "EDT")
          } else {
           if i < 9 {
            Table::row(-1523210400, -18000, 0, "EST")
           } else {
            Table::row(-1504458000, -18000, 3600, "EDT")
           }
          }
         } else {
          if i < 12 {
           if i < 11 {
            Table::row(-1491760800, -18000, 0, "EST")
           } else {
            Table::row(-1473008400, -18000, 3600, "EDT")
           }
          } else {
           if i < 13 {
            Table::row(-1459706400, -18000, 0, "EST")
           } else {
            Table::row(-1441558800, -18000, 3600, "EDT")
           }
          }
         }
        }
       } else {
        if i < 21 {
         if i < 17 {
          if i < 15 {
           Table::row(-1428256800, -18000, 0, "EST")
          } else {
           if i < 16 {
            Table::row(-1410109200, -18000, 3600, "EDT")
           } else {
            Table::row(-1396807200, -18000, 0, "EST")
           }
          }
         } else {
          if i < 19 {
           if i < 18 {
            Table::row(-1378659600, -18000, 3600, "EDT")
           } else {
            Table::row(-1365357600, -18000, 0, "EST")
           }
          } else {
           if i < 20 {
            Table::row(-1347210000, -18000, 3600, "EDT")
           } else {
            Table::row(-1333908000, -18000, 0, "EST")
           }
          }
         }
        } else {
         if i < 25 {
          if i < 23 {
           if i < 22 {
            Table::row(-1315155600, -18000, 3600, "EDT")
           } else {
            Table::row(-1301853600, -18000, 0, "EST")
           }
          } else {
           if i < 24 {
            Table::row(-1283706000, -18000, 3600, "EDT")
           } else {
            Table::row(-1270404000, -18000, 0, "EST")
           }
          }
         } else {
          if i < 27 {
           if i < 26 {
            Table::row(-1252256400, -18000, 3600, "EDT")
           } else {
            Table::row(-1238954400, -18000, 0, "EST")
           }
          } else {
           if i < 28 {
            Table::row(-1220806800, -18000, 3600, "EDT")
           } else {
            Table::row(-1207504800, -18000, 0, "EST")
           }
          }
         }
        }
       }
      } else {
       if i < 44 {
        if i < 36 {
         if i < 32 {
          if i < 30 {
           Table::row(-1189357200, -18000, 3600, "EDT")
          } else {
           if i < 31 {
            Table::row(-1176055200, -18000, 0, "EST")
           } else {
            Table::row(-1157302800, -18000, 3600, "EDT")
           }
          }
         } else {
          if i < 34 {
           if i < 33 {
            Table::row(-1144605600, -18000, 0, "EST")
           } else {
            Table::row(-1125853200, -18000, 3600, "EDT")
           }
          } else {
           if i < 35 {
            Table::row(-1112551200, -18000, 0, "EST")
           } else {
            Table::row(-1094403600, -18000, 3600, "EDT")
           }
          }
         }
        } else {
         if i < 40 {
          if i < 38 {
           if i < 37 {
            Table::row(-1081101600, -18000, 0, "EST")
           } else {
            Table::row(-1062954000, -18000, 3600, "EDT")
           }
          } else {
           if i < 39 {
            Table::row(-1049652000, -18000, 0, "EST")
           } else {
            Table::row(-1031504400, -18000, 3600, "EDT")
           }
          }
         } else {
          if i < 42 {
           if i < 41 {
            Table::row(-1018202400, -18000, 0, "EST")
           } else {
            Table::row(-1000054800, -18000, 3600, "EDT")
           }
          } else {
           if i < 43 {
            Table::row(-986752800, -18000, 0, "EST")
           } else {
            Table::row(-968000400, -18000, 3600, "EDT")
           }
          }
         }
        }
       } else {
        if i < 51 {
         if i < 47 {
          if i < 45 {
           Table::row(-955303200, -18000, 0, "EST")
          } else {
           if i < 46 {
            Table::row(-936550800, -18000, 3600, "EDT")
           } else {
            Table::row(-923248800, -18000, 0, "EST")
           }
          }
         } else {
          if i < 49 {
           if i < 48 {
            Table::row(-905101200, -18000, 3600, "EDT")
           } else {
            Table::row(-891799200, -18000, 0, "EST")
           }
          } else {
           if i < 50 {
            Table::row(-880218000, -18000, 3600, "EWT")
           } else {
            Table::row(-769395600, -18000, 3600, "EPT")
           }
          }
         }
        } else {
         if i < 55 {
          if i < 53 {
           if i < 52 {
            Table::row(-765396000, -18000, 0, "EST")
           } else {
            Table::row(-747248400, -18000, 3600, "EDT")
           }
          } else {
           if i < 54 {
            Table::row(-733946400, -18000, 0, "EST")
           } else {
            Table::row(-715798800, -18000, 3600, "EDT")
           }
          }
         } else {
          if i < 57 {
           if i < 56 {
            Table::row(-702496800, -18000, 0, "EST")
           } else {
            Table::row(-684349200, -18000, 3600, "EDT")
           }
          } else {
           if i < 58 {
            Table::row(-671047200, -18000, 0, "EST")
           } else {
            Table::row(-652899600, -18000, 3600, "EDT")
           }
          }
         }
        }
       }
      }
     } else {
      if i < 88 {
       if i < 73 {
        if i < 66 {
         if i < 62 {
          if i < 60 {
           Table::row(-639597600, -18000, 0, "EST")
          } else {
           if i < 61 {
            Table::row(-620845200, -18000, 3600, "EDT")
           } else {
            Table::row(-608148000, -18000, 0, "EST")
           }
          }
         } else {
          if i < 64 {
           if i < 63 {
            Table::row(-589395600, -18000, 3600, "EDT")
           } else {
            Table::row(-576093600, -18000, 0, "EST")
           }
          } else {
           if i < 65 {
            Table::row(-557946000, -18000, 3600, "EDT")
           } else {
            Table::row(-544644000, -18000, 0, "EST")
           }
          }
         }
        } else {
         if i < 69 {
          if i < 67 {
           Table::row(-526496400, -18000, 3600, "EDT")
          } else {
           if i < 68 {
            Table::row(-513194400, -18000, 0, "EST")
           } else {
            Table::row(-495046800, -18000, 3600, "EDT")
           }
          }
         } else {
          if i < 71 {
           if i < 70 {
            Table::row(-481744800, -18000, 0, "EST")
           } else {
            Table::row(-463597200, -18000, 3600, "EDT")
           }
          } else {
           if i < 72 {
            Table::row(-447271200, -18000, 0, "EST")
           } else {
            Table::row(-431542800, -18000, 3600, "EDT")
           }
          }
         }
        }
       } else {
        if i < 80 {
         if i < 76 {
          if i < 74 {
           Table::row(-415821600, -18000, 0, "EST")
          } else {
           if i < 75 {
            Table::row(-400093200, -18000, 3600, "EDT")
           } else {
            Table::row(-384372000, -18000, 0, "EST")
           }
          }
         } else {
          if i < 78 {
           if i < 77 {
            Table::row(-368643600, -18000, 3600, "EDT")
           } else {
            Table::row(-352922400, -18000, 0, "EST")
           }
          } else {
           if i < 79 {
            Table::row(-337194000, -18000, 3600, "EDT")
           } else {
            Table::row(-321472800, -18000, 0, "EST")
           }
          }
         }
        } else {
         if i < 84 {
          if i < 82 {
           if i < 81 {
            Table::row(-305744400, -18000, 3600, "EDT")
           } else {
            Table::row(-289418400, -18000, 0, "EST")
           }
          } else {
           if i < 83 {
            Table::row(-273690000, -18000, 3600, "EDT")
           } else {
            Table::row(-257968800, -18000, 0, "EST")
           }
          }
         } else {
          if i < 86 {
           if i < 85 {
            Table::row(-242240400, -18000, 3600, "EDT")
           } else {
            Table::row(-226519200, -18000, 0, "EST")
           }
          } else {
           if i < 87 {
            Table::row(-210790800, -18000, 3600, "EDT")
           } else {
            Table::row(-195069600, -18000, 0, "EST")
           }
          }
         }
        }
       }
      } else {
       if i < 103 {
        if i < 95 {
         if i < 91 {
          if i < 89 {
           Table::row(-179341200, -18000, 3600, "EDT")
          } else {
           if i < 90 {
            Table::row(-163620000, -18000, 0, "EST")
           } else {
            Table::row(-147891600, -18000, 3600, "EDT")
           }
          }
         } else {
          if i < 93 {
           if i < 92 {
            Table::row(-131565600, -18000, 0, "EST")
           } else {
            Table::row(-116442000, -18000, 3600, "EDT")
           }
          } else {
           if i < 94 {
            Table::row(-100116000, -18000, 0, "EST")
           } else {
            Table::row(-84387600, -18000, 3600, "EDT")
           }
          }
         }
        } else {
         if i < 99 {
          if i < 97 {
           if i < 96 {
            Table::row(-68666400, -18000, 0, "EST")
           } else {
            Table::row(-52938000, -18000, 3600, "EDT")
           }
          } else {
           if i < 98 {
            Table::row(-37216800, -18000, 0, "EST")
           } else {
            Table::row(-21488400, -18000, 3600, "EDT")
           }
          }
         } else {
          if i < 101 {
           if i < 100 {
            Table::row(-5767200, -18000, 0, "EST")
           } else {
            Table::row(9961200, -18000, 3600, "EDT")
           }
          } else {
           if i < 102 {
            Table::row(25682400, -18000, 0, "EST")
           } else {
            Table::row(41410800, -18000, 3600, "EDT")
           }
          }
         }
        }
       } else {
        if i < 110 {
         if i < 106 {
          if i < 104 {
           Table::row(57736800, -18000, 0, "EST")
          } else {
           if i < 105 {
            Table::row(73465200, -18000, 3600, "EDT")
           } else {
            Table::row(89186400, -18000, 0, "EST")
           }
          }
         } else {
          if i < 108 {
           if i < 107 {
            Table::row(104914800, -18000, 3600, "EDT")
           } else {
            Table::row(120636000, -18000, 0, "EST")
           }
          } else {
           if i < 109 {
            Table::row(126687600, -18000, 3600, "EDT")
           } else {
            Table::row(152085600, -18000, 0, "EST")
           }
          }
         }
        } else {
         if i < 114 {
          if i < 112 {
           if i < 111 {
            Table::row(162370800, -18000, 3600, "EDT")
           } else {
            Table::row(183535200, -18000, 0, "EST")
           }
          } else {
           if i < 113 {
            Table::row(199263600, -18000, 3600, "EDT")
           } else {
            Table::row(215589600, -18000, 0, "EST")
           }
          }
         } else {
          if i < 116 {
           if i < 115 {
            Table::row(230713200, -18000, 3600, "EDT")
           } else {
            Table::row(247039200, -18000, 0, "EST")
           }
          } else {
           if i < 117 {
            Table::row(262767600, -18000, 3600, "EDT")
           } else {
            Table::row(278488800, -18000, 0, "EST")
           }
          }
         }
        }
       }
      }
     }
    } else {
     if i < 177 {
      if i < 147 {
       if i < 132 {
        if i < 125 {
         if i < 121 {
          if i < 119 {
           Table::row(294217200, -18000, 3600, "EDT")
          } else {
           if i < 120 {
            Table::row(309938400, -18000, 0, "EST")
           } else {
            Table::row(325666800, -18000, 3600, "EDT")
           }
          }
         } else {
          if i < 123 {
           if i < 122 {
            Table::row(341388000, -18000, 0, "EST")
           } else {
            Table::row(357116400, -18000, 3600, "EDT")
           }
          } else {
           if i < 124 {
            Table::row(372837600, -18000, 0, "EST")
           } else {
            Table::row(388566000, -18000, 3600, "EDT")
           }
          }
         }
        } else {
         if i < 128 {
          if i < 126 {
           Table::row(404892000, -18000, 0, "EST")
          } else {
           if i < 127 {
            Table::row(420015600, -18000, 3600, "EDT")
           } else {
            Table::row(436341600, -18000, 0, "EST")
           }
          }
         } else {
          if i < 130 {
           if i < 129 {
            Table::row(452070000, -18000, 3600, "EDT")
           } else {
            Table::row(467791200, -18000, 0, "EST")
           }
          } else {
           if i < 131 {
            Table::row(483519600, -18000, 3600, "EDT")
           } else {
            Table::row(499240800, -18000, 0, "EST")
           }
          }
         }
        }
       } else {
        if i < 139 {
         if i < 135 {
          if i < 133 {
           Table::row(514969200, -18000, 3600, "EDT")
          } else {
           if i < 134 {
            Table::row(530690400, -18000, 0, "EST")
           } else {
            Table::row(544604400, -18000, 3600, "EDT")
           }
          }
         } else {
          if i < 137 {
           if i < 136 {
            Table::row(562140000, -18000, 0, "EST")
           } else {
            Table::row(576054000, -18000, 3600, "EDT")
           }
          } else {
           if i < 138 {
            Table::row(594194400, -18000, 0, "EST")
           } else {
            Table::row(607503600, -18000, 3600, "EDT")
           }
          }
         }
        } else {
         if i < 143 {
          if i < 141 {
           if i < 140 {
            Table::row(625644000, -18000, 0, "EST")
           } else {
            Table::row(638953200, -18000, 3600, "EDT")
           }
          } else {
           if i < 142 {
            Table::row(657093600, -18000, 0, "EST")
           } else {
            Table::row(671007600, -18000, 3600, "EDT")
           }
          }
         } else {
          if i < 145 {
           if i < 144 {
            Table::row(688543200, -18000, 0, "EST")
           } else {
            Table::row(702457200, -18000, 3600, "EDT")
           }
          } else {
           if i < 146 {
            Table::row(719992800, -18000, 0, "EST")
           } else {
            Table::row(733906800, -18000, 3600, "EDT")
           }
          }
         }
        }
       }
      } else {
       if i < 162 {
        if i < 154 {
         if i < 150 {
          if i < 148 {
           Table::row(752047200, -18000, 0, "EST")
          } else {
           if i < 149 {
            Table::row(765356400, -18000, 3600, "EDT")
           } else {
            Table::row(783496800, -18000, 0, "EST")
           }
          }
         } else {
          if i < 152 {
           if i < 151 {
            Table::row(796806000, -18000, 3600, "EDT")
           } else {
            Table::row(814946400, -18000, 0, "EST")
           }
          } else {
           if i < 153 {
            Table::row(828860400, -18000, 3600, "EDT")
           } else {
            Table::row(846396000, -18000, 0, "EST")
           }
          }
         }
        } else {
         if i < 158 {
          if i < 156 {
           if i < 155 {
            Table::row(860310000, -18000, 3600, "EDT")
           } else {
            Table::row(877845600, -18000, 0, "EST")
           }
          } else {
           if i < 157 {
            Table::row(891759600, -18000, 3600, "EDT")
           } else {
            Table::row(909295200, -18000, 0, "EST")
           }
          }
         } else {
          if i < 160 {
           if i < 159 {
            Table::row(923209200, -18000, 3600, "EDT")
           } else {
            Table::row(941349600, -18000, 0, "EST")
           }
          } else {
           if i < 161 {
            Table::row(954658800, -18000, 3600, "EDT")
           } else {
            Table::row(972799200, -18000, 0, "EST")
           }
          }
         }
        }
       } else {
        if i < 169 {
         if i < 165 {
          if i < 163 {
           Table::row(986108400, -18000, 3600, "EDT")
          } else {
           if i < 164 {
            Table::row(1004248800, -18000, 0, "EST")
           } else {
            Table::row(1018162800, -18000, 3600, "EDT")
           }
          }
         } else {
          if i < 167 {
           if i < 166 {
            Table::row(1035698400, -18000, 0, "EST")
           } else {
            Table::row(1049612400, -18000, 3600, "EDT")
           }
          } else {
           if i < 168 {
            Table::row(1067148000, -18000, 0, "EST")
           } else {
            Table::row(1081062000, -18000, 3600, "EDT")
           }
          }
         }
        } else {
         if i < 173 {
          if i < 171 {
           if i < 170 {
            Table::row(1099202400, -18000, 0, "EST")
           } else {
            Table::row(1112511600, -18000, 3600, "EDT")
           }
          } else {
           if i < 172 {
            Table::row(1130652000, -18000, 0, "EST")
           } else {
            Table::row(1143961200, -18000, 3600, "EDT")
           }
          }
         } else {
          if i < 175 {
           if i < 174 {
            Table::row(1162101600, -18000, 0, "EST")
           } else {
            Table::row(1173596400, -18000, 3600, "EDT")
           }
          } else {
           if i < 176 {
            Table::row(1194156000, -18000, 0, "EST")
           } else {
            Table::row(1205046000, -18000, 3600, "EDT")
           }
          }
         }
        }
       }
      }
     } else {
      if i < 206 {
       if i < 191 {
        if i < 184 {
         if i < 180 {
          if i < 178 {
           Table::row(1225605600, -18000, 0, "EST")
          } else {
           if i < 179 {
            Table::row(1236495600, -18000, 3600, "EDT")
           } else {
            Table::row(1257055200, -18000, 0, "EST")
           }
          }
         } else {
          if i < 182 {
           if i < 181 {
            Table::row(1268550000, -18000, 3600, "EDT")
           } else {
            Table::row(1289109600, -18000, 0, "EST")
           }
          } else {
           if i < 183 {
            Table::row(1299999600, -18000, 3600, "EDT")
           } else {
            Table::row(1320559200, -18000, 0, "EST")
           }
          }
         }
        } else {
         if i < 187 {
          if i < 185 {
           Table::row(1331449200, -18000, 3600, "EDT")
          } else {
           if i < 186 {
            Table::row(1352008800, -18000, 0, "EST")
           } else {
            Table::row(1362898800, -18000, 3600, "EDT")
           }
          }
         } else {
          if i < 189 {
           if i < 188 {
            Table::row(1383458400, -18000, 0, "EST")
           } else {
            Table::row(1394348400, -18000, 3600, "EDT")
           }
          } else {
           if i < 190 {
            Table::row(1414908000, -18000, 0, "EST")
           } else {
            Table::row(1425798000, -18000, 3600, "EDT")
           }
          }
         }
        }
       } else {
        if i < 198 {
         if i < 194 {
          if i < 192 {
           Table::row(1446357600, -18000, 0, "EST")
          } else {
           if i < 193 {
            Table::row(1457852400, -18000, 3600, "EDT")
           } else {
            Table::row(1478412000, -18000, 0, "EST")
           }
          }
         } else {
          if i < 196 {
           if i < 195 {
            Table::row(1489302000, -18000, 3600, "EDT")
           } else {
            Table::row(1509861600, -18000, 0, "EST")
           }
          } else {
           if i < 197 {
            Table::row(1520751600, -18000, 3600, "EDT")
           } else {
            Table::row(1541311200, -18000, 0, "EST")
           }
          }
         }
        } else {
         if i < 202 {
          if i < 200 {
           if i < 199 {
            Table::row(1552201200, -18000, 3600, "EDT")
           } else {
            Table::row(1572760800, -18000, 0, "EST")
           }
          } else {
           if i < 201 {
            Table::row(1583650800, -18000, 3600, "EDT")
           } else {
            Table::row(1604210400, -18000, 0, "EST")
           }
          }
         } else {
          if i < 204 {
           if i < 203 {
            Table::row(1615705200, -18000, 3600, "EDT")
           } else {
            Table::row(1636264800, -18000, 0, "EST")
           }
          } else {
           if i < 205 {
            Table::row(1647154800, -18000, 3600, "EDT")
           } else {
            Table::row(1667714400, -18000, 0, "EST")
           }
          }
         }
        }
       }
      } else {
       if i < 221 {
        if i < 213 {
         if i < 209 {
          if i < 207 {
           Table::row(1678604400, -18000, 3600, "EDT")
          } else {
           if i < 208 {
            Table::row(1699164000, -18000, 0, "EST")
           } else {
            Table::row(1710054000, -18000, 3600, "EDT")
           }
          }
         } else {
          if i < 211 {
           if i < 210 {
            Table::row(1730613600, -18000, 0, "EST")
           } else {
            Table::row(1741503600, -18000, 3600, "EDT")
           }
          } else {
           if i < 212 {
            Table::row(1762063200, -18000, 0, "EST")
           } else {
            Table::row(1772953200, -18000, 3600, "EDT")
           }
          }
         }
        } else {
         if i < 217 {
          if i < 215 {
           if i < 214 {
            Table::row(1793512800, -18000, 0, "EST")
           } else {
            Table::row(1805007600, -18000, 3600, "EDT")
           }
          } else {
           if i < 216 {
            Table::row(1825567200, -18000, 0, "EST")
           } else {
            Table::row(1836457200, -18000, 3600, "EDT")
           }
          }
         } else {
          if i < 219 {
           if i < 218 {
            Table::row(1857016800, -18000, 0, "EST")
           } else {
            Table::row(1867906800, -18000, 3600, "EDT")
           }
          } else {
           if i < 220 {
            Table::row(1888466400, -18000, 0, "EST")
           } else {
            Table::row(1899356400, -18000, 3600, "EDT")
           }
          }
         }
        }
       } else {
        if i < 228 {
         if i < 224 {
          if i < 222 {
           Table::row(1919916000, -18000, 0, "EST")
          } else {
           if i < 223 {
            Table::row(1930806000, -18000, 3600, "EDT")
           } else {
            Table::row(1951365600, -18000, 0, "EST")
           }
          }
         } else {
          if i < 226 {
           if i < 225 {
            Table::row(1962860400, -18000, 3600, "EDT")
           } else {
            Table::row(1983420000, -18000, 0, "EST")
           }
          } else {
           if i < 227 {
            Table::row(1994310000, -18000, 3600, "EDT")
           } else {
            Table::row(2014869600, -18000, 0, "EST")
           }
          }
         }
        } else {
         if i < 232 {
          if i < 230 {
           if i < 229 {
            Table::row(2025759600, -18000, 3600, "EDT")
           } else {
            Table::row(2046319200, -18000, 0, "EST")
           }
          } else {
           if i < 231 {
            Table::row(2057209200, -18000, 3600, "EDT")
           } else {
            Table::row(2077768800, -18000, 0, "EST")
           }
          }
         } else {
          if i < 234 {
           if i < 233 {
            Table::row(2088658800, -18000, 3600, "EDT")
           } else {
            Table::row(2109218400, -18000, 0, "EST")
           }
          } else {
           if i < 235 {
            Table::row(2120108400, -18000, 3600, "EDT")
           } else {
            Table::row(2140668000, -18000, 0, "EST")
           }
          }
         }
        }
       }
      }
     }
    }
}

/// The rows of the table of the zone `US/Eastern`.
pub open spec fn eastern_rows() -> spec_fn(int) -> (i64, FixedTimespan) {
    |i: int| eastern_row(i)
}

/// The table of the zone `US/Eastern`.
pub open spec fn eastern() -> Table {
    Table::listed(Table::row(0, -17762, 0, "LMT").1, 236, eastern_rows())
}

/// Row `i` of the table of the zone `US/Hawaii`.
pub open spec fn hawaii_row(i: int) -> (i64, FixedTimespan) {
    if i < 3 {
     if i < 1 {
      Table::row(-2334101314, -37800, 0, "HST")
     } else {
      if i < 2 {
       Table::row(-1157283000, -37800, 3600, "HDT")
      } else {
       Table::row(-1155436200, -37800, 0, "HST")
      }
     }
    } else {
     if i < 5 {
      if i < 4 {
       Table::row(-880198200, -37800, 3600, "HWT")
      } else {
       Table::row(-769395600, -37800, 3600, "HPT")
      }
     } else {
      if i < 6 {
       Table::row(-765376200, -37800, 0, "HST")
      } else {
       Table::row(-712150200, -36000, 0, "HST")
      }
     }
    }
}

/// The rows of the table of the zone `US/Hawaii`.
pub open spec fn hawaii_rows() -> spec_fn(int) -> (i64, FixedTimespan) {
    |i: int| hawaii_row(i)
}

/// The table of the zone `US/Hawaii`.
pub open spec fn hawaii() -> Table {
    Table::listed(Table::row(0, -37886, 0, "LMT").1, 7, hawaii_rows())
}

/// Row `i` of the table of the zone `US/Indiana-Starke`.
pub open spec fn indiana_starke_row(i: int) -> (i64, FixedTimespan) {
    if i < 77 {
     if i < 38 {
      if i < 19 {
       if i < 9 {
        if i < 4 {
         if i < 2 {
          if i < 1 {
           Table::row(-2717647200, -21600, 0, "CST")
          } else {
           Table::row(-1633276800, -21600, 3600, "CDT")
          }
         } else {
          if i < 3 {
           Table::row(-1615136400, -21600, 0, "CST")
          } else {
           Table::row(-1601827200, -21600, 3600, "CDT")
          }
         }
        } else {
         if i < 6 {
          if i < 5 {
           Table::row(-1583686800, -21600, 0, "CST")
          } else {
           Table::row(-880214400, -21600, 3600, "CWT")
          }
         } else {
          if i < 7 {
           Table::row(-769395600, -21600, 3600, "CPT")
          } else {
           if i < 8 {
            Table::row(-765392400, -21600, 0, "CST")
           } else {
            Table::row(-715795200, -21600, 3600, "CDT")
           }
          }
         }
        }
       } else {
        if i < 14 {
         if i < 11 {
          if i < 10 {
           Table::row(-702493200, -21600, 0, "CST")
          } else {
           Table::row(-684345600, -21600, 3600, "CDT")
          }
         } else {
          if i < 12 {
           Table::row(-671043600, -21600, 0, "CST")
          } else {
           if i < 13 {
            Table::row(-652896000, -21600, 3600, "CDT")
           } else {
            Table::row(-639594000, -21600, 0, "CST")
           }
          }
         }
        } else {
         if i < 16 {
          if i < 15 {
           Table::row(-620841600, -21600, 3600, "CDT")
          } else {
           Table::row(-608144400, -21600, 0, "CST")
          }
         } else {
          if i < 17 {
           Table::row(-589392000, -21600, 3600, "CDT")
          } else {
           if i < 18 {
            Table::row(-576090000, -21600, 0, "CST")
           } else {
            Table::row(-557942400, -21600, 3600, "CDT")
           }
          }
         }
        }
       }
      } else {
       if i < 28 {
        if i < 23 {
         if i < 21 {
          if i < 20 {
           Table::row(-544640400, -21600, 0, "CST")
          } else {
           Table::row(-526492800, -21600, 3600, "CDT")
          }
         } else {
          if i < 22 {
           Table::row(-513190800, -21600, 0, "CST")
          } else {
           Table::row(-495043200, -21600, 3600, "CDT")
          }
         }
        } else {
         if i < 25 {
          if i < 24 {
           Table::row(-481741200, -21600, 0, "CST")
          } else {
           Table::row(-463593600, -21600, 3600, "CDT")
          }
         } else {
          if i < 26 {
           Table::row(-447267600, -21600, 0, "CST")
          } else {
           if i < 27 {
            Table::row(-431539200, -21600, 3600, "CDT")
           } else {
            Table::row(-415818000, -21600, 0, "CST")
           }
          }
         }
        }
       } else {
        if i < 33 {
         if i < 30 {
          if i < 29 {
           Table::row(-400089600, -21600, 3600, "CDT")
          } else {
           Table::row(-386787600, -21600, 0, "CST")
          }
         } else {
          if i < 31 {
           Table::row(-368640000, -21600, 3600, "CDT")
          } else {
           if i < 32 {
            Table::row(-355338000, -21600, 0, "CST")
           } else {
            Table::row(-337190400, -21600, 3600, "CDT")
           }
          }
         }
        } else {
         if i < 35 {
          if i < 34 {
           Table::row(-321469200, -21600, 0, "CST")
          } else {
           Table::row(-305740800, -21600, 3600, "CDT")
          }
         } else {
          if i < 36 {
           Table::row(-289414800, -21600, 0, "CST")
          } else {
           if i < 37 {
            Table::row(-273686400, -21600, 3600, "CDT")
           } else {
            Table::row(-257965200, -21600, 0, "CST")
           }
          }
         }
        }
       }
      }
     } else {
      if i < 57 {
       if i < 47 {
        if i < 42 {
         if i < 40 {
          if i < 39 {
           Table::row(-242236800, -18000, 0, "EST")
          } else {
           Table::row(-195066000, -21600, 0, "CST")
          }
         } else {
          if i < 41 {
           Table::row(-84384000, -21600, 3600, "CDT")
          } else {
           Table::row(-68662800, -21600, 0, "CST")
          }
         }
        } else {
         if i < 44 {
          if i < 43 {
           Table::row(-52934400, -21600, 3600, "CDT")
          } else {
           Table::row(-37213200, -21600, 0, "CST")
          }
         } else {
          if i < 45 {
           Table::row(-21484800, -21600, 3600, "CDT")
          } else {
           if i < 46 {
            Table::row(-5763600, -21600, 0, "CST")
           } else {
            Table::row(9964800, -21600, 3600, "CDT")
           }
          }
         }
        }
       } else {
        if i < 52 {
         if i < 49 {
          if i < 48 {
           Table::row(25686000, -21600, 0, "CST")
          } else {
           Table::row(41414400, -21600, 3600, "CDT")
          }
         } else {
          if i < 50 {
           Table::row(57740400, -21600, 0, "CST")
          } else {
           if i < 51 {
            Table::row(73468800, -21600, 3600, "CDT")
           } else {
            Table::row(89190000, -21600, 0, "CST")
           }
          }
         }
        } else {
         if i < 54 {
          if i < 53 {
           Table::row(104918400, -21600, 3600, "CDT")
          } else {
           Table::row(120639600, -21600, 0, "CST")
          }
         } else {
          if i < 55 {
           Table::row(126691200, -21600, 3600, "CDT")
          } else {
           if i < 56 {
            Table::row(152089200, -21600, 0, "CST")
           } else {
            Table::row(162374400, -21600, 3600, "CDT")
           }
          }
         }
        }
       }
      } else {
       if i < 67 {
        if i < 62 {
         if i < 59 {
          if i < 58 {
           Table::row(183538800, -21600, 0, "CST")
          } else {
           Table::row(199267200, -21600, 3600, "CDT")
          }
         } else {
          if i < 60 {
           Table::row(215593200, -21600, 0, "CST")
          } else {
           if i < 61 {
            Table::row(230716800, -21600, 3600, "CDT")
           } else {
            Table::row(247042800, -21600, 0, "CST")
           }
          }
         }
        } else {
         if i < 64 {
          if i < 63 {
           Table::row(262771200, -21600, 3600, "CDT")
          } else {
           Table::row(278492400, -21600, 0, "CST")
          }
         } else {
          if i < 65 {
           Table::row(294220800, -21600, 3600, "CDT")
          } else {
           if i < 66 {
            Table::row(309942000, -21600, 0, "CST")
           } else {
            Table::row(325670400, -21600, 3600, "CDT")
           }
          }
         }
        }
       } else {
        if i < 72 {
         if i < 69 {
          if i < 68 {
           Table::row(341391600, -21600, 0, "CST")
          } else {
           Table::row(357120000, -21600, 3600, "CDT")
          }
         } else {
          if i < 70 {
           Table::row(372841200, -21600, 0, "CST")
          } else {
           if i < 71 {
            Table::row(388569600, -21600, 3600, "CDT")
           } else {
            Table::row(404895600, -21600, 0, "CST")
           }
          }
         }
        } else {
         if i < 74 {
          if i < 73 {
           Table::row(420019200, -21600, 3600, "CDT")
          } else {
           Table::row(436345200, -21600, 0, "CST")
          }
         } else {
          if i < 75 {
           Table::row(452073600, -21600, 3600, "CDT")
          } else {
           if i < 76 {
            Table::row(467794800, -21600, 0, "CST")
           } else {
            Table::row(483523200, -21600, 3600, "CDT")
           }
          }
         }
        }
       }
      }
     }
    } else {
     if i < 115 {
      if i < 96 {
       if i < 86 {
        if i < 81 {
         if i < 79 {
          if i < 78 {
           Table::row(499244400, -21600, 0, "CST")
          } else {
           Table::row(514972800, -21600, 3600, "CDT")
          }
         } else {
          if i < 80 {
           Table::row(530694000, -21600, 0, "CST")
          } else {
           Table::row(544608000, -21600, 3600, "CDT")
          }
         }
        } else {
         if i < 83 {
          if i < 82 {
           Table::row(562143600, -21600, 0, "CST")
          } else {
           Table::row(576057600, -21600, 3600, "CDT")
          }
         } else {
          if i < 84 {
           Table::row(594198000, -21600, 0, "CST")
          } else {
           if i < 85 {
            Table::row(607507200, -21600, 3600, "CDT")
           } else {
            Table::row(625647600, -21600, 0, "CST")
           }
          }
         }
        }
       } else {
        if i < 91 {
         if i < 88 {
          if i < 87 {
           Table::row(638956800, -21600, 3600, "CDT")
          } else {
           Table::row(657097200, -21600, 0, "CST")
          }
         } else {
          if i < 89 {
           Table::row(671011200, -21600, 3600, "CDT")
          } else {
           if i < 90 {
            Table::row(688546800, -18000, 0, "EST")
           } else {
            Table::row(1143961200, -21600, 3600, "CDT")
           }
          }
         }
        } else {
         if i < 93 {
          if i < 92 {
           Table::row(1162105200, -21600, 0, "CST")
          } else {
           Table::row(1173600000, -21600, 3600, "CDT")
          }
         } else {
          if i < 94 {
           Table::row(1194159600, -21600, 0, "CST")
          } else {
           if i < 95 {
            Table::row(1205049600, -21600, 3600, "CDT")
           } else {
            Table::row(1225609200, -21600, 0, "CST")
           }
          }
         }
        }
       }
      } else {
       if i < 105 {
        if i < 100 {
         if i < 98 {
          if i < 97 {
           Table::row(1236499200, -21600, 3600, "CDT")
          } else {
           Table::row(1257058800, -21600, 0, "CST")
          }
         } else {
          if i < 99 {
           Table::row(1268553600, -21600, 3600, "CDT")
          } else {
           Table::row(1289113200, -21600, 0, "CST")
          }
         }
        } else {
         if i < 102 {
          if i < 101 {
           Table::row(1300003200, -21600, 3600, "CDT")
          } else {
           Table::row(1320562800, -21600, 0, "CST")
          }
         } else {
          if i < 103 {
           Table::row(1331452800, -21600, 3600, "CDT")
          } else {
           if i < 104 {
            Table::row(1352012400, -21600, 0, "CST")
           } else {
            Table::row(1362902400, -21600, 3600, "CDT")
           }
          }
         }
        }
       } else {
        if i < 110 {
         if i < 107 {
          if i < 106 {
           Table::row(1383462000, -21600, 0, "CST")
          } else {
           Table::row(1394352000, -21600, 3600, "CDT")
          }
         } else {
          if i < 108 {
           Table::row(1414911600, -21600, 0, "CST")
          } else {
           if i < 109 {
            Table::row(1425801600, -21600, 3600, "CDT")
           } else {
            Table::row(1446361200, -21600, 0, "CST")
           }
          }
         }
        } else {
         if i < 112 {
          if i < 111 {
           Table::row(1457856000, -21600, 3600, "CDT")
          } else {
           Table::row(1478415600, -21600, 0, "CST")
          }
         } else {
          if i < 113 {
           Table::row(1489305600, -21600, 3600, "CDT")
          } else {
           if i < 114 {
            Table::row(1509865200, -21600, 0, "CST")
           } else {
            Table::row(1520755200, -21600, 3600, "CDT")
           }
          }
         }
        }
       }
      }
     } else {
      if i < 134 {
       if i < 124 {
        if i < 119 {
         if i < 117 {
          if i < 116 {
           Table::row(1541314800, -21600, 0, "CST")
          } else {
           Table::row(1552204800, -21600, 3600, "CDT")
          }
         } else {
          if i < 118 {
           Table::row(1572764400, -21600, 0, "CST")
          } else {
           Table::row(1583654400, -21600, 3600, "CDT")
          }
         }
        } else {
         if i < 121 {
          if i < 120 {
           Table::row(1604214000, -21600, 0, "CST")
          } else {
           Table::row(1615708800, -21600, 3600, "CDT")
          }
         } else {
          if i < 122 {
           Table::row(1636268400, -21600, 0, "CST")
          } else {
           if i < 123 {
            Table::row(1647158400, -21600, 3600, "CDT")
           } else {
            Table::row(1667718000, -21600, 0, "CST")
           }
          }
         }
        }
       } else {
        if i < 129 {
         if i < 126 {
          if i < 125 {
           Table::row(1678608000, -21600, 3600, "CDT")
          } else {
           Table::row(1699167600, -21600, 0, "CST")
          }
         } else {
          if i < 127 {
           Table::row(1710057600, -21600, 3600, "CDT")
          } else {
           if i < 128 {
            Table::row(1730617200, -21600, 0, "CST")
           } else {
            Table::row(1741507200, -21600, 3600, "CDT")
           }
          }
         }
        } else {
         if i < 131 {
          if i < 130 {
           Table::row(1762066800, -21600, 0, "CST")
          } else {
           Table::row(1772956800, -21600, 3600, "CDT")
          }
         } else {
          if i < 132 {
           Table::row(1793516400, -21600, 0, "CST")
          } else {
           if i < 133 {
            Table::row(1805011200, -21600, 3600, "CDT")
           } else {
            Table::row(1825570800, -21600, 0, "CST")
           }
          }
         }
        }
       }
      } else {
       if i < 144 {
        if i < 139 {
         if i < 136 {
          if i < 135 {
           Table::row(1836460800, -21600, 3600, "CDT")
          } else {
           Table::row(1857020400, -21600, 0, "CST")
          }
         } else {
          if i < 137 {
           Table::row(1867910400, -21600, 3600, "CDT")
          } else {
           if i < 138 {
            Table::row(1888470000, -21600, 0, "CST")
           } else {
            Table::row(1899360000, -21600, 3600, "CDT")
           }
          }
         }
        } else {
         if i < 141 {
          if i < 140 {
           Table::row(1919919600, -21600, 0, "CST")
          } else {
           Table::row(1930809600, -21600, 3600, "CDT")
          }
         } else {
          if i < 142 {
           Table::row(1951369200, -21600, 0, "CST")
          } else {
           if i < 143 {
            Table::row(1962864000, -21600, 3600, "CDT")
           } else {
            Table::row(1983423600, -21600, 0, "CST")
           }
          }
         }
        }
       } else {
        if i < 149 {
         if i < 146 {
          if i < 145 {
           Table::row(1994313600, -21600, 3600, "CDT")
          } else {
           Table::row(2014873200, -21600, 0, "CST")
          }
         } else {
          if i < 147 {
           Table::row(2025763200, -21600, 3600, "CDT")
          } else {
           if i < 148 {
            Table::row(2046322800, -21600, 0, "CST")
           } else {
            Table::row(2057212800, -21600, 3600, "CDT")
           }
          }
         }
        } else {
         if i < 151 {
          if i < 150 {
           Table::row(2077772400, -21600, 0, "CST")
          } else {
           Table::row(2088662400, -21600, 3600, "CDT")
          }
         } else {
          if i < 152 {
           Table::row(2109222000, -21600, 0, "CST")
          } else {
           if i < 153 {
            Table::row(2120112000, -21600, 3600, "CDT")
           } else {
            Table::row(2140671600, -21600, 0, "CST")
           }
          }
         }
        }
       }
      }
     }
    }
}

/// The rows of the table of the zone `US/Indiana-Starke`.
pub open spec fn indiana_starke_rows() -> spec_fn(int) -> (i64, FixedTimespan) {
    |i: int| indiana_starke_row(i)
}

/// The table of the zone `US/Indiana-Starke`.
pub open spec fn indiana_starke() -> Table {
    Table::listed(Table::row(0, -20790, 0, "LMT").1, 154, indiana_starke_rows())
}

/// Row `i` of the table of the zone `US/Michigan`.
pub open spec fn michigan_row(i: int) -> (i64, FixedTimespan) {
    if i < 70 {
     if i < 35 {
      if i < 17 {
       if i < 8 {
        if i < 4 {
         if i < 2 {
          if i < 1 {
           Table::row(-2051202469, -21600, 0, "CST")
          } else {
           Table::row(-1724083200, -18000, 0, "EST")
          }
         } else {
          if i < 3 {
           Table::row(-880218000, -18000, 3600, "EWT")
          } else {
           Table::row(-769395600, -18000, 3600, "EPT")
          }
         }
        } else {
         if i < 6 {
          if i < 5 {
           Table::row(-765396000, -18000, 0, "EST")
          } else {
           Table::row(-684349200, -18000, 3600, "EDT")
          }
         } else {
          if i < 7 {
           Table::row(-671047200, -18000, 0, "EST")
          } else {
           Table::row(-80506740, -18000, 3600, "EDT")
          }
         }
        }
       } else {
        if i < 12 {
         if i < 10 {
          if i < 9 {
           Table::row(-68666400, -18000, 0, "EST")
          } else {
           Table::row(-52938000, -18000, 3600, "EDT")
          }
         } else {
          if i < 11 {
           Table::row(-37216800, -18000, 0, "EST")
          } else {
           Table::row(104914800, -18000, 3600, "EDT")
          }
         }
        } else {
         if i < 14 {
          if i < 13 {
           Table::row(120636000, -18000, 0, "EST")
          } else {
           Table::row(126687600, -18000, 3600, "EDT")
          }
         } else {
          if i < 15 {
           Table::row(152085600, -18000, 0, "EST")
          } else {
           if i < 16 {
            Table::row(167814000, -18000, 3600, "EDT")
           } else {
            Table::row(183535200, -18000, 0, "EST")
           }
          }
         }
        }
       }
      } else {
       if i < 26 {
        if i < 21 {
         if i < 19 {
          if i < 18 {
           Table::row(199263600, -18000, 3600, "EDT")
          } else {
           Table::row(215589600, -18000, 0, "EST")
          }
         } else {
          if i < 20 {
           Table::row(230713200, -18000, 3600, "EDT")
          } else {
           Table::row(247039200, -18000, 0, "EST")
          }
         }
        } else {
         if i < 23 {
          if i < 22 {
           Table::row(262767600, -18000, 3600, "EDT")
          } else {
           Table::row(278488800, -18000, 0, "EST")
          }
         } else {
          if i < 24 {
           Table::row(294217200, -18000, 3600, "EDT")
          } else {
           if i < 25 {
            Table::row(309938400, -18000, 0, "EST")
           } else {
            Table::row(325666800, -18000, 3600, "EDT")
           }
          }
         }
        }
       } else {
        if i < 30 {
         if i < 28 {
          if i < 27 {
           Table::row(341388000, -18000, 0, "EST")
          } else {
           Table::row(357116400, -18000, 3600, "EDT")
          }
         } else {
          if i < 29 {
           Table::row(372837600, -18000, 0, "EST")
          } else {
           Table::row(388566000, -18000, 3600, "EDT")
          }
         }
        } else {
         if i < 32 {
          if i < 31 {
           Table::row(404892000, -18000, 0, "EST")
          } else {
           Table::row(420015600, -18000, 3600, "EDT")
          }
         } else {
          if i < 33 {
           Table::row(436341600, -18000, 0, "EST")
          } else {
           if i < 34 {
            Table::row(452070000, -18000, 3600, "EDT")
           } else {
            Table::row(467791200, -18000, 0, "EST")
           }
          }
         }
        }
       }
      }
     } else {
      if i < 52 {
       if i < 43 {
        if i < 39 {
         if i < 37 {
          if i < 36 {
           Table::row(483519600, -18000, 3600, "EDT")
          } else {
           Table::row(499240800, -18000, 0, "EST")
          }
         } else {
          if i < 38 {
           Table::row(514969200, -18000, 3600, "EDT")
          } else {
           Table::row(530690400, -18000, 0, "EST")
          }
         }
        } else {
         if i < 41 {
          if i < 40 {
           Table::row(544604400, -18000, 3600, "EDT")
          } else {
           Table::row(562140000, -18000, 0, "EST")
          }
         } else {
          if i < 42 {
           Table::row(576054000, -18000, 3600, "EDT")
          } else {
           Table::row(594194400, -18000, 0, "EST")
          }
         }
        }
       } else {
        if i < 47 {
         if i < 45 {
          if i < 44 {
           Table::row(607503600, -18000, 3600, "EDT")
          } else {
           Table::row(625644000, -18000, 0, "EST")
          }
         } else {
          if i < 46 {
           Table::row(638953200, -18000, 3600, "EDT")
          } else {
           Table::row(657093600, -18000, 0, "EST")
          }
         }
        } else {
         if i < 49 {
          if i < 48 {
           Table::row(671007600, -18000, 3600, "EDT")
          } else {
           Table::row(688543200, -18000, 0, "EST")
          }
         } else {
          if i < 50 {
           Table::row(702457200, -18000, 3600, "EDT")
          } else {
           if i < 51 {
            Table::row(719992800, -18000, 0, "EST")
           } else {
            Table::row(733906800, -18000, 3600, "EDT")
           }
          }
         }
        }
       }
      } else {
       if i < 61 {
        if i < 56 {
         if i < 54 {
          if i < 53 {
           Table::row(752047200, -18000, 0, "EST")
          } else {
           Table::row(765356400, -18000, 3600, "EDT")
          }
         } else {
          if i < 55 {
           Table::row(783496800, -18000, 0, "EST")
          } else {
           Table::row(796806000, -18000, 3600, "EDT")
          }
         }
        } else {
         if i < 58 {
          if i < 57 {
           Table::row(814946400, -18000, 0, "EST")
          } else {
           Table::row(828860400, -18000, 3600, "EDT")
          }
         } else {
          if i < 59 {
           Table::row(846396000, -18000, 0, "EST")
          } else {
           if i < 60 {
            Table::row(860310000, -18000, 3600, "EDT")
           } else {
            Table::row(877845600, -18000, 0, "EST")
           }
          }
         }
        }
       } else {
        if i < 65 {
         if i < 63 {
          if i < 62 {
           Table::row(891759600, -18000, 3600, "EDT")
          } else {
           Table::row(909295200, -18000, 0, "EST")
          }
         } else {
          if i < 64 {
           Table::row(923209200, -18000, 3600, "EDT")
          } else {
           Table::row(941349600, -18000, 0, "EST")
          }
         }
        } else {
         if i < 67 {
          if i < 66 {
           Table::row(954658800, -18000, 3600, "EDT")
          } else {
           Table::row(972799200, -18000, 0, "EST")
          }
         } else {
          if i < 68 {
           Table::row(986108400, -18000, 3600, "EDT")
          } else {
           if i < 69 {
            Table::row(1004248800, -18000, 0, "EST")
           } else {
            Table::row(1018162800, -18000, 3600, "EDT")
           }
          }
         }
        }
       }
      }
     }
    } else {
     if i < 105 {
      if i < 87 {
       if i < 78 {
        if i < 74 {
         if i < 72 {
          if i < 71 {
           Table::row(1035698400, -18000, 0, "EST")
          } else {
           Table::row(1049612400, -18000, 3600, "EDT")
          }
         } else {
          if i < 73 {
           Table::row(1067148000, -18000, 0, "EST")
          } else {
           Table::row(1081062000, -18000, 3600, "EDT")
          }
         }
        } else {
         if i < 76 {
          if i < 75 {
           Table::row(1099202400, -18000, 0, "EST")
          } else {
           Table::row(1112511600, -18000, 3600, "EDT")
          }
         } else {
          if i < 77 {
           Table::row(1130652000, -18000, 0, "EST")
          } else {
           Table::row(1143961200, -18000, 3600, "EDT")
          }
         }
        }
       } else {
        if i < 82 {
         if i < 80 {
          if i < 79 {
           Table::row(1162101600, -18000, 0, "EST")
          } else {
           Table::row(1173596400, -18000, 3600, "EDT")
          }
         } else {
          if i < 81 {
           Table::row(1194156000, -18000, 0, "EST")
          } else {
           Table::row(1205046000, -18000, 3600, "EDT")
          }
         }
        } else {
         if i < 84 {
          if i < 83 {
           Table::row(1225605600, -18000, 0, "EST")
          } else {
           Table::row(1236495600, -18000, 3600, "EDT")
          }
         } else {
          if i < 85 {
           Table::row(1257055200, -18000, 0, "EST")
          } else {
           if i < 86 {
            Table::row(1268550000, -18000, 3600, "EDT")
           } else {
            Table::row(1289109600, -18000, 0, "EST")
           }
          }
         }
        }
       }
      } else {
       if i < 96 {
        if i < 91 {
         if i < 89 {
          if i < 88 {
           Table::row(1299999600, -18000, 3600, "EDT")
          } else {
           Table::row(1320559200, -18000, 0, "EST")
          }
         } else {
          if i < 90 {
           Table::row(1331449200, -18000, 3600, "EDT")
          } else {
           Table::row(1352008800, -18000, 0, "EST")
          }
         }
        } else {
         if i < 93 {
          if i < 92 {
           Table::row(1362898800, -18000, 3600, "EDT")
          } else {
           Table::row(1383458400, -18000, 0, "EST")
          }
         } else {
          if i < 94 {
           Table::row(1394348400, -18000, 3600, "EDT")
          } else {
           if i < 95 {
            Table::row(1414908000, -18000, 0, "EST")
           } else {
            Table::row(1425798000, -18000, 3600, "EDT")
           }
          }
         }
        }
       } else {
        if i < 100 {
         if i < 98 {
          if i < 97 {
           Table::row(1446357600, -18000, 0, "EST")
          } else {
           Table::row(1457852400, -18000, 3600, "EDT")
          }
         } else {
          if i < 99 {
           Table::row(1478412000, -18000, 0, "EST")
          } else {
           Table::row(1489302000, -18000, 3600, "EDT")
          }
         }
        } else {
         if i < 102 {
          if i < 101 {
           Table::row(1509861600, -18000, 0, "EST")
          } else {
           Table::row(1520751600, -18000, 3600, "EDT")
          }
         } else {
          if i < 103 {
           Table::row(1541311200, -18000, 0, "EST")
          } else {
           if i < 104 {
            Table::row(1552201200, -18000, 3600, "EDT")
           } else {
            Table::row(1572760800, -18000, 0, "EST")
           }
          }
         }
        }
       }
      }
     } else {
      if i < 123 {
       if i < 114 {
        if i < 109 {
         if i < 107 {
          if i < 106 {
           Table::row(1583650800, -18000, 3600, "EDT")
          } else {
           Table::row(1604210400, -18000, 0, "EST")
          }
         } else {
          if i < 108 {
           Table::row(1615705200, -18000, 3600, "EDT")
          } else {
           Table::row(1636264800, -18000, 0, "EST")
          }
         }
        } else {
         if i < 111 {
          if i < 110 {
           Table::row(1647154800, -18000, 3600, "EDT")
          } else {
           Table::row(1667714400, -18000, 0, "EST")
          }
         } else {
          if i < 112 {
           Table::row(1678604400, -18000, 3600, "EDT")
          } else {
           if i < 113 {
            Table::row(1699164000, -18000, 0, "EST")
           } else {
            Table::row(1710054000, -18000, 3600, "EDT")
           }
          }
         }
        }
       } else {
        if i < 118 {
         if i < 116 {
          if i < 115 {
           Table::row(1730613600, -18000, 0, "EST")
          } else {
           Table::row(1741503600, -18000, 3600, "EDT")
          }
         } else {
          if i < 117 {
           Table::row(1762063200, -18000, 0, "EST")
          } else {
           Table::row(1772953200, -18000, 3600, "EDT")
          }
         }
        } else {
         if i < 120 {
          if i < 119 {
           Table::row(1793512800, -18000, 0, "EST")
          } else {
           Table::row(1805007600, -18000, 3600, "EDT")
          }
         } else {
          if i < 121 {
           Table::row(1825567200, -18000, 0, "EST")
          } else {
           if i < 122 {
            Table::row(1836457200, -18000, 3600, "EDT")
           } else {
            Table::row(1857016800, -18000, 0, "EST")
           }
          }
         }
        }
       }
      } else {
       if i < 132 {
        if i < 127 {
         if i < 125 {
          if i < 124 {
           Table::row(1867906800, -18000, 3600, "EDT")
          } else {
           Table::row(1888466400, -18000, 0, "EST")
          }
         } else {
          if i < 126 {
           Table::row(1899356400, -18000, 3600, "EDT")
          } else {
           Table::row(1919916000, -18000, 0, "EST")
          }
         }
        } else {
         if i < 129 {
          if i < 128 {
           Table::row(1930806000, -18000, 3600, "EDT")
          } else {
           Table::row(1951365600, -18000, 0, "EST")
          }
         } else {
          if i < 130 {
           Table::row(1962860400, -18000, 3600, "EDT")
          } else {
           if i < 131 {
            Table::row(1983420000, -18000, 0, "EST")
           } else {
            Table::row(1994310000, -18000, 3600, "EDT")
           }
          }
         }
        }
       } else {
        if i < 136 {
         if i < 134 {
          if i < 133 {
           Table::row(2014869600, -18000, 0, "EST")
          } else {
           Table::row(2025759600, -18000, 3600, "EDT")
          }
         } else {
          if i < 135 {
           Table::row(2046319200, -18000, 0, "EST")
          } else {
           Table::row(2057209200, -18000, 3600, "EDT")
          }
         }
        } else {
         if i < 138 {
          if i < 137 {
           Table::row(2077768800, -18000, 0, "EST")
          } else {
           Table::row(2088658800, -18000, 3600, "EDT")
          }
         } else {
          if i < 139 {
           Table::row(2109218400, -18000, 0, "EST")
          } else {
           if i < 140 {
            Table::row(2120108400, -18000, 3600, "EDT")
           } else {
            Table::row(2140668000, -18000, 0, "EST")
           }
          }
         }
        }
       }
      }
     }
    }
}

/// The rows of the table of the zone `US/Michigan`.
pub open spec fn michigan_rows() -> spec_fn(int) -> (i64, FixedTimespan) {
    |i: int| michigan_row(i)
}

/// The table of the zone `US/Michigan`.
pub open spec fn michigan() -> Table {
    Table::listed(Table::row(0, -19931, 0, "LMT").1, 141, michigan_rows())
}

/// Row `i` of the table of the zone `US/Mountain`.
pub open spec fn mountain_row(i: int) -> (i64, FixedTimespan) {
    if i < 79 {
     if i < 39 {
      if i < 19 {
       if i < 9 {
        if i < 4 {
         if i < 2 {
          if i < 1 {
           Table::row(-2717643600, -25200, 0, "MST")
          } else {
           Table::row(-1633273200, -25200, 3600, "MDT")
          }
         } else {
          if i < 3 {
           Table::row(-1615132800, -25200, 0, "MST")
          } else {
           Table::row(-1601823600, -25200, 3600, "MDT")
          }
         }
        } else {
         if i < 6 {
          if i < 5 {
           Table::row(-1583683200, -25200, 0, "MST")
          } else {
           Table::row(-1570374000, -25200, 3600, "MDT")
          }
         } else {
          if i < 7 {
           Table::row(-1551628800, -25200, 0, "MST")
          } else {
           if i < 8 {
            Table::row(-1538924400, -25200, 3600, "MDT")
           } else {
            Table::row(-1534089600, -25200, 0, "MST")
           }
          }
         }
        }
       } else {
        if i < 14 {
         if i < 11 {
          if i < 10 {
           Table::row(-880210800, -25200, 3600, "MWT")
          } else {
           Table::row(-769395600, -25200, 3600, "MPT")
          }
         } else {
          if i < 12 {
           Table::row(-765388800, -25200, 0, "MST")
          } else {
           if i < 13 {
            Table::row(-147884400, -25200, 3600, "MDT")
           } else {
            Table::row(-131558400, -25200, 0, "MST")
           }
          }
         }
        } else {
         if i < 16 {
          if i < 15 {
           Table::row(-116434800, -25200, 3600, "MDT")
          } else {
           Table::row(-100108800, -25200, 0, "MST")
          }
         } else {
          if i < 17 {
           Table::row(-84380400, -25200, 3600, "MDT")
          } else {
           if i < 18 {
            Table::row(-68659200, -25200, 0, "MST")
           } else {
            Table::row(-52930800, -25200, 3600, "MDT")
           }
          }
         }
        }
       }
      } else {
       if i < 29 {
        if i < 24 {
         if i < 21 {
          if i < 20 {
           Table::row(-37209600, -25200, 0, "MST")
          } else {
           Table::row(-21481200, -25200, 3600, "MDT")
          }
         } else {
          if i < 22 {
           Table::row(-5760000, -25200, 0, "MST")
          } else {
           if i < 23 {
            Table::row(9968400, -25200, 3600, "MDT")
           } else {
            Table::row(25689600, -25200, 0, "MST")
           }
          }
         }
        } else {
         if i < 26 {
          if i < 25 {
           Table::row(41418000, -25200, 3600, "MDT")
          } else {
           Table::row(57744000, -25200, 0, "MST")
          }
         } else {
          if i < 27 {
           Table::row(73472400, -25200, 3600, "MDT")
          } else {
           if i < 28 {
            Table::row(89193600, -25200, 0, "MST")
           } else {
            Table::row(104922000, -25200, 3600, "MDT")
           }
          }
         }
        }
       } else {
        if i < 34 {
         if i < 31 {
          if i < 30 {
           Table::row(120643200, -25200, 0, "MST")
          } else {
           Table::row(126694800, -25200, 3600, "MDT")
          }
         } else {
          if i < 32 {
           Table::row(152092800, -25200, 0, "MST")
          } else {
           if i < 33 {
            Table::row(162378000, -25200, 3600, "MDT")
           } else {
            Table::row(183542400, -25200, 0, "MST")
           }
          }
         }
        } else {
         if i < 36 {
          if i < 35 {
           Table::row(199270800, -25200, 3600, "MDT")
          } else {
           Table::row(215596800, -25200, 0, "MST")
          }
         } else {
          if i < 37 {
           Table::row(230720400, -25200, 3600, "MDT")
          } else {
           if i < 38 {
            Table::row(247046400, -25200, 0, "MST")
           } else {
            Table::row(262774800, -25200, 3600, "MDT")
           }
          }
         }
        }
       }
      }
     } else {
      if i < 59 {
       if i < 49 {
        if i < 44 {
         if i < 41 {
          if i < 40 {
           Table::row(278496000, -25200, 0, "MST")
          } else {
           Table::row(294224400, -25200, 3600, "MDT")
          }
         } else {
          if i < 42 {
           Table::row(309945600, -25200, 0, "MST")
          } else {
           if i < 43 {
            Table::row(325674000, -25200, 3600, "MDT")
           } else {
            Table::row(341395200, -25200, 0, "MST")
           }
          }
         }
        } else {
         if i < 46 {
          if i < 45 {
           Table::row(357123600, -25200, 3600, "MDT")
          } else {
           Table::row(372844800, -25200, 0, "MST")
          }
         } else {
          if i < 47 {
           Table::row(388573200, -25200, 3600, "MDT")
          } else {
           if i < 48 {
            Table::row(404899200, -25200, 0, "MST")
           } else {
            Table::row(420022800, -25200, 3600, "MDT")
           }
          }
         }
        }
       } else {
        if i < 54 {
         if i < 51 {
          if i < 50 {
           Table::row(436348800, -25200, 0, "MST")
          } else {
           Table::row(452077200, -25200, 3600, "MDT")
          }
         } else {
          if i < 52 {
           Table::row(467798400, -25200, 0, "MST")
          } else {
           if i < 53 {
            Table::row(483526800, -25200, 3600, "MDT")
           } else {
            Table::row(499248000, -25200, 0, "MST")
           }
          }
         }
        } else {
         if i < 56 {
          if i < 55 {
           Table::row(514976400, -25200, 3600, "MDT")
          } else {
           Table::row(530697600, -25200, 0, "MST")
          }
         } else {
          if i < 57 {
           Table::row(544611600, -25200, 3600, "MDT")
          } else {
           if i < 58 {
            Table::row(562147200, -25200, 0, "MST")
           } else {
            Table::row(576061200, -25200, 3600, "MDT")
           }
          }
         }
        }
       }
      } else {
       if i < 69 {
        if i < 64 {
         if i < 61 {
          if i < 60 {
           Table::row(594201600, -25200, 0, "MST")
          } else {
           Table::row(607510800, -25200, 3600, "MDT")
          }
         } else {
          if i < 62 {
           Table::row(625651200, -25200, 0, "MST")
          } else {
           if i < 63 {
            Table::row(638960400, -25200, 3600, "MDT")
           } else {
            Table::row(657100800, -25200, 0, "MST")
           }
          }
         }
        } else {
         if i < 66 {
          if i < 65 {
           Table::row(671014800, -25200, 3600, "MDT")
          } else {
           Table::row(688550400, -25200, 0, "MST")
          }
         } else {
          if i < 67 {
           Table::row(702464400, -25200, 3600, "MDT")
          } else {
           if i < 68 {
            Table::row(720000000, -25200, 0, "MST")
           } else {
            Table::row(733914000, -25200, 3600, "MDT")
           }
          }
         }
        }
       } else {
        if i < 74 {
         if i < 71 {
          if i < 70 {
           Table::row(752054400, -25200, 0, "MST")
          } else {
           Table::row(765363600, -25200, 3600, "MDT")
          }
         } else {
          if i < 72 {
           Table::row(783504000, -25200, 0, "MST")
          } else {
           if i < 73 {
            Table::row(796813200, -25200, 3600, "MDT")
           } else {
            Table::row(814953600, -25200, 0, "MST")
           }
          }
         }
        } else {
         if i < 76 {
          if i < 75 {
           Table::row(828867600, -25200, 3600, "MDT")
          } else {
           Table::row(846403200, -25200, 0, "MST")
          }
         } else {
          if i < 77 {
           Table::row(860317200, -25200, 3600, "MDT")
          } else {
           if i < 78 {
            Table::row(877852800, -25200, 0, "MST")
           } else {
            Table::row(891766800, -25200, 3600, "MDT")
           }
          }
         }
        }
       }
      }
     }
    } else {
     if i < 118 {
      if i < 98 {
       if i < 88 {
        if i < 83 {
         if i < 81 {
          if i < 80 {
           Table::row(909302400, -25200, 0, "MST")
          } else {
           Table::row(923216400, -25200, 3600, "MDT")
          }
         } else {
          if i < 82 {
           Table::row(941356800, -25200, 0, "MST")
          } else {
           Table::row(954666000, -25200, 3600, "MDT")
          }
         }
        } else {
         if i < 85 {
          if i < 84 {
           Table::row(972806400, -25200, 0, "MST")
          } else {
           Table::row(986115600, -25200, 3600, "MDT")
          }
         } else {
          if i < 86 {
           Table::row(1004256000, -25200, 0, "MST")
          } else {
           if i < 87 {
            Table::row(1018170000, -25200, 3600, "MDT")
           } else {
            Table::row(1035705600, -25200, 0, "MST")
           }
          }
         }
        }
       } else {
        if i < 93 {
         if i < 90 {
          if i < 89 {
           Table::row(1049619600, -25200, 3600, "MDT")
          } else {
           Table::row(1067155200, -25200, 0, "MST")
          }
         } else {
          if i < 91 {
           Table::row(1081069200, -25200, 3600, "MDT")
          } else {
           if i < 92 {
            Table::row(1099209600, -25200, 0, "MST")
           } else {
            Table::row(1112518800, -25200, 3600, "MDT")
           }
          }
         }
        } else {
         if i < 95 {
          if i < 94 {
           Table::row(1130659200, -25200, 0, "MST")
          } else {
           Table::row(1143968400, -25200, 3600, "MDT")
          }
         } else {
          if i < 96 {
           Table::row(1162108800, -25200, 0, "MST")
          } else {
           if i < 97 {
            Table::row(1173603600, -25200, 3600, "MDT")
           } else {
            Table::row(1194163200, -25200, 0, "MST")
           }
          }
         }
        }
       }
      } else {
       if i < 108 {
        if i < 103 {
         if i < 100 {
          if i < 99 {
           Table::row(1205053200, -25200, 3600, "MDT")
          } else {
           Table::row(1225612800, -25200, 0, "MST")
          }
         } else {
          if i < 101 {
           Table::row(1236502800, -25200, 3600, "MDT")
          } else {
           if i < 102 {
            Table::row(1257062400, -25200, 0, "MST")
           } else {
            Table::row(1268557200, -25200, 3600, "MDT")
           }
          }
         }
        } else {
         if i < 105 {
          if i < 104 {
           Table::row(1289116800, -25200, 0, "MST")
          } else {
           Table::row(1300006800, -25200, 3600, "MDT")
          }
         } else {
          if i < 106 {
           Table::row(1320566400, -25200, 0, "MST")
          } else {
           if i < 107 {
            Table::row(1331456400, -25200, 3600, "MDT")
           } else {
            Table::row(1352016000, -25200, 0, "MST")
           }
          }
         }
        }
       } else {
        if i < 113 {
         if i < 110 {
          if i < 109 {
           Table::row(1362906000, -25200, 3600, "MDT")
          } else {
           Table::row(1383465600, -25200, 0, "MST")
          }
         } else {
          if i < 111 {
           Table::row(1394355600, -25200, 3600, "MDT")
          } else {
           if i < 112 {
            Table::row(1414915200, -25200, 0, "MST")
           } else {
            Table::row(1425805200, -25200, 3600, "MDT")
           }
          }
         }
        } else {
         if i < 115 {
          if i < 114 {
           Table::row(1446364800, -25200, 0, "MST")
          } else {
           Table::row(1457859600, -25200, 3600, "MDT")
          }
         } else {
          if i < 116 {
           Table::row(1478419200, -25200, 0, "MST")
          } else {
           if i < 117 {
            Table::row(1489309200, -25200, 3600, "MDT")
           } else {
            Table::row(1509868800, -25200, 0, "MST")
           }
          }
         }
        }
       }
      }
     } else {
      if i < 138 {
       if i < 128 {
        if i < 123 {
         if i < 120 {
          if i < 119 {
           Table::row(1520758800, -25200, 3600, "MDT")
          } else {
           Table::row(1541318400, -25200, 0, "MST")
          }
         } else {
          if i < 121 {
           Table::row(1552208400, -25200, 3600, "MDT")
          } else {
           if i < 122 {
            Table::row(1572768000, -25200, 0, "MST")
           } else {
            Table::row(1583658000, -25200, 3600, "MDT")
           }
          }
         }
        } else {
         if i < 125 {
          if i < 124 {
           Table::row(1604217600, -25200, 0, "MST")
          } else {
           Table::row(1615712400, -25200, 3600, "MDT")
          }
         } else {
          if i < 126 {
           Table::row(1636272000, -25200, 0, "MST")
          } else {
           if i < 127 {
            Table::row(1647162000, -25200, 3600, "MDT")
           } else {
            Table::row(1667721600, -25200, 0, "MST")
           }
          }
         }
        }
       } else {
        if i < 133 {
         if i < 130 {
          if i < 129 {
           Table::row(1678611600, -25200, 3600, "MDT")
          } else {
           Table::row(1699171200, -25200, 0, "MST")
          }
         } else {
          if i < 131 {
           Table::row(1710061200, -25200, 3600, "MDT")
          } else {
           if i < 132 {
            Table::row(1730620800, -25200, 0, "MST")
           } else {
            Table::row(1741510800, -25200, 3600, "MDT")
           }
          }
         }
        } else {
         if i < 135 {
          if i < 134 {
           Table::row(1762070400, -25200, 0, "MST")
          } else {
           Table::row(1772960400, -25200, 3600, "MDT")
          }
         } else {
          if i < 136 {
           Table::row(1793520000, -25200, 0, "MST")
          } else {
           if i < 137 {
            Table::row(1805014800, -25200, 3600, "MDT")
           } else {
            Table::row(1825574400, -25200, 0, "MST")
           }
          }
         }
        }
       }
      } else {
       if i < 148 {
        if i < 143 {
         if i < 140 {
          if i < 139 {
           Table::row(1836464400, -25200, 3600, "MDT")
          } else {
           Table::row(1857024000, -25200, 0, "MST")
          }
         } else {
          if i < 141 {
           Table::row(1867914000, -25200, 3600, "MDT")
          } else {
           if i < 142 {
            Table::row(1888473600, -25200, 0, "MST")
           } else {
            Table::row(1899363600, -25200, 3600, "MDT")
           }
          }
         }
        } else {
         if i < 145 {
          if i < 144 {
           Table::row(1919923200, -25200, 0, "MST")
          } else {
           Table::row(1930813200, -25200, 3600, "MDT")
          }
         } else {
          if i < 146 {
           Table::row(1951372800, -25200, 0, "MST")
          } else {
           if i < 147 {
            Table::row(1962867600, -25200, 3600, "MDT")
           } else {
            Table::row(1983427200, -25200, 0, "MST")
           }
          }
         }
        }
       } else {
        if i < 153 {
         if i < 150 {
          if i < 149 {
           Table::row(1994317200, -25200, 3600, "MDT")
          } else {
           Table::row(2014876800, -25200, 0, "MST")
          }
         } else {
          if i < 151 {
           Table::row(2025766800, -25200, 3600, "MDT")
          } else {
           if i < 152 {
            Table::row(2046326400, -25200, 0, "MST")
           } else {
            Table::row(2057216400, -25200, 3600, "MDT")
           }
          }
         }
        } else {
         if i < 155 {
          if i < 154 {
           Table::row(2077776000, -25200, 0, "MST")
          } else {
           Table::row(2088666000, -25200, 3600, "MDT")
          }
         } else {
          if i < 156 {
           Table::row(2109225600, -25200, 0, "MST")
          } else {
           if i < 157 {
            Table::row(2120115600, -25200, 3600, "MDT")
           } else {
            Table::row(2140675200, -25200, 0, "MST")
           }
          }
         }
        }
       }
      }
     }
    }
}

/// The rows of the table of the zone `US/Mountain`.
pub open spec fn mountain_rows() -> spec_fn(int) -> (i64, FixedTimespan) {
    |i: int| mountain_row(i)
}

/// The table of the zone `US/Mountain`.
pub open spec fn mountain() -> Table {
    Table::listed(Table::row(0, -25196, 0, "LMT").1, 158, mountain_rows())
}

/// Row `i` of the table of the zone `US/Pacific`.
pub open spec fn pacific_row(i: int) -> (i64, FixedTimespan) {
    if i < 93 {
     if i < 46 {
      if i < 23 {
       if i < 11 {
        if i < 5 {
         if i < 2 {
          if i < 1 {
           Table::row(-2717640000, -28800, 0, "PST")
          } else {
           Table::row(-1633269600, -28800, 3600, "PDT")
          }
         } else {
          if i < 3 {
           Table::row(-1615129200, -28800, 0, "PST")
          } else {
           if i < 4 {
            Table::row(-1601820000, -28800, 3600, "PDT")
           } else {
            Table::row(-1583679600, -28800, 0, "PST")
           }
          }
         }
        } else {
         if i < 8 {
          if i < 6 {
           Table::row(-880207200, -28800, 3600, "PWT")
          } else {
           if i < 7 {
            Table::row(-769395600, -28800, 3600, "PPT")
           } else {
            Table::row(-765385200, -28800, 0, "PST")
           }
          }
         } else {
          if i < 9 {
           Table::row(-687967140, -28800, 3600, "PDT")
          } else {
           if i < 10 {
            Table::row(-662655600, -28800, 0, "PST")
           } else {
            Table::row(-620838000, -28800, 3600, "PDT")
           }
          }
         }
        }
       } else {
        if i < 17 {
         if i < 14 {
          if i < 12 {
           Table::row(-608137200, -28800, 0, "PST")
          } else {
           if i < 13 {
            Table::row(-589388400, -28800, 3600, "PDT")
           } else {
            Table::row(-576082800, -28800, 0, "PST")
           }
          }
         } else {
          if i < 15 {
           Table::row(-557938800, -28800, 3600, "PDT")
          } else {
           if i < 16 {
            Table::row(-544633200, -28800, 0, "PST")
           } else {
            Table::row(-526489200, -28800, 3600, "PDT")
           }
          }
         }
        } else {
         if i < 20 {
          if i < 18 {
           Table::row(-513183600, -28800, 0, "PST")
          } else {
           if i < 19 {
            Table::row(-495039600, -28800, 3600, "PDT")
           } else {
            Table::row(-481734000, -28800, 0, "PST")
           }
          }
         } else {
          if i < 21 {
           Table::row(-463590000, -28800, 3600, "PDT")
          } else {
           if i < 22 {
            Table::row(-450284400, -28800, 0, "PST")
           } else {
            Table::row(-431535600, -28800, 3600, "PDT")
           }
          }
         }
        }
       }
      } else {
       if i < 34 {
        if i < 28 {
         if i < 25 {
          if i < 24 {
           Table::row(-418230000, -28800, 0, "PST")
          } else {
           Table::row(-400086000, -28800, 3600, "PDT")
          }
         } else {
          if i < 26 {
           Table::row(-386780400, -28800, 0, "PST")
          } else {
           if i < 27 {
            Table::row(-368636400, -28800, 3600, "PDT")
           } else {
            Table::row(-355330800, -28800, 0, "PST")
           }
          }
         }
        } else {
         if i < 31 {
          if i < 29 {
           Table::row(-337186800, -28800, 3600, "PDT")
          } else {
           if i < 30 {
            Table::row(-323881200, -28800, 0, "PST")
           } else {
            Table::row(-305737200, -28800, 3600, "PDT")
           }
          }
         } else {
          if i < 32 {
           Table::row(-292431600, -28800, 0, "PST")
          } else {
           if i < 33 {
            Table::row(-273682800, -28800, 3600, "PDT")
           } else {
            Table::row(-260982000, -28800, 0, "PST")
           }
          }
         }
        }
       } else {
        if i < 40 {
         if i < 37 {
          if i < 35 {
           Table::row(-242233200, -28800, 3600, "PDT")
          } else {
           if i < 36 {
            Table::row(-226508400, -28800, 0, "PST")
           } else {
            Table::row(-210783600, -28800, 3600, "PDT")
           }
          }
         } else {
          if i < 38 {
           Table::row(-195058800, -28800, 0, "PST")
          } else {
           if i < 39 {
            Table::row(-179334000, -28800, 3600, "PDT")
           } else {
            Table::row(-163609200, -28800, 0, "PST")
           }
          }
         }
        } else {
         if i < 43 {
          if i < 41 {
           Table::row(-147884400, -28800, 3600, "PDT")
          } else {
           if i < 42 {
            Table::row(-131554800, -28800, 0, "PST")
           } else {
            Table::row(-116434800, -28800, 3600, "PDT")
           }
          }
         } else {
          if i < 44 {
           Table::row(-100105200, -28800, 0, "PST")
          } else {
           if i < 45 {
            Table::row(-84376800, -28800, 3600, "PDT")
           } else {
            Table::row(-68655600, -28800, 0, "PST")
           }
          }
         }
        }
       }
      }
     } else {
      if i < 69 {
       if i < 57 {
        if i < 51 {
         if i < 48 {
          if i < 47 {
           Table::row(-52927200, -28800, 3600, "PDT")
          } else {
           Table::row(-37206000, -28800, 0, "PST")
          }
         } else {
          if i < 49 {
           Table::row(-21477600, -28800, 3600, "PDT")
          } else {
           if i < 50 {
            Table::row(-5756400, -28800, 0, "PST")
           } else {
            Table::row(9972000, -28800, 3600, "PDT")
           }
          }
         }
        } else {
         if i < 54 {
          if i < 52 {
           Table::row(25693200, -28800, 0, "PST")
          } else {
           if i < 53 {
            Table::row(41421600, -28800, 3600, "PDT")
           } else {
            Table::row(57747600, -28800, 0, "PST")
           }
          }
         } else {
          if i < 55 {
           Table::row(73476000, -28800, 3600, "PDT")
          } else {
           if i < 56 {
            Table::row(89197200, -28800, 0, "PST")
           } else {
            Table::row(104925600, -28800, 3600, "PDT")
           }
          }
         }
        }
       } else {
        if i < 63 {
         if i < 60 {
          if i < 58 {
           Table::row(120646800, -28800, 0, "PST")
          } else {
           if i < 59 {
            Table::row(126698400, -28800, 3600, "PDT")
           } else {
            Table::row(152096400, -28800, 0, "PST")
           }
          }
         } else {
          if i < 61 {
           Table::row(162381600, -28800, 3600, "PDT")
          } else {
           if i < 62 {
            Table::row(183546000, -28800, 0, "PST")
           } else {
            Table::row(199274400, -28800, 3600, "PDT")
           }
          }
         }
        } else {
         if i < 66 {
          if i < 64 {
           Table::row(215600400, -28800, 0, "PST")
          } else {
           if i < 65 {
            Table::row(230724000, -28800, 3600, "PDT")
           } else {
            Table::row(247050000, -28800, 0, "PST")
           }
          }
         } else {
          if i < 67 {
           Table::row(262778400, -28800, 3600, "PDT")
          } else {
           if i < 68 {
            Table::row(278499600, -28800, 0, "PST")
           } else {
            Table::row(294228000, -28800, 3600, "PDT")
           }
          }
         }
        }
       }
      } else {
       if i < 81 {
        if i < 75 {
         if i < 72 {
          if i < 70 {
           Table::row(309949200, -28800, 0, "PST")
          } else {
           if i < 71 {
            Table::row(325677600, -28800, 3600, "PDT")
           } else {
            Table::row(341398800, -28800, 0, "PST")
           }
          }
         } else {
          if i < 73 {
           Table::row(357127200, -28800, 3600, "PDT")
          } else {
           if i < 74 {
            Table::row(372848400, -28800, 0, "PST")
           } else {
            Table::row(388576800, -28800, 3600, "PDT")
           }
          }
         }
        } else {
         if i < 78 {
          if i < 76 {
           Table::row(404902800, -28800, 0, "PST")
          } else {
           if i < 77 {
            Table::row(420026400, -28800, 3600, "PDT")
           } else {
            Table::row(436352400, -28800, 0, "PST")
           }
          }
         } else {
          if i < 79 {
           Table::row(452080800, -28800, 3600, "PDT")
          } else {
           if i < 80 {
            Table::row(467802000, -28800, 0, "PST")
           } else {
            Table::row(483530400, -28800, 3600, "PDT")
           }
          }
         }
        }
       } else {
        if i < 87 {
         if i < 84 {
          if i < 82 {
           Table::row(499251600, -28800, 0, "PST")
          } else {
           if i < 83 {
            Table::row(514980000, -28800, 3600, "PDT")
           } else {
            Table::row(530701200, -28800, 0, "PST")
           }
          }
         } else {
          if i < 85 {
           Table::row(544615200, -28800, 3600, "PDT")
          } else {
           if i < 86 {
            Table::row(562150800, -28800, 0, "PST")
           } else {
            Table::row(576064800, -28800, 3600, "PDT")
           }
          }
         }
        } else {
         if i < 90 {
          if i < 88 {
           Table::row(594205200, -28800, 0, "PST")
          } else {
           if i < 89 {
            Table::row(607514400, -28800, 3600, "PDT")
           } else {
            Table::row(625654800, -28800, 0, "PST")
           }
          }
         } else {
          if i < 91 {
           Table::row(638964000, -28800, 3600, "PDT")
          } else {
           if i < 92 {
            Table::row(657104400, -28800, 0, "PST")
           } else {
            Table::row(671018400, -28800, 3600, "PDT")
           }
          }
         }
        }
       }
      }
     }
    } else {
     if i < 139 {
      if i < 116 {
       if i < 104 {
        if i < 98 {
         if i < 95 {
          if i < 94 {
           Table::row(688554000, -28800, 0, "PST")
          } else {
           Table::row(702468000, -28800, 3600, "PDT")
          }
         } else {
          if i < 96 {
           Table::row(720003600, -28800, 0, "PST")
          } else {
           if i < 97 {
            Table::row(733917600, -28800, 3600, "PDT")
           } else {
            Table::row(752058000, -28800, 0, "PST")
           }
          }
         }
        } else {
         if i < 101 {
          if i < 99 {
           Table::row(765367200, -28800, 3600, "PDT")
          } else {
           if i < 100 {
            Table::row(783507600, -28800, 0, "PST")
           } else {
            Table::row(796816800, -28800, 3600, "PDT")
           }
          }
         } else {
          if i < 102 {
           Table::row(814957200, -28800, 0, "PST")
          } else {
           if i < 103 {
            Table::row(828871200, -28800, 3600, "PDT")
           } else {
            Table::row(846406800, -28800, 0, "PST")
           }
          }
         }
        }
       } else {
        if i < 110 {
         if i < 107 {
          if i < 105 {
           Table::row(860320800, -28800, 3600, "PDT")
          } else {
           if i < 106 {
            Table::row(877856400, -28800, 0, "PST")
           } else {
            Table::row(891770400, -28800, 3600, "PDT")
           }
          }
         } else {
          if i < 108 {
           Table::row(909306000, -28800, 0, "PST")
          } else {
           if i < 109 {
            Table::row(923220000, -28800, 3600, "PDT")
           } else {
            Table::row(941360400, -28800, 0, "PST")
           }
          }
         }
        } else {
         if i < 113 {
          if i < 111 {
           Table::row(954669600, -28800, 3600, "PDT")
          } else {
           if i < 112 {
            Table::row(972810000, -28800, 0, "PST")
           } else {
            Table::row(986119200, -28800, 3600, "PDT")
           }
          }
         } else {
          if i < 114 {
           Table::row(1004259600, -28800, 0, "PST")
          } else {
           if i < 115 {
            Table::row(1018173600, -28800, 3600, "PDT")
           } else {
            Table::row(1035709200, -28800, 0, "PST")
           }
          }
         }
        }
       }
      } else {
       if i < 127 {
        if i < 121 {
         if i < 118 {
          if i < 117 {
           Table::row(1049623200, -28800, 3600, "PDT")
          } else {
           Table::row(1067158800, -28800, 0, "PST")
          }
         } else {
          if i < 119 {
           Table::row(1081072800, -28800, 3600, "PDT")
          } else {
           if i < 120 {
            Table::row(1099213200, -28800, 0, "PST")
           } else {
            Table::row(1112522400, -28800, 3600, "PDT")
           }
          }
         }
        } else {
         if i < 124 {
          if i < 122 {
           Table::row(1130662800, -28800, 0, "PST")
          } else {
           if i < 123 {
            Table::row(1143972000, -28800, 3600, "PDT")
           } else {
            Table::row(1162112400, -28800, 0, "PST")
           }
          }
         } else {
          if i < 125 {
           Table::row(1173607200, -28800, 3600, "PDT")
          } else {
           if i < 126 {
            Table::row(1194166800, -28800, 0, "PST")
           } else {
            Table::row(1205056800, -28800, 3600, "PDT")
           }
          }
         }
        }
       } else {
        if i < 133 {
         if i < 130 {
          if i < 128 {
           Table::row(1225616400, -28800, 0, "PST")
          } else {
           if i < 129 {
            Table::row(1236506400, -28800, 3600, "PDT")
           } else {
            Table::row(1257066000, -28800, 0, "PST")
           }
          }
         } else {
          if i < 131 {
           Table::row(1268560800, -28800, 3600, "PDT")
          } else {
           if i < 132 {
            Table::row(1289120400, -28800, 0, "PST")
           } else {
            Table::row(1300010400, -28800, 3600, "PDT")
           }
          }
         }
        } else {
         if i < 136 {
          if i < 134 {
           Table::row(1320570000, -28800, 0, "PST")
          } else {
           if i < 135 {
            Table::row(1331460000, -28800, 3600, "PDT")
           } else {
            Table::row(1352019600, -28800, 0, "PST")
           }
          }
         } else {
          if i < 137 {
           Table::row(1362909600, -28800, 3600, "PDT")
          } else {
           if i < 138 {
            Table::row(1383469200, -28800, 0, "PST")
           } else {
            Table::row(1394359200, -28800, 3600, "PDT")
           }
          }
         }
        }
       }
      }
     } else {
      if i < 162 {
       if i < 150 {
        if i < 144 {
         if i < 141 {
          if i < 140 {
           Table::row(1414918800, -28800, 0, "PST")
          } else {
           Table::row(1425808800, -28800, 3600, "PDT")
          }
         } else {
          if i < 142 {
           Table::row(1446368400, -28800, 0, "PST")
          } else {
           if i < 143 {
            Table::row(1457863200, -28800, 3600, "PDT")
           } else {
            Table::row(1478422800, -28800, 0, "PST")
           }
          }
         }
        } else {
         if i < 147 {
          if i < 145 {
           Table::row(1489312800, -28800, 3600, "PDT")
          } else {
           if i < 146 {
            Table::row(1509872400, -28800, 0, "PST")
           } else {
            Table::row(1520762400, -28800, 3600, "PDT")
           }
          }
         } else {
          if i < 148 {
           Table::row(1541322000, -28800, 0, "PST")
          } else {
           if i < 149 {
            Table::row(1552212000, -28800, 3600, "PDT")
           } else {
            Table::row(1572771600, -28800, 0, "PST")
           }
          }
         }
        }
       } else {
        if i < 156 {
         if i < 153 {
          if i < 151 {
           Table::row(1583661600, -28800, 3600, "PDT")
          } else {
           if i < 152 {
            Table::row(1604221200, -28800, 0, "PST")
           } else {
            Table::row(1615716000, -28800, 3600, "PDT")
           }
          }
         } else {
          if i < 154 {
           Table::row(1636275600, -28800, 0, "PST")
          } else {
           if i < 155 {
            Table::row(1647165600, -28800, 3600, "PDT")
           } else {
            Table::row(1667725200, -28800, 0, "PST")
           }
          }
         }
        } else {
         if i < 159 {
          if i < 157 {
           Table::row(1678615200, -28800, 3600, "PDT")
          } else {
           if i < 158 {
            Table::row(1699174800, -28800, 0, "PST")
           } else {
            Table::row(1710064800, -28800, 3600, "PDT")
           }
          }
         } else {
          if i < 160 {
           Table::row(1730624400, -28800, 0, "PST")
          } else {
           if i < 161 {
            Table::row(1741514400, -28800, 3600, "PDT")
           } else {
            Table::row(1762074000, -28800, 0, "PST")
           }
          }
         }
        }
       }
      } else {
       if i < 174 {
        if i < 168 {
         if i < 165 {
          if i < 163 {
           Table::row(1772964000, -28800, 3600, "PDT")
          } else {
           if i < 164 {
            Table::row(1793523600, -28800, 0, "PST")
           } else {
            Table::row(1805018400, -28800, 3600, "PDT")
           }
          }
         } else {
          if i < 166 {
           Table::row(1825578000, -28800, 0, "PST")
          } else {
           if i < 167 {
            Table::row(1836468000, -28800, 3600, "PDT")
           } else {
            Table::row(1857027600, -28800, 0, "PST")
           }
          }
         }
        } else {
         if i < 171 {
          if i < 169 {
           Table::row(1867917600, -28800, 3600, "PDT")
          } else {
           if i < 170 {
            Table::row(1888477200, -28800, 0, "PST")
           } else {
            Table::row(1899367200, -28800, 3600, "PDT")
           }
          }
         } else {
          if i < 172 {
           Table::row(1919926800, -28800, 0, "PST")
          } else {
           if i < 173 {
            Table::row(1930816800, -28800, 3600, "PDT")
           } else {
            Table::row(1951376400, -28800, 0, "PST")
           }
          }
         }
        }
       } else {
        if i < 180 {
         if i < 177 {
          if i < 175 {
           Table::row(1962871200, -28800, 3600, "PDT")
          } else {
           if i < 176 {
            Table::row(1983430800, -28800, 0, "PST")
           } else {
            Table::row(1994320800, -28800, 3600, "PDT")
           }
          }
         } else {
          if i < 178 {
           Table::row(2014880400, -28800, 0, "PST")
          } else {
           if i < 179 {
            Table::row(2025770400, -28800, 3600, "PDT")
           } else {
            Table::row(2046330000, -28800, 0, "PST")
           }
          }
         }
        } else {
         if i < 183 {
          if i < 181 {
           Table::row(2057220000, -28800, 3600, "PDT")
          } else {
           if i < 182 {
            Table::row(2077779600, -28800, 0, "PST")
           } else {
            Table::row(2088669600, -28800, 3600, "PDT")
           }
          }
         } else {
          if i < 184 {
           Table::row(2109229200, -28800, 0, "PST")
          } else {
           if i < 185 {
            Table::row(2120119200, -28800, 3600, "PDT")
           } else {
            Table::row(2140678800, -28800, 0, "PST")
           }
          }
         }
        }
       }
      }
     }
    }
}

/// The rows of the table of the zone `US/Pacific`.
pub open spec fn pacific_rows() -> spec_fn(int) -> (i64, FixedTimespan) {
    |i: int| pacific_row(i)
}

/// The table of the zone `US/Pacific`.
pub open spec fn pacific() -> Table {
    Table::listed(Table::row(0, -28378, 0, "LMT").1, 186, pacific_rows())
}

/// Row `i` of the table of the zone `US/Samoa`.
pub open spec fn samoa_row(i: int) -> (i64, FixedTimespan) {
    if i < 1 {
     Table::row(-2445424632, -40968, 0, "LMT")
    } else {
     Table::row(-1861879032, -39600, 0, "SST")
    }
}

/// The rows of the table of the zone `US/Samoa`.
pub open spec fn samoa_rows() -> spec_fn(int) -> (i64, FixedTimespan) {
    |i: int| samoa_row(i)
}

/// The table of the zone `US/Samoa`.
pub open spec fn samoa() -> Table {
    Table::listed(Table::row(0, 45432, 0, "LMT").1, 2, samoa_rows())
}

} // verus!
