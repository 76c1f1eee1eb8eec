//! The tables of the zones of the Pacific.

use crate::timezone_impl::{FixedTimespan, Table};
use vstd::prelude::*;

verus! {

/// Row `i` of the table of the zone `Pacific/Apia`.
pub open spec fn apia_row(i: int) -> (i64, FixedTimespan) {
    if i < 13 {
     if i < 6 {
      if i < 3 {
       if i < 1 {
        Table::row(-2445424384, -41216, 0, "LMT")
       } else {
        if i < 2 {
         Table::row(-1861878784, -41400, 0, "-1130")
        } else {
         Table::row(-631110600, -39600, 0, "-11")
        }
       }
      } else {
       if i < 4 {
        Table::row(1285498800, -39600, 3600, "-10")
       } else {
        if i < 5 {
         Table::row(1301752800, -39600, 0, "-11")
        } else {
         Table::row(1316872800, -39600, 3600, "-10")
        }
       }
      }
     } else {
      if i < 9 {
       if i < 7 {
        Table::row(1325239200, -39600, 90000, "+14")
       } else {
        if i < 8 {
         Table::row(1333202400, 46800, 0, "+13")
        } else {
         Table::row(1348927200, 46800, 3600, "+14")
        }
       }
      } else {
       if i < 11 {
        if i < 10 {
         Table::row(1365256800, 46800, 0, "+13")
        } else {
         Table::row(1380376800, 46800, 3600, "+14")
        }
       } else {
        if i < 12 {
         Table::row(1396706400, 46800, 0, "+13")
        } else {
         Table::row(1411826400, 46800, 3600, "+14")
        }
       }
      }
     }
    } else {
     if i < 20 {
      if i < 16 {
       if i < 14 {
        Table::row(1428156000, 46800, 0, "+13")
       } else {
        if i < 15 {
         Table::row(1443276000, 46800, 3600, "+14")
        } else {
         Table::row(1459605600, 46800, 0, "+13")
        }
       }
      } else {
       if i < 18 {
        if i < 17 {
         Table::row(1474725600, 46800, 3600, "+14")
        } else {
         Table::row(1491055200, 46800, 0, "+13")
        }
       } else {
        if i < 19 {
         Table::row(1506175200, 46800, 3600, "+14")
        } else {
         Table::row(1522504800, 46800, 0, "+13")
        }
       }
      }
     } else {
      if i < 23 {
       if i < 21 {
        Table::row(1538229600, 46800, 3600, "+14")
       } else {
        if i < 22 {
         Table::row(1554559200, 46800, 0, "+13")
        } else {
         Table::row(1569679200, 46800, 3600, "+14")
        }
       }
      } else {
       if i < 25 {
        if i < 24 {
         Table::row(1586008800, 46800, 0, "+13")
        } else {
         Table::row(1601128800, 46800, 3600, "+14")
        }
       } else {
        if i < 26 {
         Table::row(1617458400, 46800, 0, "+13")
        } else {
         Table::row(2147483647, 46800, 0, "+13")
        }
       }
      }
     }
    }
}

/// The rows of the table of the zone `Pacific/Apia`.
pub open spec fn apia_rows() -> spec_fn(int) -> (i64, FixedTimespan) {
    |i: int| apia_row(i)
}

/// The table of the zone `Pacific/Apia`.
pub open spec fn apia() -> Table {
    Table::listed(Table::row(0, 45184, 0, "LMT").1, 27, apia_rows())
}

/// Row `i` of the table of the zone `Pacific/Auckland`.
pub open spec fn auckland_row(i: int) -> (i64, FixedTimespan) {
    if i < 78 {
     if i < 39 {
      if i < 19 {
       if i < 9 {
        if i < 4 {
         if i < 2 {
          if i < 1 {
           Table::row(-3192435544, 41400, 0, "NZMT")
          } else {
           Table::row(-1330335000, 41400, 3600, "NZST")
          }
         } else {
          if i < 3 {
           Table::row(-1320057000, 41400, 0, "NZMT")
          } else {
           Table::row(-1300699800, 41400, 1800, "NZST")
          }
         }
        } else {
         if i < 6 {
          if i < 5 {
           Table::row(-1287396000, 41400, 0, "NZMT")
          } else {
           Table::row(-1269250200, 41400, 1800, "NZST")
          }
         } else {
          if i < 7 {
           Table::row(-1255946400, 41400, 0, "NZMT")
          } else {
           if i < 8 {
            Table::row(-1237800600, 41400, 1800, "NZST")
           } else {
            Table::row(-1224496800, 41400, 0, "NZMT")
           }
          }
         }
        }
       } else {
        if i < 14 {
         if i < 11 {
          if i < 10 {
           Table::row(-1206351000, 41400, 1800, "NZST")
          } else {
           Table::row(-1192442400, 41400, 0, "NZMT")
          }
         } else {
          if i < 12 {
           Table::row(-1174901400, 41400, 1800, "NZST")
          } else {
           if i < 13 {
            Table::row(-1160992800, 41400, 0, "NZMT")
           } else {
            Table::row(-1143451800, 41400, 1800, "NZST")
           }
          }
         }
        } else {
         if i < 16 {
          if i < 15 {
           Table::row(-1125914400, 41400, 0, "NZMT")
          } else {
           Table::row(-1112607000, 41400, 1800, "NZST")
          }
         } else {
          if i < 17 {
           Table::row(-1094464800, 41400, 0, "NZMT")
          } else {
           if i < 18 {
            Table::row(-1081157400, 41400, 1800, "NZST")
           } else {
            Table::row(-1063015200, 41400, 0, "NZMT")
           }
          }
         }
        }
       }
      } else {
       if i < 29 {
        if i < 24 {
         if i < 21 {
          if i < 20 {
           Table::row(-1049707800, 41400, 1800, "NZST")
          } else {
           Table::row(-1031565600, 41400, 0, "NZMT")
          }
         } else {
          if i < 22 {
           Table::row(-1018258200, 41400, 1800, "NZST")
          } else {
           if i < 23 {
            Table::row(-1000116000, 41400, 0, "NZMT")
           } else {
            Table::row(-986808600, 41400, 1800, "NZST")
           }
          }
         }
        } else {
         if i < 26 {
          if i < 25 {
           Table::row(-968061600, 41400, 0, "NZMT")
          } else {
           Table::row(-955359000, 41400, 1800, "NZST")
          }
         } else {
          if i < 27 {
           Table::row(-936612000, 41400, 0, "NZMT")
          } else {
           if i < 28 {
            Table::row(-923304600, 41400, 1800, "NZST")
           } else {
            Table::row(-757425600, 43200, 0, "NZST")
           }
          }
         }
        }
       } else {
        if i < 34 {
         if i < 31 {
          if i < 30 {
           Table::row(152632800, 43200, 3600, "NZDT")
          } else {
           Table::row(162309600, 43200, 0, "NZST")
          }
         } else {
          if i < 32 {
           Table::row(183477600, 43200, 3600, "NZDT")
          } else {
           if i < 33 {
            Table::row(194968800, 43200, 0, "NZST")
           } else {
            Table::row(215532000, 43200, 3600, "NZDT")
           }
          }
         }
        } else {
         if i < 36 {
          if i < 35 {
           Table::row(226418400, 43200, 0, "NZST")
          } else {
           Table::row(246981600, 43200, 3600, "NZDT")
          }
         } else {
          if i < 37 {
           Table::row(257868000, 43200, 0, "NZST")
          } else {
           if i < 38 {
            Table::row(278431200, 43200, 3600, "NZDT")
           } else {
            Table::row(289317600, 43200, 0, "NZST")
           }
          }
         }
        }
       }
      }
     } else {
      if i < 58 {
       if i < 48 {
        if i < 43 {
         if i < 41 {
          if i < 40 {
           Table::row(309880800, 43200, 3600, "NZDT")
          } else {
           Table::row(320767200, 43200, 0, "NZST")
          }
         } else {
          if i < 42 {
           Table::row(341330400, 43200, 3600, "NZDT")
          } else {
           Table::row(352216800, 43200, 0, "NZST")
          }
         }
        } else {
         if i < 45 {
          if i < 44 {
           Table::row(372780000, 43200, 3600, "NZDT")
          } else {
           Table::row(384271200, 43200, 0, "NZST")
          }
         } else {
          if i < 46 {
           Table::row(404834400, 43200, 3600, "NZDT")
          } else {
           if i < 47 {
            Table::row(415720800, 43200, 0, "NZST")
           } else {
            Table::row(436284000, 43200, 3600, "NZDT")
           }
          }
         }
        }
       } else {
        if i < 53 {
         if i < 50 {
          if i < 49 {
           Table::row(447170400, 43200, 0, "NZST")
          } else {
           Table::row(467733600, 43200, 3600, "NZDT")
          }
         } else {
          if i < 51 {
           Table::row(478620000, 43200, 0, "NZST")
          } else {
           if i < 52 {
            Table::row(499183200, 43200, 3600, "NZDT")
           } else {
            Table::row(510069600, 43200, 0, "NZST")
           }
          }
         }
        } else {
         if i < 55 {
          if i < 54 {
           Table::row(530632800, 43200, 3600, "NZDT")
          } else {
           Table::row(541519200, 43200, 0, "NZST")
          }
         } else {
          if i < 56 {
           Table::row(562082400, 43200, 3600, "NZDT")
          } else {
           if i < 57 {
            Table::row(573573600, 43200, 0, "NZST")
           } else {
            Table::row(594136800, 43200, 3600, "NZDT")
           }
          }
         }
        }
       }
      } else {
       if i < 68 {
        if i < 63 {
         if i < 60 {
          if i < 59 {
           Table::row(605023200, 43200, 0, "NZST")
          } else {
           Table::row(623772000, 43200, 3600, "NZDT")
          }
         } else {
          if i < 61 {
           Table::row(637682400, 43200, 0, "NZST")
          } else {
           if i < 62 {
            Table::row(655221600, 43200, 3600, "NZDT")
           } else {
            Table::row(669132000, 43200, 0, "NZST")
           }
          }
         }
        } else {
         if i < 65 {
          if i < 64 {
           Table::row(686671200, 43200, 3600, "NZDT")
          } else {
           Table::row(700581600, 43200, 0, "NZST")
          }
         } else {
          if i < 66 {
           Table::row(718120800, 43200, 3600, "NZDT")
          } else {
           if i < 67 {
            Table::row(732636000, 43200, 0, "NZST")
           } else {
            Table::row(749570400, 43200, 3600, "NZDT")
           }
          }
         }
        }
       } else {
        if i < 73 {
         if i < 70 {
          if i < 69 {
           Table::row(764085600, 43200, 0, "NZST")
          } else {
           Table::row(781020000, 43200, 3600, "NZDT")
          }
         } else {
          if i < 71 {
           Table::row(795535200, 43200, 0, "NZST")
          } else {
           if i < 72 {
            Table::row(812469600, 43200, 3600, "NZDT")
           } else {
            Table::row(826984800, 43200, 0, "NZST")
           }
          }
         }
        } else {
         if i < 75 {
          if i < 74 {
           Table::row(844524000, 43200, 3600, "NZDT")
          } else {
           Table::row(858434400, 43200, 0, "NZST")
          }
         } else {
          if i < 76 {
           Table::row(875973600, 43200, 3600, "NZDT")
          } else {
           if i < 77 {
            Table::row(889884000, 43200, 0, "NZST")
           } else {
            Table::row(907423200, 43200, 3600, "NZDT")
           }
          }
         }
        }
       }
      }
     }
    } else {
     if i < 117 {
      if i < 97 {
       if i < 87 {
        if i < 82 {
         if i < 80 {
          if i < 79 {
           Table::row(921938400, 43200, 0, "NZST")
          } else {
           Table::row(938872800, 43200, 3600, "NZDT")
          }
         } else {
          if i < 81 {
           Table::row(953388000, 43200, 0, "NZST")
          } else {
           Table::row(970322400, 43200, 3600, "NZDT")
          }
         }
        } else {
         if i < 84 {
          if i < 83 {
           Table::row(984837600, 43200, 0, "NZST")
          } else {
           Table::row(1002376800, 43200, 3600, "NZDT")
          }
         } else {
          if i < 85 {
           Table::row(1016287200, 43200, 0, "NZST")
          } else {
           if i < 86 {
            Table::row(1033826400, 43200, 3600, "NZDT")
           } else {
            Table::row(1047736800, 43200, 0, "NZST")
           }
          }
         }
        }
       } else {
        if i < 92 {
         if i < 89 {
          if i < 88 {
           Table::row(1065276000, 43200, 3600, "NZDT")
          } else {
           Table::row(1079791200, 43200, 0, "NZST")
          }
         } else {
          if i < 90 {
           Table::row(1096725600, 43200, 3600, "NZDT")
          } else {
           if i < 91 {
            Table::row(1111240800, 43200, 0, "NZST")
           } else {
            Table::row(1128175200, 43200, 3600, "NZDT")
           }
          }
         }
        } else {
         if i < 94 {
          if i < 93 {
           Table::row(1142690400, 43200, 0, "NZST")
          } else {
           Table::row(1159624800, 43200, 3600, "NZDT")
          }
         } else {
          if i < 95 {
           Table::row(1174140000, 43200, 0, "NZST")
          } else {
           if i < 96 {
            Table::row(1191074400, 43200, 3600, "NZDT")
           } else {
            Table::row(1207404000, 43200, 0, "NZST")
           }
          }
         }
        }
       }
      } else {
       if i < 107 {
        if i < 102 {
         if i < 99 {
          if i < 98 {
           Table::row(1222524000, 43200, 3600, "NZDT")
          } else {
           Table::row(1238853600, 43200, 0, "NZST")
          }
         } else {
          if i < 100 {
           Table::row(1253973600, 43200, 3600, "NZDT")
          } else {
           if i < 101 {
            Table::row(1270303200, 43200, 0, "NZST")
           } else {
            Table::row(1285423200, 43200, 3600, "NZDT")
           }
          }
         }
        } else {
         if i < 104 {
          if i < 103 {
           Table::row(1301752800, 43200, 0, "NZST")
          } else {
           Table::row(1316872800, 43200, 3600, "NZDT")
          }
         } else {
          if i < 105 {
           Table::row(1333202400, 43200, 0, "NZST")
          } else {
           if i < 106 {
            Table::row(1348927200, 43200, 3600, "NZDT")
           } else {
            Table::row(1365256800, 43200, 0, "NZST")
           }
          }
         }
        }
       } else {
        if i < 112 {
         if i < 109 {
          if i < 108 {
           Table::row(1380376800, 43200, 3600, "NZDT")
          } else {
           Table::row(1396706400, 43200, 0, "NZST")
          }
         } else {
          if i < 110 {
           Table::row(1411826400, 43200, 3600, "NZDT")
          } else {
           if i < 111 {
            Table::row(1428156000, 43200, 0, "NZST")
           } else {
            Table::row(1443276000, 43200, 3600, "NZDT")
           }
          }
         }
        } else {
         if i < 114 {
          if i < 113 {
           Table::row(1459605600, 43200, 0, "NZST")
          } else {
           Table::row(1474725600, 43200, 3600, "NZDT")
          }
         } else {
          if i < 115 {
           Table::row(1491055200, 43200, 0, "NZST")
          } else {
           if i < 116 {
            Table::row(1506175200, 43200, 3600, "NZDT")
           } else {
            Table::row(1522504800, 43200, 0, "NZST")
           }
          }
         }
        }
       }
      }
     } else {
      if i < 136 {
       if i < 126 {
        if i < 121 {
         if i < 119 {
          if i < 118 {
           Table::row(1538229600, 43200, 3600, "NZDT")
          } else {
           Table::row(1554559200, 43200, 0, "NZST")
          }
         } else {
          if i < 120 {
           Table::row(1569679200, 43200, 3600, "NZDT")
          } else {
           Table::row(1586008800, 43200, 0, "NZST")
          }
         }
        } else {
         if i < 123 {
          if i < 122 {
           Table::row(1601128800, 43200, 3600, "NZDT")
          } else {
           Table::row(1617458400, 43200, 0, "NZST")
          }
         } else {
          if i < 124 {
           Table::row(1632578400, 43200, 3600, "NZDT")
          } else {
           if i < 125 {
            Table::row(1648908000, 43200, 0, "NZST")
           } else {
            Table::row(1664028000, 43200, 3600, "NZDT")
           }
          }
         }
        }
       } else {
        if i < 131 {
         if i < 128 {
          if i < 127 {
           Table::row(1680357600, 43200, 0, "NZST")
          } else {
           Table::row(1695477600, 43200, 3600, "NZDT")
          }
         } else {
          if i < 129 {
           Table::row(1712412000, 43200, 0, "NZST")
          } else {
           if i < 130 {
            Table::row(1727532000, 43200, 3600, "NZDT")
           } else {
            Table::row(1743861600, 43200, 0, "NZST")
           }
          }
         }
        } else {
         if i < 133 {
          if i < 132 {
           Table::row(1758981600, 43200, 3600, "NZDT")
          } else {
           Table::row(1775311200, 43200, 0, "NZST")
          }
         } else {
          if i < 134 {
           Table::row(1790431200, 43200, 3600, "NZDT")
          } else {
           if i < 135 {
            Table::row(1806760800, 43200, 0, "NZST")
           } else {
            Table::row(1821880800, 43200, 3600, "NZDT")
           }
          }
         }
        }
       }
      } else {
       if i < 146 {
        if i < 141 {
         if i < 138 {
          if i < 137 {
           Table::row(1838210400, 43200, 0, "NZST")
          } else {
           Table::row(1853330400, 43200, 3600, "NZDT")
          }
         } else {
          if i < 139 {
           Table::row(1869660000, 43200, 0, "NZST")
          } else {
           if i < 140 {
            Table::row(1885384800, 43200, 3600, "NZDT")
           } else {
            Table::row(1901714400, 43200, 0, "NZST")
           }
          }
         }
        } else {
         if i < 143 {
          if i < 142 {
           Table::row(1916834400, 43200, 3600, "NZDT")
          } else {
           Table::row(1933164000, 43200, 0, "NZST")
          }
         } else {
          if i < 144 {
           Table::row(1948284000, 43200, 3600, "NZDT")
          } else {
           if i < 145 {
            Table::row(1964613600, 43200, 0, "NZST")
           } else {
            Table::row(1979733600, 43200, 3600, "NZDT")
           }
          }
         }
        }
       } else {
        if i < 151 {
         if i < 148 {
          if i < 147 {
           Table::row(1996063200, 43200, 0, "NZST")
          } else {
           Table::row(2011183200, 43200, 3600, "NZDT")
          }
         } else {
          if i < 149 {
           Table::row(2027512800, 43200, 0, "NZST")
          } else {
           if i < 150 {
            Table::row(2042632800, 43200, 3600, "NZDT")
           } else {
            Table::row(2058962400, 43200, 0, "NZST")
           }
          }
         }
        } else {
         if i < 153 {
          if i < 152 {
           Table::row(2074687200, 43200, 3600, "NZDT")
          } else {
           Table::row(2091016800, 43200, 0, "NZST")
          }
         } else {
          if i < 154 {
           Table::row(2106136800, 43200, 3600, "NZDT")
          } else {
           if i < 155 {
            Table::row(2122466400, 43200, 0, "NZST")
           } else {
            Table::row(2137586400, 43200, 3600, "NZDT")
           }
          }
         }
        }
       }
      }
     }
    }
}

/// The rows of the table of the zone `Pacific/Auckland`.
pub open spec fn auckland_rows() -> spec_fn(int) -> (i64, FixedTimespan) {
    |i: int| auckland_row(i)
}

/// The table of the zone `Pacific/Auckland`.
pub open spec fn auckland() -> Table {
    Table::listed(Table::row(0, 41944, 0, "LMT").1, 156, auckland_rows())
}

/// Row `i` of the table of the zone `Pacific/Bougainville`.
pub open spec fn bougainville_row(i: int) -> (i64, FixedTimespan) {
    if i < 3 {
     if i < 1 {
      Table::row(-2840178136, 35312, 0, "PMMT")
     } else {
      if i < 2 {
       Table::row(-2366790512, 36000, 0, "+10")
      } else {
       Table::row(-868010400, 32400, 0, "+09")
      }
     }
    } else {
     if i < 4 {
      Table::row(-768906000, 36000, 0, "+10")
     } else {
      if i < 5 {
       Table::row(1419696000, 39600, 0, "+11")
      } else {
       Table::row(2147483647, 39600, 0, "+11")
      }
     }
    }
}

/// The rows of the table of the zone `Pacific/Bougainville`.
pub open spec fn bougainville_rows() -> spec_fn(int) -> (i64, FixedTimespan) {
    |i: int| bougainville_row(i)
}

/// The table of the zone `Pacific/Bougainville`.
pub open spec fn bougainville() -> Table {
    Table::listed(Table::row(0, 37336, 0, "LMT").1, 6, bougainville_rows())
}

/// Row `i` of the table of the zone `Pacific/Chatham`.
pub open spec fn chatham_row(i: int) -> (i64, FixedTimespan) {
    if i < 65 {
     if i < 32 {
      if i < 16 {
       if i < 8 {
        if i < 4 {
         if i < 2 {
          if i < 1 {
           Table::row(-3192437628, 44100, 0, "+1215")
          } else {
           Table::row(-757426500, 45900, 0, "+1245")
          }
         } else {
          if i < 3 {
           Table::row(152632800, 45900, 3600, "+1345")
          } else {
           Table::row(162309600, 45900, 0, "+1245")
          }
         }
        } else {
         if i < 6 {
          if i < 5 {
           Table::row(183477600, 45900, 3600, "+1345")
          } else {
           Table::row(194968800, 45900, 0, "+1245")
          }
         } else {
          if i < 7 {
           Table::row(215532000, 45900, 3600, "+1345")
          } else {
           Table::row(226418400, 45900, 0, "+1245")
          }
         }
        }
       } else {
        if i < 12 {
         if i < 10 {
          if i < 9 {
           Table::row(246981600, 45900, 3600, "+1345")
          } else {
           Table::row(257868000, 45900, 0, "+1245")
          }
         } else {
          if i < 11 {
           Table::row(278431200, 45900, 3600, "+1345")
          } else {
           Table::row(289317600, 45900, 0, "+1245")
          }
         }
        } else {
         if i < 14 {
          if i < 13 {
           Table::row(309880800, 45900, 3600, "+1345")
          } else {
           Table::row(320767200, 45900, 0, "+1245")
          }
         } else {
          if i < 15 {
           Table::row(341330400, 45900, 3600, "+1345")
          } else {
           Table::row(352216800, 45900, 0, "+1245")
          }
         }
        }
       }
      } else {
       if i < 24 {
        if i < 20 {
         if i < 18 {
          if i < 17 {
           Table::row(372780000, 45900, 3600, "+1345")
          } else {
           Table::row(384271200, 45900, 0, "+1245")
          }
         } else {
          if i < 19 {
           Table::row(404834400, 45900, 3600, "+1345")
          } else {
           Table::row(415720800, 45900, 0, "+1245")
          }
         }
        } else {
         if i < 22 {
          if i < 21 {
           Table::row(436284000, 45900, 3600, "+1345")
          } else {
           Table::row(447170400, 45900, 0, "+1245")
          }
         } else {
          if i < 23 {
           Table::row(467733600, 45900, 3600, "+1345")
          } else {
           Table::row(478620000, 45900, 0, "+1245")
          }
         }
        }
       } else {
        if i < 28 {
         if i < 26 {
          if i < 25 {
           Table::row(499183200, 45900, 3600, "+1345")
          } else {
           Table::row(510069600, 45900, 0, "+1245")
          }
         } else {
          if i < 27 {
           Table::row(530632800, 45900, 3600, "+1345")
          } else {
           Table::row(541519200, 45900, 0, "+1245")
          }
         }
        } else {
         if i < 30 {
          if i < 29 {
           Table::row(562082400, 45900, 3600, "+1345")
          } else {
           Table::row(573573600, 45900, 0, "+1245")
          }
         } else {
          if i < 31 {
           Table::row(594136800, 45900, 3600, "+1345")
          } else {
           Table::row(605023200, 45900, 0, "+1245")
          }
         }
        }
       }
      }
     } else {
      if i < 48 {
       if i < 40 {
        if i < 36 {
         if i < 34 {
          if i < 33 {
           Table::row(623772000, 45900, 3600, "+1345")
          } else {
           Table::row(637682400, 45900, 0, "+1245")
          }
         } else {
          if i < 35 {
           Table::row(655221600, 45900, 3600, "+1345")
          } else {
           Table::row(669132000, 45900, 0, "+1245")
          }
         }
        } else {
         if i < 38 {
          if i < 37 {
           Table::row(686671200, 45900, 3600, "+1345")
          } else {
           Table::row(700581600, 45900, 0, "+1245")
          }
         } else {
          if i < 39 {
           Table::row(718120800, 45900, 3600, "+1345")
          } else {
           Table::row(732636000, 45900, 0, "+1245")
          }
         }
        }
       } else {
        if i < 44 {
         if i < 42 {
          if i < 41 {
           Table::row(749570400, 45900, 3600, "+1345")
          } else {
           Table::row(764085600, 45900, 0, "+1245")
          }
         } else {
          if i < 43 {
           Table::row(781020000, 45900, 3600, "+1345")
          } else {
           Table::row(795535200, 45900, 0, "+1245")
          }
         }
        } else {
         if i < 46 {
          if i < 45 {
           Table::row(812469600, 45900, 3600, "+1345")
          } else {
           Table::row(826984800, 45900, 0, "+1245")
          }
         } else {
          if i < 47 {
           Table::row(844524000, 45900, 3600, "+1345")
          } else {
           Table::row(858434400, 45900, 0, "+1245")
          }
         }
        }
       }
      } else {
       if i < 56 {
        if i < 52 {
         if i < 50 {
          if i < 49 {
           Table::row(875973600, 45900, 3600, "+1345")
          } else {
           Table::row(889884000, 45900, 0, "+1245")
          }
         } else {
          if i < 51 {
           Table::row(907423200, 45900, 3600, "+1345")
          } else {
           Table::row(921938400, 45900, 0, "+1245")
          }
         }
        } else {
         if i < 54 {
          if i < 53 {
           Table::row(938872800, 45900, 3600, "+1345")
          } else {
           Table::row(953388000, 45900, 0, "+1245")
          }
         } else {
          if i < 55 {
           Table::row(970322400, 45900, 3600, "+1345")
          } else {
           Table::row(984837600, 45900, 0, "+1245")
          }
         }
        }
       } else {
        if i < 60 {
         if i < 58 {
          if i < 57 {
           Table::row(1002376800, 45900, 3600, "+1345")
          } else {
           Table::row(1016287200, 45900, 0, "+1245")
          }
         } else {
          if i < 59 {
           Table::row(1033826400, 45900, 3600, "+1345")
          } else {
           Table::row(1047736800, 45900, 0, "+1245")
          }
         }
        } else {
         if i < 62 {
          if i < 61 {
           Table::row(1065276000, 45900, 3600, "+1345")
          } else {
           Table::row(1079791200, 45900, 0, "+1245")
          }
         } else {
          if i < 63 {
           Table::row(1096725600, 45900, 3600, "+1345")
          } else {
           if i < 64 {
            Table::row(1111240800, 45900, 0, "+1245")
           } else {
            Table::row(1128175200, 45900, 3600, "+1345")
           }
          }
         }
        }
       }
      }
     }
    } else {
     if i < 97 {
      if i < 81 {
       if i < 73 {
        if i < 69 {
         if i < 67 {
          if i < 66 {
           Table::row(1142690400, 45900, 0, "+1245")
          } else {
           Table::row(1159624800, 45900, 3600, "+1345")
          }
         } else {
          if i < 68 {
           Table::row(1174140000, 45900, 0, "+1245")
          } else {
           Table::row(1191074400, 45900, 3600, "+1345")
          }
         }
        } else {
         if i < 71 {
          if i < 70 {
           Table::row(1207404000, 45900, 0, "+1245")
          } else {
           Table::row(1222524000, 45900, 3600, "+1345")
          }
         } else {
          if i < 72 {
           Table::row(1238853600, 45900, 0, "+1245")
          } else {
           Table::row(1253973600, 45900, 3600, "+1345")
          }
         }
        }
       } else {
        if i < 77 {
         if i < 75 {
          if i < 74 {
           Table::row(1270303200, 45900, 0, "+1245")
          } else {
           Table::row(1285423200, 45900, 3600, "+1345")
          }
         } else {
          if i < 76 {
           Table::row(1301752800, 45900, 0, "+1245")
          } else {
           Table::row(1316872800, 45900, 3600, "+1345")
          }
         }
        } else {
         if i < 79 {
          if i < 78 {
           Table::row(1333202400, 45900, 0, "+1245")
          } else {
           Table::row(1348927200, 45900, 3600, "+1345")
          }
         } else {
          if i < 80 {
           Table::row(1365256800, 45900, 0, "+1245")
          } else {
           Table::row(1380376800, 45900, 3600, "+1345")
          }
         }
        }
       }
      } else {
       if i < 89 {
        if i < 85 {
         if i < 83 {
          if i < 82 {
           Table::row(1396706400, 45900, 0, "+1245")
          } else {
           Table::row(1411826400, 45900, 3600, "+1345")
          }
         } else {
          if i < 84 {
           Table::row(1428156000, 45900, 0, "+1245")
          } else {
           Table::row(1443276000, 45900, 3600, "+1345")
          }
         }
        } else {
         if i < 87 {
          if i < 86 {
           Table::row(1459605600, 45900, 0, "+1245")
          } else {
           Table::row(1474725600, 45900, 3600, "+1345")
          }
         } else {
          if i < 88 {
           Table::row(1491055200, 45900, 0, "+1245")
          } else {
           Table::row(1506175200, 45900, 3600, "+1345")
          }
         }
        }
       } else {
        if i < 93 {
         if i < 91 {
          if i < 90 {
           Table::row(1522504800, 45900, 0, "+1245")
          } else {
           Table::row(1538229600, 45900, 3600, "+1345")
          }
         } else {
          if i < 92 {
           Table::row(1554559200, 45900, 0, "+1245")
          } else {
           Table::row(1569679200, 45900, 3600, "+1345")
          }
         }
        } else {
         if i < 95 {
          if i < 94 {
           Table::row(1586008800, 45900, 0, "+1245")
          } else {
           Table::row(1601128800, 45900, 3600, "+1345")
          }
         } else {
          if i < 96 {
           Table::row(1617458400, 45900, 0, "+1245")
          } else {
           Table::row(1632578400, 45900, 3600, "+1345")
          }
         }
        }
       }
      }
     } else {
      if i < 113 {
       if i < 105 {
        if i < 101 {
         if i < 99 {
          if i < 98 {
           Table::row(1648908000, 45900, 0, "+1245")
          } else {
           Table::row(1664028000, 45900, 3600, "+1345")
          }
         } else {
          if i < 100 {
           Table::row(1680357600, 45900, 0, "+1245")
          } else {
           Table::row(1695477600, 45900, 3600, "+1345")
          }
         }
        } else {
         if i < 103 {
          if i < 102 {
           Table::row(1712412000, 45900, 0, "+1245")
          } else {
           Table::row(1727532000, 45900, 3600, "+1345")
          }
         } else {
          if i < 104 {
           Table::row(1743861600, 45900, 0, "+1245")
          } else {
           Table::row(1758981600, 45900, 3600, "+1345")
          }
         }
        }
       } else {
        if i < 109 {
         if i < 107 {
          if i < 106 {
           Table::row(1775311200, 45900, 0, "+1245")
          } else {
           Table::row(1790431200, 45900, 3600, "+1345")
          }
         } else {
          if i < 108 {
           Table::row(1806760800, 45900, 0, "+1245")
          } else {
           Table::row(1821880800, 45900, 3600, "+1345")
          }
         }
        } else {
         if i < 111 {
          if i < 110 {
           Table::row(1838210400, 45900, 0, "+1245")
          } else {
           Table::row(1853330400, 45900, 3600, "+1345")
          }
         } else {
          if i < 112 {
           Table::row(1869660000, 45900, 0, "+1245")
          } else {
           Table::row(1885384800, 45900, 3600, "+1345")
          }
         }
        }
       }
      } else {
       if i < 121 {
        if i < 117 {
         if i < 115 {
          if i < 114 {
           Table::row(1901714400, 45900, 0, "+1245")
          } else {
           Table::row(1916834400, 45900, 3600, "+1345")
          }
         } else {
          if i < 116 {
           Table::row(1933164000, 45900, 0, "+1245")
          } else {
           Table::row(1948284000, 45900, 3600, "+1345")
          }
         }
        } else {
         if i < 119 {
          if i < 118 {
           Table::row(1964613600, 45900, 0, "+1245")
          } else {
           Table::row(1979733600, 45900, 3600, "+1345")
          }
         } else {
          if i < 120 {
           Table::row(1996063200, 45900, 0, "+1245")
          } else {
           Table::row(2011183200, 45900, 3600, "+1345")
          }
         }
        }
       } else {
        if i < 125 {
         if i < 123 {
          if i < 122 {
           Table::row(2027512800, 45900, 0, "+1245")
          } else {
           Table::row(2042632800, 45900, 3600, "+1345")
          }
         } else {
          if i < 124 {
           Table::row(2058962400, 45900, 0, "+1245")
          } else {
           Table::row(2074687200, 45900, 3600, "+1345")
          }
         }
        } else {
         if i < 127 {
          if i < 126 {
           Table::row(2091016800, 45900, 0, "+1245")
          } else {
           Table::row(2106136800, 45900, 3600, "+1345")
          }
         } else {
          if i < 128 {
           Table::row(2122466400, 45900, 0, "+1245")
          } else {
           if i < 129 {
            Table::row(2137586400, 45900, 3600, "+1345")
           } else {
            Table::row(2147483647, 45900, 3600, "+1345")
           }
          }
         }
        }
       }
      }
     }
    }
}

/// The rows of the table of the zone `Pacific/Chatham`.
pub open spec fn chatham_rows() -> spec_fn(int) -> (i64, FixedTimespan) {
    |i: int| chatham_row(i)
}

/// The table of the zone `Pacific/Chatham`.
pub open spec fn chatham() -> Table {
    Table::listed(Table::row(0, 44028, 0, "LMT").1, 130, chatham_rows())
}

/// Row `i` of the table of the zone `Pacific/Chuuk`.
pub open spec fn chuuk_row(i: int) -> (i64, FixedTimespan) {
    if i < 3 {
     if i < 1 {
      Table::row(-3944628428, 36428, 0, "LMT")
     } else {
      if i < 2 {
       Table::row(-2177489228, 36000, 0, "+10")
      } else {
       Table::row(-1743674400, 32400, 0, "+09")
      }
     }
    } else {
     if i < 5 {
      if i < 4 {
       Table::row(-1606813200, 36000, 0, "+10")
      } else {
       Table::row(-907408800, 32400, 0, "+09")
      }
     } else {
      if i < 6 {
       Table::row(-770634000, 36000, 0, "+10")
      } else {
       Table::row(2147483647, 36000, 0, "+10")
      }
     }
    }
}

/// The rows of the table of the zone `Pacific/Chuuk`.
pub open spec fn chuuk_rows() -> spec_fn(int) -> (i64, FixedTimespan) {
    |i: int| chuuk_row(i)
}

/// The table of the zone `Pacific/Chuuk`.
pub open spec fn chuuk() -> Table {
    Table::listed(Table::row(0, -49972, 0, "LMT").1, 7, chuuk_rows())
}

/// Row `i` of the table of the zone `Pacific/Easter`.
pub open spec fn easter_row(i: int) -> (i64, FixedTimespan) {
    if i < 70 {
     if i < 35 {
      if i < 17 {
       if i < 8 {
        if i < 4 {
         if i < 2 {
          if i < 1 {
           Table::row(-2524495352, -26248, 0, "EMT")
          } else {
           Table::row(-1178124152, -25200, 0, "-07")
          }
         } else {
          if i < 3 {
           Table::row(-36619200, -25200, 3600, "-06")
          } else {
           Table::row(-23922000, -25200, 0, "-07")
          }
         }
        } else {
         if i < 6 {
          if i < 5 {
           Table::row(-3355200, -25200, 3600, "-06")
          } else {
           Table::row(7527600, -25200, 0, "-07")
          }
         } else {
          if i < 7 {
           Table::row(24465600, -25200, 3600, "-06")
          } else {
           Table::row(37767600, -25200, 0, "-07")
          }
         }
        }
       } else {
        if i < 12 {
         if i < 10 {
          if i < 9 {
           Table::row(55915200, -25200, 3600, "-06")
          } else {
           Table::row(69217200, -25200, 0, "-07")
          }
         } else {
          if i < 11 {
           Table::row(87969600, -25200, 3600, "-06")
          } else {
           Table::row(100666800, -25200, 0, "-07")
          }
         }
        } else {
         if i < 14 {
          if i < 13 {
           Table::row(118209600, -25200, 3600, "-06")
          } else {
           Table::row(132116400, -25200, 0, "-07")
          }
         } else {
          if i < 15 {
           Table::row(150868800, -25200, 3600, "-06")
          } else {
           if i < 16 {
            Table::row(163566000, -25200, 0, "-07")
           } else {
            Table::row(182318400, -25200, 3600, "-06")
           }
          }
         }
        }
       }
      } else {
       if i < 26 {
        if i < 21 {
         if i < 19 {
          if i < 18 {
           Table::row(195620400, -25200, 0, "-07")
          } else {
           Table::row(213768000, -25200, 3600, "-06")
          }
         } else {
          if i < 20 {
           Table::row(227070000, -25200, 0, "-07")
          } else {
           Table::row(245217600, -25200, 3600, "-06")
          }
         }
        } else {
         if i < 23 {
          if i < 22 {
           Table::row(258519600, -25200, 0, "-07")
          } else {
           Table::row(277272000, -25200, 3600, "-06")
          }
         } else {
          if i < 24 {
           Table::row(289969200, -25200, 0, "-07")
          } else {
           if i < 25 {
            Table::row(308721600, -25200, 3600, "-06")
           } else {
            Table::row(321418800, -25200, 0, "-07")
           }
          }
         }
        }
       } else {
        if i < 30 {
         if i < 28 {
          if i < 27 {
           Table::row(340171200, -25200, 3600, "-06")
          } else {
           Table::row(353473200, -25200, 0, "-07")
          }
         } else {
          if i < 29 {
           Table::row(371620800, -25200, 3600, "-06")
          } else {
           Table::row(384922800, -21600, 0, "-06")
          }
         }
        } else {
         if i < 32 {
          if i < 31 {
           Table::row(403070400, -21600, 3600, "-05")
          } else {
           Table::row(416372400, -21600, 0, "-06")
          }
         } else {
          if i < 33 {
           Table::row(434520000, -21600, 3600, "-05")
          } else {
           if i < 34 {
            Table::row(447822000, -21600, 0, "-06")
           } else {
            Table::row(466574400, -21600, 3600, "-05")
           }
          }
         }
        }
       }
      }
     } else {
      if i < 52 {
       if i < 43 {
        if i < 39 {
         if i < 37 {
          if i < 36 {
           Table::row(479271600, -21600, 0, "-06")
          } else {
           Table::row(498024000, -21600, 3600, "-05")
          }
         } else {
          if i < 38 {
           Table::row(510721200, -21600, 0, "-06")
          } else {
           Table::row(529473600, -21600, 3600, "-05")
          }
         }
        } else {
         if i < 41 {
          if i < 40 {
           Table::row(545194800, -21600, 0, "-06")
          } else {
           Table::row(560923200, -21600, 3600, "-05")
          }
         } else {
          if i < 42 {
           Table::row(574225200, -21600, 0, "-06")
          } else {
           Table::row(592372800, -21600, 3600, "-05")
          }
         }
        }
       } else {
        if i < 47 {
         if i < 45 {
          if i < 44 {
           Table::row(605674800, -21600, 0, "-06")
          } else {
           Table::row(624427200, -21600, 3600, "-05")
          }
         } else {
          if i < 46 {
           Table::row(637124400, -21600, 0, "-06")
          } else {
           Table::row(653457600, -21600, 3600, "-05")
          }
         }
        } else {
         if i < 49 {
          if i < 48 {
           Table::row(668574000, -21600, 0, "-06")
          } else {
           Table::row(687326400, -21600, 3600, "-05")
          }
         } else {
          if i < 50 {
           Table::row(700628400, -21600, 0, "-06")
          } else {
           if i < 51 {
            Table::row(718776000, -21600, 3600, "-05")
           } else {
            Table::row(732078000, -21600, 0, "-06")
           }
          }
         }
        }
       }
      } else {
       if i < 61 {
        if i < 56 {
         if i < 54 {
          if i < 53 {
           Table::row(750225600, -21600, 3600, "-05")
          } else {
           Table::row(763527600, -21600, 0, "-06")
          }
         } else {
          if i < 55 {
           Table::row(781675200, -21600, 3600, "-05")
          } else {
           Table::row(794977200, -21600, 0, "-06")
          }
         }
        } else {
         if i < 58 {
          if i < 57 {
           Table::row(813729600, -21600, 3600, "-05")
          } else {
           Table::row(826426800, -21600, 0, "-06")
          }
         } else {
          if i < 59 {
           Table::row(845179200, -21600, 3600, "-05")
          } else {
           if i < 60 {
            Table::row(859690800, -21600, 0, "-06")
           } else {
            Table::row(876628800, -21600, 3600, "-05")
           }
          }
         }
        }
       } else {
        if i < 65 {
         if i < 63 {
          if i < 62 {
           Table::row(889930800, -21600, 0, "-06")
          } else {
           Table::row(906868800, -21600, 3600, "-05")
          }
         } else {
          if i < 64 {
           Table::row(923194800, -21600, 0, "-06")
          } else {
           Table::row(939528000, -21600, 3600, "-05")
          }
         }
        } else {
         if i < 67 {
          if i < 66 {
           Table::row(952830000, -21600, 0, "-06")
          } else {
           Table::row(971582400, -21600, 3600, "-05")
          }
         } else {
          if i < 68 {
           Table::row(984279600, -21600, 0, "-06")
          } else {
           if i < 69 {
            Table::row(1003032000, -21600, 3600, "-05")
           } else {
            Table::row(1015729200, -21600, 0, "-06")
           }
          }
         }
        }
       }
      }
     }
    } else {
     if i < 105 {
      if i < 87 {
       if i < 78 {
        if i < 74 {
         if i < 72 {
          if i < 71 {
           Table::row(1034481600, -21600, 3600, "-05")
          } else {
           Table::row(1047178800, -21600, 0, "-06")
          }
         } else {
          if i < 73 {
           Table::row(1065931200, -21600, 3600, "-05")
          } else {
           Table::row(1079233200, -21600, 0, "-06")
          }
         }
        } else {
         if i < 76 {
          if i < 75 {
           Table::row(1097380800, -21600, 3600, "-05")
          } else {
           Table::row(1110682800, -21600, 0, "-06")
          }
         } else {
          if i < 77 {
           Table::row(1128830400, -21600, 3600, "-05")
          } else {
           Table::row(1142132400, -21600, 0, "-06")
          }
         }
        }
       } else {
        if i < 82 {
         if i < 80 {
          if i < 79 {
           Table::row(1160884800, -21600, 3600, "-05")
          } else {
           Table::row(1173582000, -21600, 0, "-06")
          }
         } else {
          if i < 81 {
           Table::row(1192334400, -21600, 3600, "-05")
          } else {
           Table::row(1206846000, -21600, 0, "-06")
          }
         }
        } else {
         if i < 84 {
          if i < 83 {
           Table::row(1223784000, -21600, 3600, "-05")
          } else {
           Table::row(1237086000, -21600, 0, "-06")
          }
         } else {
          if i < 85 {
           Table::row(1255233600, -21600, 3600, "-05")
          } else {
           if i < 86 {
            Table::row(1270350000, -21600, 0, "-06")
           } else {
            Table::row(1286683200, -21600, 3600, "-05")
           }
          }
         }
        }
       }
      } else {
       if i < 96 {
        if i < 91 {
         if i < 89 {
          if i < 88 {
           Table::row(1304823600, -21600, 0, "-06")
          } else {
           Table::row(1313899200, -21600, 3600, "-05")
          }
         } else {
          if i < 90 {
           Table::row(1335668400, -21600, 0, "-06")
          } else {
           Table::row(1346558400, -21600, 3600, "-05")
          }
         }
        } else {
         if i < 93 {
          if i < 92 {
           Table::row(1367118000, -21600, 0, "-06")
          } else {
           Table::row(1378612800, -21600, 3600, "-05")
          }
         } else {
          if i < 94 {
           Table::row(1398567600, -21600, 0, "-06")
          } else {
           if i < 95 {
            Table::row(1410062400, -21600, 3600, "-05")
           } else {
            Table::row(1463281200, -21600, 0, "-06")
           }
          }
         }
        }
       } else {
        if i < 100 {
         if i < 98 {
          if i < 97 {
           Table::row(1471147200, -21600, 3600, "-05")
          } else {
           Table::row(1494730800, -21600, 0, "-06")
          }
         } else {
          if i < 99 {
           Table::row(1502596800, -21600, 3600, "-05")
          } else {
           Table::row(1526180400, -21600, 0, "-06")
          }
         }
        } else {
         if i < 102 {
          if i < 101 {
           Table::row(1534046400, -21600, 3600, "-05")
          } else {
           Table::row(1554606000, -21600, 0, "-06")
          }
         } else {
          if i < 103 {
           Table::row(1567915200, -21600, 3600, "-05")
          } else {
           if i < 104 {
            Table::row(1586055600, -21600, 0, "-06")
           } else {
            Table::row(1599364800, -21600, 3600, "-05")
           }
          }
         }
        }
       }
      }
     } else {
      if i < 122 {
       if i < 113 {
        if i < 109 {
         if i < 107 {
          if i < 106 {
           Table::row(1617505200, -21600, 0, "-06")
          } else {
           Table::row(1630814400, -21600, 3600, "-05")
          }
         } else {
          if i < 108 {
           Table::row(1648954800, -21600, 0, "-06")
          } else {
           Table::row(1662868800, -21600, 3600, "-05")
          }
         }
        } else {
         if i < 111 {
          if i < 110 {
           Table::row(1680404400, -21600, 0, "-06")
          } else {
           Table::row(1693713600, -21600, 3600, "-05")
          }
         } else {
          if i < 112 {
           Table::row(1712458800, -21600, 0, "-06")
          } else {
           Table::row(1725768000, -21600, 3600, "-05")
          }
         }
        }
       } else {
        if i < 117 {
         if i < 115 {
          if i < 114 {
           Table::row(1743908400, -21600, 0, "-06")
          } else {
           Table::row(1757217600, -21600, 3600, "-05")
          }
         } else {
          if i < 116 {
           Table::row(1775358000, -21600, 0, "-06")
          } else {
           Table::row(1788667200, -21600, 3600, "-05")
          }
         }
        } else {
         if i < 119 {
          if i < 118 {
           Table::row(1806807600, -21600, 0, "-06")
          } else {
           Table::row(1820116800, -21600, 3600, "-05")
          }
         } else {
          if i < 120 {
           Table::row(1838257200, -21600, 0, "-06")
          } else {
           if i < 121 {
            Table::row(1851566400, -21600, 3600, "-05")
           } else {
            Table::row(1870311600, -21600, 0, "-06")
           }
          }
         }
        }
       }
      } else {
       if i < 131 {
        if i < 126 {
         if i < 124 {
          if i < 123 {
           Table::row(1883016000, -21600, 3600, "-05")
          } else {
           Table::row(1901761200, -21600, 0, "-06")
          }
         } else {
          if i < 125 {
           Table::row(1915070400, -21600, 3600, "-05")
          } else {
           Table::row(1933210800, -21600, 0, "-06")
          }
         }
        } else {
         if i < 128 {
          if i < 127 {
           Table::row(1946520000, -21600, 3600, "-05")
          } else {
           Table::row(1964660400, -21600, 0, "-06")
          }
         } else {
          if i < 129 {
           Table::row(1977969600, -21600, 3600, "-05")
          } else {
           if i < 130 {
            Table::row(1996110000, -21600, 0, "-06")
           } else {
            Table::row(2009419200, -21600, 3600, "-05")
           }
          }
         }
        }
       } else {
        if i < 135 {
         if i < 133 {
          if i < 132 {
           Table::row(2027559600, -21600, 0, "-06")
          } else {
           Table::row(2040868800, -21600, 3600, "-05")
          }
         } else {
          if i < 134 {
           Table::row(2059614000, -21600, 0, "-06")
          } else {
           Table::row(2072318400, -21600, 3600, "-05")
          }
         }
        } else {
         if i < 137 {
          if i < 136 {
           Table::row(2091063600, -21600, 0, "-06")
          } else {
           Table::row(2104372800, -21600, 3600, "-05")
          }
         } else {
          if i < 138 {
           Table::row(2122513200, -21600, 0, "-06")
          } else {
           if i < 139 {
            Table::row(2135822400, -21600, 3600, "-05")
           } else {
            Table::row(2147483647, -21600, 3600, "-05")
           }
          }
         }
        }
       }
      }
     }
    }
}

/// The rows of the table of the zone `Pacific/Easter`.
pub open spec fn easter_rows() -> spec_fn(int) -> (i64, FixedTimespan) {
    |i: int| easter_row(i)
}

/// The table of the zone `Pacific/Easter`.
pub open spec fn easter() -> Table {
    Table::listed(Table::row(0, -26248, 0, "LMT").1, 140, easter_rows())
}

/// Row `i` of the table of the zone `Pacific/Efate`.
pub open spec fn efate_row(i: int) -> (i64, FixedTimespan) {
    if i < 12 {
     if i < 6 {
      if i < 3 {
       if i < 1 {
        Table::row(-1829387596, 39600, 0, "+11")
       } else {
        if i < 2 {
         Table::row(125409600, 39600, 3600, "+12")
        } else {
         Table::row(133876800, 39600, 0, "+11")
        }
       }
      } else {
       if i < 4 {
        Table::row(433256400, 39600, 3600, "+12")
       } else {
        if i < 5 {
         Table::row(448977600, 39600, 0, "+11")
        } else {
         Table::row(464706000, 39600, 3600, "+12")
        }
       }
      }
     } else {
      if i < 9 {
       if i < 7 {
        Table::row(480427200, 39600, 0, "+11")
       } else {
        if i < 8 {
         Table::row(496760400, 39600, 3600, "+12")
        } else {
         Table::row(511876800, 39600, 0, "+11")
        }
       }
      } else {
       if i < 10 {
        Table::row(528210000, 39600, 3600, "+12")
       } else {
        if i < 11 {
         Table::row(543931200, 39600, 0, "+11")
        } else {
         Table::row(559659600, 39600, 3600, "+12")
        }
       }
      }
     }
    } else {
     if i < 18 {
      if i < 15 {
       if i < 13 {
        Table::row(575380800, 39600, 0, "+11")
       } else {
        if i < 14 {
         Table::row(591109200, 39600, 3600, "+12")
        } else {
         Table::row(606830400, 39600, 0, "+11")
        }
       }
      } else {
       if i < 16 {
        Table::row(622558800, 39600, 3600, "+12")
       } else {
        if i < 17 {
         Table::row(638280000, 39600, 0, "+11")
        } else {
         Table::row(654008400, 39600, 3600, "+12")
        }
       }
      }
     } else {
      if i < 21 {
       if i < 19 {
        Table::row(669729600, 39600, 0, "+11")
       } else {
        if i < 20 {
         Table::row(686062800, 39600, 3600, "+12")
        } else {
         Table::row(696340800, 39600, 0, "+11")
        }
       }
      } else {
       if i < 22 {
        Table::row(719931600, 39600, 3600, "+12")
       } else {
        if i < 23 {
         Table::row(727790400, 39600, 0, "+11")
        } else {
         Table::row(2147483647, 39600, 0, "+11")
        }
       }
      }
     }
    }
}

/// The rows of the table of the zone `Pacific/Efate`.
pub open spec fn efate_rows() -> spec_fn(int) -> (i64, FixedTimespan) {
    |i: int| efate_row(i)
}

/// The table of the zone `Pacific/Efate`.
pub open spec fn efate() -> Table {
    Table::listed(Table::row(0, 40396, 0, "LMT").1, 24, efate_rows())
}

/// Row `i` of the table of the zone `Pacific/Enderbury`.
pub open spec fn enderbury_row(i: int) -> (i64, FixedTimespan) {
    if i < 2 {
     if i < 1 {
      Table::row(-1020470400, -43200, 0, "-12")
     } else {
      Table::row(307627200, -39600, 0, "-11")
     }
    } else {
     if i < 3 {
      Table::row(788871600, 46800, 0, "+13")
     } else {
      Table::row(2147483647, 46800, 0, "+13")
     }
    }
}

/// The rows of the table of the zone `Pacific/Enderbury`.
pub open spec fn enderbury_rows() -> spec_fn(int) -> (i64, FixedTimespan) {
    |i: int| enderbury_row(i)
}

/// The table of the zone `Pacific/Enderbury`.
pub open spec fn enderbury() -> Table {
    Table::listed(Table::row(0, 0, 0, "-00").1, 4, enderbury_rows())
}

/// Row `i` of the table of the zone `Pacific/Fakaofo`.
pub open spec fn fakaofo_row(i: int) -> (i64, FixedTimespan) {
    if i < 1 {
     Table::row(-2177411704, -39600, 0, "-11")
    } else {
     if i < 2 {
      Table::row(1325242800, 46800, 0, "+13")
     } else {
      Table::row(2147483647, 46800, 0, "+13")
     }
    }
}

/// The rows of the table of the zone `Pacific/Fakaofo`.
pub open spec fn fakaofo_rows() -> spec_fn(int) -> (i64, FixedTimespan) {
    |i: int| fakaofo_row(i)
}

/// The table of the zone `Pacific/Fakaofo`.
pub open spec fn fakaofo() -> Table {
    Table::listed(Table::row(0, -41096, 0, "LMT").1, 3, fakaofo_rows())
}

/// Row `i` of the table of the zone `Pacific/Fiji`.
pub open spec fn fiji_row(i: int) -> (i64, FixedTimespan) {
    if i < 15 {
     if i < 7 {
      if i < 3 {
       if i < 1 {
        Table::row(-1709985344, 43200, 0, "+12")
       } else {
        if i < 2 {
         Table::row(909842400, 43200, 3600, "+13")
        } else {
         Table::row(920124000, 43200, 0, "+12")
        }
       }
      } else {
       if i < 5 {
        if i < 4 {
         Table::row(941896800, 43200, 3600, "+13")
        } else {
         Table::row(951573600, 43200, 0, "+12")
        }
       } else {
        if i < 6 {
         Table::row(1259416800, 43200, 3600, "+13")
        } else {
         Table::row(1269698400, 43200, 0, "+12")
        }
       }
      }
     } else {
      if i < 11 {
       if i < 9 {
        if i < 8 {
         Table::row(1287842400, 43200, 3600, "+13")
        } else {
         Table::row(1299333600, 43200, 0, "+12")
        }
       } else {
        if i < 10 {
         Table::row(1319292000, 43200, 3600, "+13")
        } else {
         Table::row(1327154400, 43200, 0, "+12")
        }
       }
      } else {
       if i < 13 {
        if i < 12 {
         Table::row(1350741600, 43200, 3600, "+13")
        } else {
         Table::row(1358604000, 43200, 0, "+12")
        }
       } else {
        if i < 14 {
         Table::row(1382796000, 43200, 3600, "+13")
        } else {
         Table::row(1390050000, 43200, 0, "+12")
        }
       }
      }
     }
    } else {
     if i < 22 {
      if i < 18 {
       if i < 16 {
        Table::row(1414850400, 43200, 3600, "+13")
       } else {
        if i < 17 {
         Table::row(1421503200, 43200, 0, "+12")
        } else {
         Table::row(1446300000, 43200, 3600, "+13")
        }
       }
      } else {
       if i < 20 {
        if i < 19 {
         Table::row(1452952800, 43200, 0, "+12")
        } else {
         Table::row(1478354400, 43200, 3600, "+13")
        }
       } else {
        if i < 21 {
         Table::row(1484402400, 43200, 0, "+12")
        } else {
         Table::row(1509804000, 43200, 3600, "+13")
        }
       }
      }
     } else {
      if i < 26 {
       if i < 24 {
        if i < 23 {
         Table::row(1515852000, 43200, 0, "+12")
        } else {
         Table::row(1541253600, 43200, 3600, "+13")
        }
       } else {
        if i < 25 {
         Table::row(1547301600, 43200, 0, "+12")
        } else {
         Table::row(1573308000, 43200, 3600, "+13")
        }
       }
      } else {
       if i < 28 {
        if i < 27 {
         Table::row(1578751200, 43200, 0, "+12")
        } else {
         Table::row(1608386400, 43200, 3600, "+13")
        }
       } else {
        if i < 29 {
         Table::row(1610805600, 43200, 0, "+12")
        } else {
         Table::row(2147483647, 43200, 0, "+12")
        }
       }
      }
     }
    }
}

/// The rows of the table of the zone `Pacific/Fiji`.
pub open spec fn fiji_rows() -> spec_fn(int) -> (i64, FixedTimespan) {
    |i: int| fiji_row(i)
}

/// The table of the zone `Pacific/Fiji`.
pub open spec fn fiji() -> Table {
    Table::listed(Table::row(0, 42944, 0, "LMT").1, 30, fiji_rows())
}

/// Row `i` of the table of the zone `Pacific/Funafuti`.
pub open spec fn funafuti_row(i: int) -> (i64, FixedTimespan) {
    if i < 1 {
     Table::row(-2177495812, 43200, 0, "+12")
    } else {
     Table::row(2147483647, 43200, 0, "+12")
    }
}

/// The rows of the table of the zone `Pacific/Funafuti`.
pub open spec fn funafuti_rows() -> spec_fn(int) -> (i64, FixedTimespan) {
    |i: int| funafuti_row(i)
}

/// The table of the zone `Pacific/Funafuti`.
pub open spec fn funafuti() -> Table {
    Table::listed(Table::row(0, 43012, 0, "LMT").1, 2, funafuti_rows())
}

/// Row `i` of the table of the zone `Pacific/Galapagos`.
pub open spec fn galapagos_row(i: int) -> (i64, FixedTimespan) {
    if i < 2 {
     if i < 1 {
      Table::row(-1230746496, -18000, 0, "-05")
     } else {
      Table::row(504939600, -21600, 0, "-06")
     }
    } else {
     if i < 3 {
      Table::row(722930400, -21600, 3600, "-05")
     } else {
      if i < 4 {
       Table::row(728888400, -21600, 0, "-06")
      } else {
       Table::row(2147483647, -21600, 0, "-06")
      }
     }
    }
}

/// The rows of the table of the zone `Pacific/Galapagos`.
pub open spec fn galapagos_rows() -> spec_fn(int) -> (i64, FixedTimespan) {
    |i: int| galapagos_row(i)
}

/// The table of the zone `Pacific/Galapagos`.
pub open spec fn galapagos() -> Table {
    Table::listed(Table::row(0, -21504, 0, "LMT").1, 5, galapagos_rows())
}

/// Row `i` of the table of the zone `Pacific/Gambier`.
pub open spec fn gambier_row(i: int) -> (i64, FixedTimespan) {
    if i < 1 {
     Table::row(-1806678012, -32400, 0, "-09")
    } else {
     Table::row(2147483647, -32400, 0, "-09")
    }
}

/// The rows of the table of the zone `Pacific/Gambier`.
pub open spec fn gambier_rows() -> spec_fn(int) -> (i64, FixedTimespan) {
    |i: int| gambier_row(i)
}

/// The table of the zone `Pacific/Gambier`.
pub open spec fn gambier() -> Table {
    Table::listed(Table::row(0, -32388, 0, "LMT").1, 2, gambier_rows())
}

/// Row `i` of the table of the zone `Pacific/Guadalcanal`.
pub open spec fn guadalcanal_row(i: int) -> (i64, FixedTimespan) {
    if i < 1 {
     Table::row(-1806748788, 39600, 0, "+11")
    } else {
     Table::row(2147483647, 39600, 0, "+11")
    }
}

/// The rows of the table of the zone `Pacific/Guadalcanal`.
pub open spec fn guadalcanal_rows() -> spec_fn(int) -> (i64, FixedTimespan) {
    |i: int| guadalcanal_row(i)
}

/// The table of the zone `Pacific/Guadalcanal`.
pub open spec fn guadalcanal() -> Table {
    Table::listed(Table::row(0, 38388, 0, "LMT").1, 2, guadalcanal_rows())
}

/// Row `i` of the table of the zone `Pacific/Guam`.
pub open spec fn guam_row(i: int) -> (i64, FixedTimespan) {
    if i < 10 {
     if i < 5 {
      if i < 2 {
       if i < 1 {
        Table::row(-3944626740, 34740, 0, "LMT")
       } else {
        Table::row(-2177487540, 36000, 0, "GST")
       }
      } else {
       if i < 3 {
        Table::row(-885549600, 32400, 0, "+09")
       } else {
        if i < 4 {
         Table::row(-802256400, 36000, 0, "GST")
        } else {
         Table::row(-331891200, 36000, 3600, "GDT")
        }
       }
      }
     } else {
      if i < 7 {
       if i < 6 {
        Table::row(-281610000, 36000, 0, "GST")
       } else {
        Table::row(-73728000, 36000, 3600, "GDT")
       }
      } else {
       if i < 8 {
        Table::row(-29415540, 36000, 0, "GST")
       } else {
        if i < 9 {
         Table::row(-16704000, 36000, 3600, "GDT")
        } else {
         Table::row(-10659600, 36000, 0, "GST")
        }
       }
      }
     }
    } else {
     if i < 15 {
      if i < 12 {
       if i < 11 {
        Table::row(9907200, 36000, 3600, "GDT")
       } else {
        Table::row(21394800, 36000, 0, "GST")
       }
      } else {
       if i < 13 {
        Table::row(41356800, 36000, 3600, "GDT")
       } else {
        if i < 14 {
         Table::row(52844400, 36000, 0, "GST")
        } else {
         Table::row(124819200, 36000, 3600, "GDT")
        }
       }
      }
     } else {
      if i < 18 {
       if i < 16 {
        Table::row(130863600, 36000, 0, "GST")
       } else {
        if i < 17 {
         Table::row(201888000, 36000, 3600, "GDT")
        } else {
         Table::row(209487660, 36000, 0, "GST")
        }
       }
      } else {
       if i < 19 {
        Table::row(230659200, 36000, 3600, "GDT")
       } else {
        if i < 20 {
         Table::row(241542000, 36000, 0, "GST")
        } else {
         Table::row(977493600, 36000, 0, "ChST")
        }
       }
      }
     }
    }
}

/// The rows of the table of the zone `Pacific/Guam`.
pub open spec fn guam_rows() -> spec_fn(int) -> (i64, FixedTimespan) {
    |i: int| guam_row(i)
}

/// The table of the zone `Pacific/Guam`.
pub open spec fn guam() -> Table {
    Table::listed(Table::row(0, -51660, 0, "LMT").1, 21, guam_rows())
}

/// Row `i` of the table of the zone `Pacific/Honolulu`.
pub open spec fn honolulu_row(i: int) -> (i64, FixedTimespan) {
    if i < 3 {
     if i < 1 {
      Table::row(-2334101314, -37800, 0, "HST")
     } else {
      if i < 2 {
       Table::row(-1157283000, -37800, 3600, "HDT")
      } else {
       Table::row(-1155436200, -37800, 0, "HST")
      }
     }
    } else {
     if i < 5 {
      if i < 4 {
       Table::row(-880198200, -37800, 3600, "HWT")
      } else {
       Table::row(-769395600, -37800, 3600, "HPT")
      }
     } else {
      if i < 6 {
       Table::row(-765376200, -37800, 0, "HST")
      } else {
       Table::row(-712150200, -36000, 0, "HST")
      }
     }
    }
}

/// The rows of the table of the zone `Pacific/Honolulu`.
pub open spec fn honolulu_rows() -> spec_fn(int) -> (i64, FixedTimespan) {
    |i: int| honolulu_row(i)
}

/// The table of the zone `Pacific/Honolulu`.
pub open spec fn honolulu() -> Table {
    Table::listed(Table::row(0, -37886, 0, "LMT").1, 7, honolulu_rows())
}

/// Row `i` of the table of the zone `Pacific/Johnston`.
pub open spec fn johnston_row(i: int) -> (i64, FixedTimespan) {
    if i < 3 {
     if i < 1 {
      Table::row(-2334101314, -37800, 0, "HST")
     } else {
      if i < 2 {
       Table::row(-1157283000, -37800, 3600, "HDT")
      } else {
       Table::row(-1155436200, -37800, 0, "HST")
      }
     }
    } else {
     if i < 5 {
      if i < 4 {
       Table::row(-880198200, -37800, 3600, "HWT")
      } else {
       Table::row(-769395600, -37800, 3600, "HPT")
      }
     } else {
      if i < 6 {
       Table::row(-765376200, -37800, 0, "HST")
      } else {
       Table::row(-712150200, -36000, 0, "HST")
      }
     }
    }
}

/// The rows of the table of the zone `Pacific/Johnston`.
pub open spec fn johnston_rows() -> spec_fn(int) -> (i64, FixedTimespan) {
    |i: int| johnston_row(i)
}

/// The table of the zone `Pacific/Johnston`.
pub open spec fn johnston() -> Table {
    Table::listed(Table::row(0, -37886, 0, "LMT").1, 7, johnston_rows())
}

/// Row `i` of the table of the zone `Pacific/Kanton`.
pub open spec fn kanton_row(i: int) -> (i64, FixedTimespan) {
    if i < 2 {
     if i < 1 {
      Table::row(-1020470400, -43200, 0, "-12")
     } else {
      Table::row(307627200, -39600, 0, "-11")
     }
    } else {
     if i < 3 {
      Table::row(788871600, 46800, 0, "+13")
     } else {
      Table::row(2147483647, 46800, 0, "+13")
     }
    }
}

/// The rows of the table of the zone `Pacific/Kanton`.
pub open spec fn kanton_rows() -> spec_fn(int) -> (i64, FixedTimespan) {
    |i: int| kanton_row(i)
}

/// The table of the zone `Pacific/Kanton`.
pub open spec fn kanton() -> Table {
    Table::listed(Table::row(0, 0, 0, "-00").1, 4, kanton_rows())
}

/// Row `i` of the table of the zone `Pacific/Kiritimati`.
pub open spec fn kiritimati_row(i: int) -> (i64, FixedTimespan) {
    if i < 2 {
     if i < 1 {
      Table::row(-2177415040, -38400, 0, "-1040")
     } else {
      Table::row(307622400, -36000, 0, "-10")
     }
    } else {
     if i < 3 {
      Table::row(788868000, 50400, 0, "+14")
     } else {
      Table::row(2147483647, 50400, 0, "+14")
     }
    }
}

/// The rows of the table of the zone `Pacific/Kiritimati`.
pub open spec fn kiritimati_rows() -> spec_fn(int) -> (i64, FixedTimespan) {
    |i: int| kiritimati_row(i)
}

/// The table of the zone `Pacific/Kiritimati`.
pub open spec fn kiritimati() -> Table {
    Table::listed(Table::row(0, -37760, 0, "LMT").1, 4, kiritimati_rows())
}

/// Row `i` of the table of the zone `Pacific/Kosrae`.
pub open spec fn kosrae_row(i: int) -> (i64, FixedTimespan) {
    if i < 5 {
     if i < 2 {
      if i < 1 {
       Table::row(-3944631116, 39116, 0, "LMT")
      } else {
       Table::row(-2177491916, 39600, 0, "+11")
      }
     } else {
      if i < 3 {
       Table::row(-1743678000, 32400, 0, "+09")
      } else {
       if i < 4 {
        Table::row(-1606813200, 39600, 0, "+11")
       } else {
        Table::row(-1041418800, 36000, 0, "+10")
       }
      }
     }
    } else {
     if i < 7 {
      if i < 6 {
       Table::row(-907408800, 32400, 0, "+09")
      } else {
       Table::row(-770634000, 39600, 0, "+11")
      }
     } else {
      if i < 8 {
       Table::row(-7988400, 43200, 0, "+12")
      } else {
       if i < 9 {
        Table::row(915105600, 39600, 0, "+11")
       } else {
        Table::row(2147483647, 39600, 0, "+11")
       }
      }
     }
    }
}

/// The rows of the table of the zone `Pacific/Kosrae`.
pub open spec fn kosrae_rows() -> spec_fn(int) -> (i64, FixedTimespan) {
    |i: int| kosrae_row(i)
}

/// The table of the zone `Pacific/Kosrae`.
pub open spec fn kosrae() -> Table {
    Table::listed(Table::row(0, -47284, 0, "LMT").1, 10, kosrae_rows())
}

/// Row `i` of the table of the zone `Pacific/Kwajalein`.
pub open spec fn kwajalein_row(i: int) -> (i64, FixedTimespan) {
    if i < 3 {
     if i < 1 {
      Table::row(-2177492960, 39600, 0, "+11")
     } else {
      if i < 2 {
       Table::row(-1041418800, 36000, 0, "+10")
      } else {
       Table::row(-907408800, 32400, 0, "+09")
      }
     }
    } else {
     if i < 5 {
      if i < 4 {
       Table::row(-817462800, 39600, 0, "+11")
      } else {
       Table::row(-7988400, -43200, 0, "-12")
      }
     } else {
      if i < 6 {
       Table::row(745934400, 43200, 0, "+12")
      } else {
       Table::row(2147483647, 43200, 0, "+12")
      }
     }
    }
}

/// The rows of the table of the zone `Pacific/Kwajalein`.
pub open spec fn kwajalein_rows() -> spec_fn(int) -> (i64, FixedTimespan) {
    |i: int| kwajalein_row(i)
}

/// The table of the zone `Pacific/Kwajalein`.
pub open spec fn kwajalein() -> Table {
    Table::listed(Table::row(0, 40160, 0, "LMT").1, 7, kwajalein_rows())
}

/// Row `i` of the table of the zone `Pacific/Majuro`.
pub open spec fn majuro_row(i: int) -> (i64, FixedTimespan) {
    if i < 4 {
     if i < 2 {
      if i < 1 {
       Table::row(-2177493888, 39600, 0, "+11")
      } else {
       Table::row(-1743678000, 32400, 0, "+09")
      }
     } else {
      if i < 3 {
       Table::row(-1606813200, 39600, 0, "+11")
      } else {
       Table::row(-1041418800, 36000, 0, "+10")
      }
     }
    } else {
     if i < 6 {
      if i < 5 {
       Table::row(-907408800, 32400, 0, "+09")
      } else {
       Table::row(-818067600, 39600, 0, "+11")
      }
     } else {
      if i < 7 {
       Table::row(-7988400, 43200, 0, "+12")
      } else {
       Table::row(2147483647, 43200, 0, "+12")
      }
     }
    }
}

/// The rows of the table of the zone `Pacific/Majuro`.
pub open spec fn majuro_rows() -> spec_fn(int) -> (i64, FixedTimespan) {
    |i: int| majuro_row(i)
}

/// The table of the zone `Pacific/Majuro`.
pub open spec fn majuro() -> Table {
    Table::listed(Table::row(0, 41088, 0, "LMT").1, 8, majuro_rows())
}

/// Row `i` of the table of the zone `Pacific/Marquesas`.
pub open spec fn marquesas_row(i: int) -> (i64, FixedTimespan) {
    if i < 1 {
     Table::row(-1806676920, -34200, 0, "-0930")
    } else {
     Table::row(2147483647, -34200, 0, "-0930")
    }
}

/// The rows of the table of the zone `Pacific/Marquesas`.
pub open spec fn marquesas_rows() -> spec_fn(int) -> (i64, FixedTimespan) {
    |i: int| marquesas_row(i)
}

/// The table of the zone `Pacific/Marquesas`.
pub open spec fn marquesas() -> Table {
    Table::listed(Table::row(0, -33480, 0, "LMT").1, 2, marquesas_rows())
}

/// Row `i` of the table of the zone `Pacific/Midway`.
pub open spec fn midway_row(i: int) -> (i64, FixedTimespan) {
    if i < 1 {
     Table::row(-2177410232, -39600, 0, "-11")
    } else {
     if i < 2 {
      Table::row(-428504400, -39600, 3600, "-10")
     } else {
      Table::row(-420645600, -39600, 0, "SST")
     }
    }
}

/// The rows of the table of the zone `Pacific/Midway`.
pub open spec fn midway_rows() -> spec_fn(int) -> (i64, FixedTimespan) {
    |i: int| midway_row(i)
}

/// The table of the zone `Pacific/Midway`.
pub open spec fn midway() -> Table {
    Table::listed(Table::row(0, -42568, 0, "LMT").1, 3, midway_rows())
}

/// Row `i` of the table of the zone `Pacific/Nauru`.
pub open spec fn nauru_row(i: int) -> (i64, FixedTimespan) {
    if i < 2 {
     if i < 1 {
      Table::row(-1545131260, 41400, 0, "+1130")
     } else {
      Table::row(-862918200, 32400, 0, "+09")
     }
    } else {
     if i < 3 {
      Table::row(-767350800, 41400, 0, "+1130")
     } else {
      if i < 4 {
       Table::row(287418600, 43200, 0, "+12")
      } else {
       Table::row(2147483647, 43200, 0, "+12")
      }
     }
    }
}

/// The rows of the table of the zone `Pacific/Nauru`.
pub open spec fn nauru_rows() -> spec_fn(int) -> (i64, FixedTimespan) {
    |i: int| nauru_row(i)
}

/// The table of the zone `Pacific/Nauru`.
pub open spec fn nauru() -> Table {
    Table::listed(Table::row(0, 40060, 0, "LMT").1, 5, nauru_rows())
}

/// Row `i` of the table of the zone `Pacific/Niue`.
pub open spec fn niue_row(i: int) -> (i64, FixedTimespan) {
    if i < 1 {
     Table::row(-543069620, -40800, 0, "-1120")
    } else {
     if i < 2 {
      Table::row(-173623200, -39600, 0, "-11")
     } else {
      Table::row(2147483647, -39600, 0, "-11")
     }
    }
}

/// The rows of the table of the zone `Pacific/Niue`.
pub open spec fn niue_rows() -> spec_fn(int) -> (i64, FixedTimespan) {
    |i: int| niue_row(i)
}

/// The table of the zone `Pacific/Niue`.
pub open spec fn niue() -> Table {
    Table::listed(Table::row(0, -40780, 0, "LMT").1, 3, niue_rows())
}

/// Row `i` of the table of the zone `Pacific/Norfolk`.
pub open spec fn norfolk_row(i: int) -> (i64, FixedTimespan) {
    if i < 21 {
     if i < 10 {
      if i < 5 {
       if i < 2 {
        if i < 1 {
         Table::row(-2177493112, 40320, 0, "+1112")
        } else {
         Table::row(-599656320, 41400, 0, "+1130")
        }
       } else {
        if i < 3 {
         Table::row(152029800, 41400, 3600, "+1230")
        } else {
         if i < 4 {
          Table::row(162916200, 41400, 0, "+1130")
         } else {
          Table::row(1443882600, 39600, 0, "+11")
         }
        }
       }
      } else {
       if i < 7 {
        if i < 6 {
         Table::row(1570287600, 39600, 3600, "+12")
        } else {
         Table::row(1586012400, 39600, 0, "+11")
        }
       } else {
        if i < 8 {
         Table::row(1601737200, 39600, 3600, "+12")
        } else {
         if i < 9 {
          Table::row(1617462000, 39600, 0, "+11")
         } else {
          Table::row(1633186800, 39600, 3600, "+12")
         }
        }
       }
      }
     } else {
      if i < 15 {
       if i < 12 {
        if i < 11 {
         Table::row(1648911600, 39600, 0, "+11")
        } else {
         Table::row(1664636400, 39600, 3600, "+12")
        }
       } else {
        if i < 13 {
         Table::row(1680361200, 39600, 0, "+11")
        } else {
         if i < 14 {
          Table::row(1696086000, 39600, 3600, "+12")
         } else {
          Table::row(1712415600, 39600, 0, "+11")
         }
        }
       }
      } else {
       if i < 18 {
        if i < 16 {
         Table::row(1728140400, 39600, 3600, "+12")
        } else {
         if i < 17 {
          Table::row(1743865200, 39600, 0, "+11")
         } else {
          Table::row(1759590000, 39600, 3600, "+12")
         }
        }
       } else {
        if i < 19 {
         Table::row(1775314800, 39600, 0, "+11")
        } else {
         if i < 20 {
          Table::row(1791039600, 39600, 3600, "+12")
         } else {
          Table::row(1806764400, 39600, 0, "+11")
         }
        }
       }
      }
     }
    } else {
     if i < 32 {
      if i < 26 {
       if i < 23 {
        if i < 22 {
         Table::row(1822489200, 39600, 3600, "+12")
        } else {
         Table::row(1838214000, 39600, 0, "+11")
        }
       } else {
        if i < 24 {
         Table::row(1853938800, 39600, 3600, "+12")
        } else {
         if i < 25 {
          Table::row(1869663600, 39600, 0, "+11")
         } else {
          Table::row(1885993200, 39600, 3600, "+12")
         }
        }
       }
      } else {
       if i < 29 {
        if i < 27 {
         Table::row(1901718000, 39600, 0, "+11")
        } else {
         if i < 28 {
          Table::row(1917442800, 39600, 3600, "+12")
         } else {
          Table::row(1933167600, 39600, 0, "+11")
         }
        }
       } else {
        if i < 30 {
         Table::row(1948892400, 39600, 3600, "+12")
        } else {
         if i < 31 {
          Table::row(1964617200, 39600, 0, "+11")
         } else {
          Table::row(1980342000, 39600, 3600, "+12")
         }
        }
       }
      }
     } else {
      if i < 37 {
       if i < 34 {
        if i < 33 {
         Table::row(1996066800, 39600, 0, "+11")
        } else {
         Table::row(2011791600, 39600, 3600, "+12")
        }
       } else {
        if i < 35 {
         Table::row(2027516400, 39600, 0, "+11")
        } else {
         if i < 36 {
          Table::row(2043241200, 39600, 3600, "+12")
         } else {
          Table::row(2058966000, 39600, 0, "+11")
         }
        }
       }
      } else {
       if i < 40 {
        if i < 38 {
         Table::row(2075295600, 39600, 3600, "+12")
        } else {
         if i < 39 {
          Table::row(2091020400, 39600, 0, "+11")
         } else {
          Table::row(2106745200, 39600, 3600, "+12")
         }
        }
       } else {
        if i < 41 {
         Table::row(2122470000, 39600, 0, "+11")
        } else {
         if i < 42 {
          Table::row(2138194800, 39600, 3600, "+12")
         } else {
          Table::row(2147483647, 39600, 3600, "+12")
         }
        }
       }
      }
     }
    }
}

/// The rows of the table of the zone `Pacific/Norfolk`.
pub open spec fn norfolk_rows() -> spec_fn(int) -> (i64, FixedTimespan) {
    |i: int| norfolk_row(i)
}

/// The table of the zone `Pacific/Norfolk`.
pub open spec fn norfolk() -> Table {
    Table::listed(Table::row(0, 40312, 0, "LMT").1, 43, norfolk_rows())
}

/// Row `i` of the table of the zone `Pacific/Noumea`.
pub open spec fn noumea_row(i: int) -> (i64, FixedTimespan) {
    if i < 4 {
     if i < 2 {
      if i < 1 {
       Table::row(-1829387148, 39600, 0, "+11")
      } else {
       Table::row(250002000, 39600, 3600, "+12")
      }
     } else {
      if i < 3 {
       Table::row(257342400, 39600, 0, "+11")
      } else {
       Table::row(281451600, 39600, 3600, "+12")
      }
     }
    } else {
     if i < 6 {
      if i < 5 {
       Table::row(288878400, 39600, 0, "+11")
      } else {
       Table::row(849366000, 39600, 3600, "+12")
      }
     } else {
      if i < 7 {
       Table::row(857228400, 39600, 0, "+11")
      } else {
       Table::row(2147483647, 39600, 0, "+11")
      }
     }
    }
}

/// The rows of the table of the zone `Pacific/Noumea`.
pub open spec fn noumea_rows() -> spec_fn(int) -> (i64, FixedTimespan) {
    |i: int| noumea_row(i)
}

/// The table of the zone `Pacific/Noumea`.
pub open spec fn noumea() -> Table {
    Table::listed(Table::row(0, 39948, 0, "LMT").1, 8, noumea_rows())
}

/// Row `i` of the table of the zone `Pacific/Pago_Pago`.
pub open spec fn pago_pago_row(i: int) -> (i64, FixedTimespan) {
    if i < 1 {
     Table::row(-2445424632, -40968, 0, "LMT")
    } else {
     Table::row(-1861879032, -39600, 0, "SST")
    }
}

/// The rows of the table of the zone `Pacific/Pago_Pago`.
pub open spec fn pago_pago_rows() -> spec_fn(int) -> (i64, FixedTimespan) {
    |i: int| pago_pago_row(i)
}

/// The table of the zone `Pacific/Pago_Pago`.
pub open spec fn pago_pago() -> Table {
    Table::listed(Table::row(0, 45432, 0, "LMT").1, 2, pago_pago_rows())
}

/// Row `i` of the table of the zone `Pacific/Palau`.
pub open spec fn palau_row(i: int) -> (i64, FixedTimespan) {
    if i < 1 {
     Table::row(-3944624276, 32276, 0, "LMT")
    } else {
     if i < 2 {
      Table::row(-2177485076, 32400, 0, "+09")
     } else {
      Table::row(2147483647, 32400, 0, "+09")
     }
    }
}

/// The rows of the table of the zone `Pacific/Palau`.
pub open spec fn palau_rows() -> spec_fn(int) -> (i64, FixedTimespan) {
    |i: int| palau_row(i)
}

/// The table of the zone `Pacific/Palau`.
pub open spec fn palau() -> Table {
    Table::listed(Table::row(0, -54124, 0, "LMT").1, 3, palau_rows())
}

/// Row `i` of the table of the zone `Pacific/Pitcairn`.
pub open spec fn pitcairn_row(i: int) -> (i64, FixedTimespan) {
    if i < 1 {
     Table::row(-2177421580, -30600, 0, "-0830")
    } else {
     if i < 2 {
      Table::row(893665800, -28800, 0, "-08")
     } else {
      Table::row(2147483647, -28800, 0, "-08")
     }
    }
}

/// The rows of the table of the zone `Pacific/Pitcairn`.
pub open spec fn pitcairn_rows() -> spec_fn(int) -> (i64, FixedTimespan) {
    |i: int| pitcairn_row(i)
}

/// The table of the zone `Pacific/Pitcairn`.
pub open spec fn pitcairn() -> Table {
    Table::listed(Table::row(0, -31220, 0, "LMT").1, 3, pitcairn_rows())
}

/// Row `i` of the table of the zone `Pacific/Pohnpei`.
pub open spec fn pohnpei_row(i: int) -> (i64, FixedTimespan) {
    if i < 4 {
     if i < 2 {
      if i < 1 {
       Table::row(-3944629972, 37972, 0, "LMT")
      } else {
       Table::row(-2177490772, 39600, 0, "+11")
      }
     } else {
      if i < 3 {
       Table::row(-1743678000, 32400, 0, "+09")
      } else {
       Table::row(-1606813200, 39600, 0, "+11")
      }
     }
    } else {
     if i < 6 {
      if i < 5 {
       Table::row(-1041418800, 36000, 0, "+10")
      } else {
       Table::row(-907408800, 32400, 0, "+09")
      }
     } else {
      if i < 7 {
       Table::row(-770634000, 39600, 0, "+11")
      } else {
       Table::row(2147483647, 39600, 0, "+11")
      }
     }
    }
}

/// The rows of the table of the zone `Pacific/Pohnpei`.
pub open spec fn pohnpei_rows() -> spec_fn(int) -> (i64, FixedTimespan) {
    |i: int| pohnpei_row(i)
}

/// The table of the zone `Pacific/Pohnpei`.
pub open spec fn pohnpei() -> Table {
    Table::listed(Table::row(0, -48428, 0, "LMT").1, 8, pohnpei_rows())
}

/// Row `i` of the table of the zone `Pacific/Ponape`.
pub open spec fn ponape_row(i: int) -> (i64, FixedTimespan) {
    if i < 1 {
     Table::row(-1806748788, 39600, 0, "+11")
    } else {
     Table::row(2147483647, 39600, 0, "+11")
    }
}

/// The rows of the table of the zone `Pacific/Ponape`.
pub open spec fn ponape_rows() -> spec_fn(int) -> (i64, FixedTimespan) {
    |i: int| ponape_row(i)
}

/// The table of the zone `Pacific/Ponape`.
pub open spec fn ponape() -> Table {
    Table::listed(Table::row(0, 38388, 0, "LMT").1, 2, ponape_rows())
}

/// Row `i` of the table of the zone `Pacific/Port_Moresby`.
pub open spec fn port_moresby_row(i: int) -> (i64, FixedTimespan) {
    if i < 1 {
     Table::row(-2840176120, 35312, 0, "PMMT")
    } else {
     if i < 2 {
      Table::row(-2366790512, 36000, 0, "+10")
     } else {
      Table::row(2147483647, 36000, 0, "+10")
     }
    }
}

/// The rows of the table of the zone `Pacific/Port_Moresby`.
pub open spec fn port_moresby_rows() -> spec_fn(int) -> (i64, FixedTimespan) {
    |i: int| port_moresby_row(i)
}

/// The table of the zone `Pacific/Port_Moresby`.
pub open spec fn port_moresby() -> Table {
    Table::listed(Table::row(0, 35320, 0, "LMT").1, 3, port_moresby_rows())
}

/// Row `i` of the table of the zone `Pacific/Rarotonga`.
pub open spec fn rarotonga_row(i: int) -> (i64, FixedTimespan) {
    if i < 14 {
     if i < 7 {
      if i < 3 {
       if i < 1 {
        Table::row(-2209555256, -38344, 0, "LMT")
       } else {
        if i < 2 {
         Table::row(-543072056, -37800, 0, "-1030")
        } else {
         Table::row(279714600, -37800, 3600, "-0930")
        }
       }
      } else {
       if i < 5 {
        if i < 4 {
         Table::row(289387800, -36000, 0, "-10")
        } else {
         Table::row(309952800, -36000, 1800, "-0930")
        }
       } else {
        if i < 6 {
         Table::row(320837400, -36000, 0, "-10")
        } else {
         Table::row(341402400, -36000, 1800, "-0930")
        }
       }
      }
     } else {
      if i < 10 {
       if i < 8 {
        Table::row(352287000, -36000, 0, "-10")
       } else {
        if i < 9 {
         Table::row(372852000, -36000, 1800, "-0930")
        } else {
         Table::row(384341400, -36000, 0, "-10")
        }
       }
      } else {
       if i < 12 {
        if i < 11 {
         Table::row(404906400, -36000, 1800, "-0930")
        } else {
         Table::row(415791000, -36000, 0, "-10")
        }
       } else {
        if i < 13 {
         Table::row(436356000, -36000, 1800, "-0930")
        } else {
         Table::row(447240600, -36000, 0, "-10")
        }
       }
      }
     }
    } else {
     if i < 21 {
      if i < 17 {
       if i < 15 {
        Table::row(467805600, -36000, 1800, "-0930")
       } else {
        if i < 16 {
         Table::row(478690200, -36000, 0, "-10")
        } else {
         Table::row(499255200, -36000, 1800, "-0930")
        }
       }
      } else {
       if i < 19 {
        if i < 18 {
         Table::row(510139800, -36000, 0, "-10")
        } else {
         Table::row(530704800, -36000, 1800, "-0930")
        }
       } else {
        if i < 20 {
         Table::row(541589400, -36000, 0, "-10")
        } else {
         Table::row(562154400, -36000, 1800, "-0930")
        }
       }
      }
     } else {
      if i < 25 {
       if i < 23 {
        if i < 22 {
         Table::row(573643800, -36000, 0, "-10")
        } else {
         Table::row(594208800, -36000, 1800, "-0930")
        }
       } else {
        if i < 24 {
         Table::row(605093400, -36000, 0, "-10")
        } else {
         Table::row(625658400, -36000, 1800, "-0930")
        }
       }
      } else {
       if i < 27 {
        if i < 26 {
         Table::row(636543000, -36000, 0, "-10")
        } else {
         Table::row(657108000, -36000, 1800, "-0930")
        }
       } else {
        if i < 28 {
         Table::row(667992600, -36000, 0, "-10")
        } else {
         Table::row(2147483647, -36000, 0, "-10")
        }
       }
      }
     }
    }
}

/// The rows of the table of the zone `Pacific/Rarotonga`.
pub open spec fn rarotonga_rows() -> spec_fn(int) -> (i64, FixedTimespan) {
    |i: int| rarotonga_row(i)
}

/// The table of the zone `Pacific/Rarotonga`.
pub open spec fn rarotonga() -> Table {
    Table::listed(Table::row(0, 48056, 0, "LMT").1, 29, rarotonga_rows())
}

/// Row `i` of the table of the zone `Pacific/Saipan`.
pub open spec fn saipan_row(i: int) -> (i64, FixedTimespan) {
    if i < 10 {
     if i < 5 {
      if i < 2 {
       if i < 1 {
        Table::row(-3944626980, 34980, 0, "LMT")
       } else {
        Table::row(-2177487780, 32400, 0, "+09")
       }
      } else {
       if i < 3 {
        Table::row(-804157200, 36000, 0, "GST")
       } else {
        if i < 4 {
         Table::row(-331891200, 36000, 3600, "GDT")
        } else {
         Table::row(-281610000, 36000, 0, "GST")
        }
       }
      }
     } else {
      if i < 7 {
       if i < 6 {
        Table::row(-73728000, 36000, 3600, "GDT")
       } else {
        Table::row(-29415540, 36000, 0, "GST")
       }
      } else {
       if i < 8 {
        Table::row(-16704000, 36000, 3600, "GDT")
       } else {
        if i < 9 {
         Table::row(-10659600, 36000, 0, "GST")
        } else {
         Table::row(9907200, 36000, 3600, "GDT")
        }
       }
      }
     }
    } else {
     if i < 15 {
      if i < 12 {
       if i < 11 {
        Table::row(21394800, 36000, 0, "GST")
       } else {
        Table::row(41356800, 36000, 3600, "GDT")
       }
      } else {
       if i < 13 {
        Table::row(52844400, 36000, 0, "GST")
       } else {
        if i < 14 {
         Table::row(124819200, 36000, 3600, "GDT")
        } else {
         Table::row(130863600, 36000, 0, "GST")
        }
       }
      }
     } else {
      if i < 17 {
       if i < 16 {
        Table::row(201888000, 36000, 3600, "GDT")
       } else {
        Table::row(209487660, 36000, 0, "GST")
       }
      } else {
       if i < 18 {
        Table::row(230659200, 36000, 3600, "GDT")
       } else {
        if i < 19 {
         Table::row(241542000, 36000, 0, "GST")
        } else {
         Table::row(977493600, 36000, 0, "ChST")
        }
       }
      }
     }
    }
}

/// The rows of the table of the zone `Pacific/Saipan`.
pub open spec fn saipan_rows() -> spec_fn(int) -> (i64, FixedTimespan) {
    |i: int| saipan_row(i)
}

/// The table of the zone `Pacific/Saipan`.
pub open spec fn saipan() -> Table {
    Table::listed(Table::row(0, -51420, 0, "LMT").1, 20, saipan_rows())
}

/// Row `i` of the table of the zone `Pacific/Samoa`.
pub open spec fn samoa_row(i: int) -> (i64, FixedTimespan) {
    if i < 1 {
     Table::row(-2445424632, -40968, 0, "LMT")
    } else {
     Table::row(-1861879032, -39600, 0, "SST")
    }
}

/// The rows of the table of the zone `Pacific/Samoa`.
pub open spec fn samoa_rows() -> spec_fn(int) -> (i64, FixedTimespan) {
    |i: int| samoa_row(i)
}

/// The table of the zone `Pacific/Samoa`.
pub open spec fn samoa() -> Table {
    Table::listed(Table::row(0, 45432, 0, "LMT").1, 2, samoa_rows())
}

/// Row `i` of the table of the zone `Pacific/Tahiti`.
pub open spec fn tahiti_row(i: int) -> (i64, FixedTimespan) {
    if i < 1 {
     Table::row(-1806674504, -36000, 0, "-10")
    } else {
     Table::row(2147483647, -36000, 0, "-10")
    }
}

/// The rows of the table of the zone `Pacific/Tahiti`.
pub open spec fn tahiti_rows() -> spec_fn(int) -> (i64, FixedTimespan) {
    |i: int| tahiti_row(i)
}

/// The table of the zone `Pacific/Tahiti`.
pub open spec fn tahiti() -> Table {
    Table::listed(Table::row(0, -35896, 0, "LMT").1, 2, tahiti_rows())
}

/// Row `i` of the table of the zone `Pacific/Tarawa`.
pub open spec fn tarawa_row(i: int) -> (i64, FixedTimespan) {
    if i < 1 {
     Table::row(-2177494324, 43200, 0, "+12")
    } else {
     Table::row(2147483647, 43200, 0, "+12")
    }
}

/// The rows of the table of the zone `Pacific/Tarawa`.
pub open spec fn tarawa_rows() -> spec_fn(int) -> (i64, FixedTimespan) {
    |i: int| tarawa_row(i)
}

/// The table of the zone `Pacific/Tarawa`.
pub open spec fn tarawa() -> Table {
    Table::listed(Table::row(0, 41524, 0, "LMT").1, 2, tarawa_rows())
}

/// Row `i` of the table of the zone `Pacific/Tongatapu`.
pub open spec fn tongatapu_row(i: int) -> (i64, FixedTimespan) {
    if i < 5 {
     if i < 2 {
      if i < 1 {
       Table::row(-767189952, 44400, 0, "+1220")
      } else {
       Table::row(-284041200, 46800, 0, "+13")
      }
     } else {
      if i < 3 {
       Table::row(939214800, 46800, 3600, "+14")
      } else {
       if i < 4 {
        Table::row(953384400, 46800, 0, "+13")
       } else {
        Table::row(973342800, 46800, 3600, "+14")
       }
      }
     }
    } else {
     if i < 8 {
      if i < 6 {
       Table::row(980596800, 46800, 0, "+13")
      } else {
       if i < 7 {
        Table::row(1004792400, 46800, 3600, "+14")
       } else {
        Table::row(1012046400, 46800, 0, "+13")
       }
      }
     } else {
      if i < 9 {
       Table::row(1478350800, 46800, 3600, "+14")
      } else {
       if i < 10 {
        Table::row(1484398800, 46800, 0, "+13")
       } else {
        Table::row(2147483647, 46800, 0, "+13")
       }
      }
     }
    }
}

/// The rows of the table of the zone `Pacific/Tongatapu`.
pub open spec fn tongatapu_rows() -> spec_fn(int) -> (i64, FixedTimespan) {
    |i: int| tongatapu_row(i)
}

/// The table of the zone `Pacific/Tongatapu`.
pub open spec fn tongatapu() -> Table {
    Table::listed(Table::row(0, 44352, 0, "LMT").1, 11, tongatapu_rows())
}

/// Row `i` of the table of the zone `Pacific/Truk`.
pub open spec fn truk_row(i: int) -> (i64, FixedTimespan) {
    if i < 1 {
     Table::row(-2840176120, 35312, 0, "PMMT")
    } else {
     if i < 2 {
      Table::row(-2366790512, 36000, 0, "+10")
     } else {
      Table::row(2147483647, 36000, 0, "+10")
     }
    }
}

/// The rows of the table of the zone `Pacific/Truk`.
pub open spec fn truk_rows() -> spec_fn(int) -> (i64, FixedTimespan) {
    |i: int| truk_row(i)
}

/// The table of the zone `Pacific/Truk`.
pub open spec fn truk() -> Table {
    Table::listed(Table::row(0, 35320, 0, "LMT").1, 3, truk_rows())
}

/// Row `i` of the table of the zone `Pacific/Wake`.
pub open spec fn wake_row(i: int) -> (i64, FixedTimespan) {
    if i < 1 {
     Table::row(-2177492788, 43200, 0, "+12")
    } else {
     Table::row(2147483647, 43200, 0, "+12")
    }
}

/// The rows of the table of the zone `Pacific/Wake`.
pub open spec fn wake_rows() -> spec_fn(int) -> (i64, FixedTimespan) {
    |i: int| wake_row(i)
}

/// The table of the zone `Pacific/Wake`.
pub open spec fn wake() -> Table {
    Table::listed(Table::row(0, 39988, 0, "LMT").1, 2, wake_rows())
}

/// Row `i` of the table of the zone `Pacific/Wallis`.
pub open spec fn wallis_row(i: int) -> (i64, FixedTimespan) {
    if i < 1 {
     Table::row(-2177496920, 43200, 0, "+12")
    } else {
     Table::row(2147483647, 43200, 0, "+12")
    }
}

/// The rows of the table of the zone `Pacific/Wallis`.
pub open spec fn wallis_rows() -> spec_fn(int) -> (i64, FixedTimespan) {
    |i: int| wallis_row(i)
}

/// The table of the zone `Pacific/Wallis`.
pub open spec fn wallis() -> Table {
    Table::listed(Table::row(0, 44120, 0, "LMT").1, 2, wallis_rows())
}

/// Row `i` of the table of the zone `Pacific/Yap`.
pub open spec fn yap_row(i: int) -> (i64, FixedTimespan) {
    if i < 1 {
     Table::row(-2840176120, 35312, 0, "PMMT")
    } else {
     if i < 2 {
      Table::row(-2366790512, 36000, 0, "+10")
     } else {
      Table::row(2147483647, 36000, 0, "+10")
     }
    }
}

/// The rows of the table of the zone `Pacific/Yap`.
pub open spec fn yap_rows() -> spec_fn(int) -> (i64, FixedTimespan) {
    |i: int| yap_row(i)
}

/// The table of the zone `Pacific/Yap`.
pub open spec fn yap() -> Table {
    Table::listed(Table::row(0, 35320, 0, "LMT").1, 3, yap_rows())
}

} // verus!
