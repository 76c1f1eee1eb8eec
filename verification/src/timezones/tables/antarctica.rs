//! The tables of the zones of Antarctica.

use crate::timezone_impl::{FixedTimespan, Table};
use vstd::prelude::*;

verus! {

/// Row `i` of the table of the zone `Antarctica/Casey`.
pub open spec fn casey_row(i: int) -> (i64, FixedTimespan) {
    if i < 9 {
     if i < 4 {
      if i < 2 {
       if i < 1 {
        Table::row(-31536000, 28800, 0, "+08")
       } else {
        Table::row(1255802400, 39600, 0, "+11")
       }
      } else {
       if i < 3 {
        Table::row(1267714800, 28800, 0, "+08")
       } else {
        Table::row(1319738400, 39600, 0, "+11")
       }
      }
     } else {
      if i < 6 {
       if i < 5 {
        Table::row(1329843600, 28800, 0, "+08")
       } else {
        Table::row(1477065600, 39600, 0, "+11")
       }
      } else {
       if i < 7 {
        Table::row(1520701200, 28800, 0, "+08")
       } else {
        if i < 8 {
         Table::row(1538856000, 39600, 0, "+11")
        } else {
         Table::row(1552752000, 28800, 0, "+08")
        }
       }
      }
     }
    } else {
     if i < 13 {
      if i < 11 {
       if i < 10 {
        Table::row(1570129200, 39600, 0, "+11")
       } else {
        Table::row(1583596800, 28800, 0, "+08")
       }
      } else {
       if i < 12 {
        Table::row(1601740860, 39600, 0, "+11")
       } else {
        Table::row(1615640400, 28800, 0, "+08")
       }
      }
     } else {
      if i < 15 {
       if i < 14 {
        Table::row(1633190460, 39600, 0, "+11")
       } else {
        Table::row(1647090000, 28800, 0, "+08")
       }
      } else {
       if i < 16 {
        Table::row(1664640060, 39600, 0, "+11")
       } else {
        if i < 17 {
         Table::row(1678291200, 28800, 0, "+08")
        } else {
         Table::row(2147483647, 28800, 0, "+08")
        }
       }
      }
     }
    }
}

/// The rows of the table of the zone `Antarctica/Casey`.
pub open spec fn casey_rows() -> spec_fn(int) -> (i64, FixedTimespan) {
    |i: int| casey_row(i)
}

/// The table of the zone `Antarctica/Casey`.
pub open spec fn casey() -> Table {
    Table::listed(Table::row(0, 0, 0, "-00").1, 18, casey_rows())
}

/// Row `i` of the table of the zone `Antarctica/Davis`.
pub open spec fn davis_row(i: int) -> (i64, FixedTimespan) {
    if i < 4 {
     if i < 2 {
      if i < 1 {
       Table::row(-409190400, 25200, 0, "+07")
      } else {
       Table::row(-163062000, 0, 0, "-00")
      }
     } else {
      if i < 3 {
       Table::row(-28857600, 25200, 0, "+07")
      } else {
       Table::row(1255806000, 18000, 0, "+05")
      }
     }
    } else {
     if i < 6 {
      if i < 5 {
       Table::row(1268251200, 25200, 0, "+07")
      } else {
       Table::row(1319742000, 18000, 0, "+05")
      }
     } else {
      if i < 7 {
       Table::row(1329854400, 25200, 0, "+07")
      } else {
       Table::row(2147483647, 25200, 0, "+07")
      }
     }
    }
}

/// The rows of the table of the zone `Antarctica/Davis`.
pub open spec fn davis_rows() -> spec_fn(int) -> (i64, FixedTimespan) {
    |i: int| davis_row(i)
}

/// The table of the zone `Antarctica/Davis`.
pub open spec fn davis() -> Table {
    Table::listed(Table::row(0, 0, 0, "-00").1, 8, davis_rows())
}

/// Row `i` of the table of the zone `Antarctica/DumontDUrville`.
pub open spec fn dumontdurville_row(i: int) -> (i64, FixedTimespan) {
    if i < 2 {
     if i < 1 {
      Table::row(-725846400, 36000, 0, "+10")
     } else {
      Table::row(-566992800, 0, 0, "-00")
     }
    } else {
     if i < 3 {
      Table::row(-415497600, 36000, 0, "+10")
     } else {
      Table::row(2147483647, 36000, 0, "+10")
     }
    }
}

/// The rows of the table of the zone `Antarctica/DumontDUrville`.
pub open spec fn dumontdurville_rows() -> spec_fn(int) -> (i64, FixedTimespan) {
    |i: int| dumontdurville_row(i)
}

/// The table of the zone `Antarctica/DumontDUrville`.
pub open spec fn dumontdurville() -> Table {
    Table::listed(Table::row(0, 0, 0, "-00").1, 4, dumontdurville_rows())
}

/// Row `i` of the table of the zone `Antarctica/Macquarie`.
pub open spec fn macquarie_row(i: int) -> (i64, FixedTimespan) {
    if i < 72 {
     if i < 36 {
      if i < 18 {
       if i < 9 {
        if i < 4 {
         if i < 2 {
          if i < 1 {
           Table::row(-2214259200, 36000, 0, "AEST")
          } else {
           Table::row(-1680508800, 36000, 3600, "AEDT")
          }
         } else {
          if i < 3 {
           Table::row(-1665388800, 36000, 0, "AEST")
          } else {
           Table::row(-1601719200, 0, 0, "-00")
          }
         }
        } else {
         if i < 6 {
          if i < 5 {
           Table::row(-687052800, 36000, 0, "AEST")
          } else {
           Table::row(-71136000, 36000, 3600, "AEDT")
          }
         } else {
          if i < 7 {
           Table::row(-55411200, 36000, 0, "AEST")
          } else {
           if i < 8 {
            Table::row(-37267200, 36000, 3600, "AEDT")
           } else {
            Table::row(-25776000, 36000, 0, "AEST")
           }
          }
         }
        }
       } else {
        if i < 13 {
         if i < 11 {
          if i < 10 {
           Table::row(-5817600, 36000, 3600, "AEDT")
          } else {
           Table::row(5673600, 36000, 0, "AEST")
          }
         } else {
          if i < 12 {
           Table::row(25632000, 36000, 3600, "AEDT")
          } else {
           Table::row(37728000, 36000, 0, "AEST")
          }
         }
        } else {
         if i < 15 {
          if i < 14 {
           Table::row(57686400, 36000, 3600, "AEDT")
          } else {
           Table::row(67968000, 36000, 0, "AEST")
          }
         } else {
          if i < 16 {
           Table::row(89136000, 36000, 3600, "AEDT")
          } else {
           if i < 17 {
            Table::row(100022400, 36000, 0, "AEST")
           } else {
            Table::row(120585600, 36000, 3600, "AEDT")
           }
          }
         }
        }
       }
      } else {
       if i < 27 {
        if i < 22 {
         if i < 20 {
          if i < 19 {
           Table::row(131472000, 36000, 0, "AEST")
          } else {
           Table::row(152035200, 36000, 3600, "AEDT")
          }
         } else {
          if i < 21 {
           Table::row(162921600, 36000, 0, "AEST")
          } else {
           Table::row(183484800, 36000, 3600, "AEDT")
          }
         }
        } else {
         if i < 24 {
          if i < 23 {
           Table::row(194976000, 36000, 0, "AEST")
          } else {
           Table::row(215539200, 36000, 3600, "AEDT")
          }
         } else {
          if i < 25 {
           Table::row(226425600, 36000, 0, "AEST")
          } else {
           if i < 26 {
            Table::row(246988800, 36000, 3600, "AEDT")
           } else {
            Table::row(257875200, 36000, 0, "AEST")
           }
          }
         }
        }
       } else {
        if i < 31 {
         if i < 29 {
          if i < 28 {
           Table::row(278438400, 36000, 3600, "AEDT")
          } else {
           Table::row(289324800, 36000, 0, "AEST")
          }
         } else {
          if i < 30 {
           Table::row(309888000, 36000, 3600, "AEDT")
          } else {
           Table::row(320774400, 36000, 0, "AEST")
          }
         }
        } else {
         if i < 33 {
          if i < 32 {
           Table::row(341337600, 36000, 3600, "AEDT")
          } else {
           Table::row(352224000, 36000, 0, "AEST")
          }
         } else {
          if i < 34 {
           Table::row(372787200, 36000, 3600, "AEDT")
          } else {
           if i < 35 {
            Table::row(386092800, 36000, 0, "AEST")
           } else {
            Table::row(404841600, 36000, 3600, "AEDT")
           }
          }
         }
        }
       }
      }
     } else {
      if i < 54 {
       if i < 45 {
        if i < 40 {
         if i < 38 {
          if i < 37 {
           Table::row(417542400, 36000, 0, "AEST")
          } else {
           Table::row(436291200, 36000, 3600, "AEDT")
          }
         } else {
          if i < 39 {
           Table::row(447177600, 36000, 0, "AEST")
          } else {
           Table::row(467740800, 36000, 3600, "AEDT")
          }
         }
        } else {
         if i < 42 {
          if i < 41 {
           Table::row(478627200, 36000, 0, "AEST")
          } else {
           Table::row(499190400, 36000, 3600, "AEDT")
          }
         } else {
          if i < 43 {
           Table::row(510076800, 36000, 0, "AEST")
          } else {
           if i < 44 {
            Table::row(530035200, 36000, 3600, "AEDT")
           } else {
            Table::row(542736000, 36000, 0, "AEST")
           }
          }
         }
        }
       } else {
        if i < 49 {
         if i < 47 {
          if i < 46 {
           Table::row(562089600, 36000, 3600, "AEDT")
          } else {
           Table::row(574790400, 36000, 0, "AEST")
          }
         } else {
          if i < 48 {
           Table::row(594144000, 36000, 3600, "AEDT")
          } else {
           Table::row(606240000, 36000, 0, "AEST")
          }
         }
        } else {
         if i < 51 {
          if i < 50 {
           Table::row(625593600, 36000, 3600, "AEDT")
          } else {
           Table::row(637689600, 36000, 0, "AEST")
          }
         } else {
          if i < 52 {
           Table::row(657043200, 36000, 3600, "AEDT")
          } else {
           if i < 53 {
            Table::row(670348800, 36000, 0, "AEST")
           } else {
            Table::row(686678400, 36000, 3600, "AEDT")
           }
          }
         }
        }
       }
      } else {
       if i < 63 {
        if i < 58 {
         if i < 56 {
          if i < 55 {
           Table::row(701798400, 36000, 0, "AEST")
          } else {
           Table::row(718128000, 36000, 3600, "AEDT")
          }
         } else {
          if i < 57 {
           Table::row(733248000, 36000, 0, "AEST")
          } else {
           Table::row(749577600, 36000, 3600, "AEDT")
          }
         }
        } else {
         if i < 60 {
          if i < 59 {
           Table::row(764697600, 36000, 0, "AEST")
          } else {
           Table::row(781027200, 36000, 3600, "AEDT")
          }
         } else {
          if i < 61 {
           Table::row(796147200, 36000, 0, "AEST")
          } else {
           if i < 62 {
            Table::row(812476800, 36000, 3600, "AEDT")
           } else {
            Table::row(828201600, 36000, 0, "AEST")
           }
          }
         }
        }
       } else {
        if i < 67 {
         if i < 65 {
          if i < 64 {
           Table::row(844531200, 36000, 3600, "AEDT")
          } else {
           Table::row(859651200, 36000, 0, "AEST")
          }
         } else {
          if i < 66 {
           Table::row(875980800, 36000, 3600, "AEDT")
          } else {
           Table::row(891100800, 36000, 0, "AEST")
          }
         }
        } else {
         if i < 69 {
          if i < 68 {
           Table::row(907430400, 36000, 3600, "AEDT")
          } else {
           Table::row(922550400, 36000, 0, "AEST")
          }
         } else {
          if i < 70 {
           Table::row(938880000, 36000, 3600, "AEDT")
          } else {
           if i < 71 {
            Table::row(954000000, 36000, 0, "AEST")
           } else {
            Table::row(967305600, 36000, 3600, "AEDT")
           }
          }
         }
        }
       }
      }
     }
    } else {
     if i < 108 {
      if i < 90 {
       if i < 81 {
        if i < 76 {
         if i < 74 {
          if i < 73 {
           Table::row(985449600, 36000, 0, "AEST")
          } else {
           Table::row(1002384000, 36000, 3600, "AEDT")
          }
         } else {
          if i < 75 {
           Table::row(1017504000, 36000, 0, "AEST")
          } else {
           Table::row(1033833600, 36000, 3600, "AEDT")
          }
         }
        } else {
         if i < 78 {
          if i < 77 {
           Table::row(1048953600, 36000, 0, "AEST")
          } else {
           Table::row(1065283200, 36000, 3600, "AEDT")
          }
         } else {
          if i < 79 {
           Table::row(1080403200, 36000, 0, "AEST")
          } else {
           if i < 80 {
            Table::row(1096732800, 36000, 3600, "AEDT")
           } else {
            Table::row(1111852800, 36000, 0, "AEST")
           }
          }
         }
        }
       } else {
        if i < 85 {
         if i < 83 {
          if i < 82 {
           Table::row(1128182400, 36000, 3600, "AEDT")
          } else {
           Table::row(1143907200, 36000, 0, "AEST")
          }
         } else {
          if i < 84 {
           Table::row(1159632000, 36000, 3600, "AEDT")
          } else {
           Table::row(1174752000, 36000, 0, "AEST")
          }
         }
        } else {
         if i < 87 {
          if i < 86 {
           Table::row(1191686400, 36000, 3600, "AEDT")
          } else {
           Table::row(1207411200, 36000, 0, "AEST")
          }
         } else {
          if i < 88 {
           Table::row(1223136000, 36000, 3600, "AEDT")
          } else {
           if i < 89 {
            Table::row(1238860800, 36000, 0, "AEST")
           } else {
            Table::row(1254585600, 36000, 3600, "AEDT")
           }
          }
         }
        }
       }
      } else {
       if i < 99 {
        if i < 94 {
         if i < 92 {
          if i < 91 {
           Table::row(1301760000, 36000, 0, "AEST")
          } else {
           Table::row(1317484800, 36000, 3600, "AEDT")
          }
         } else {
          if i < 93 {
           Table::row(1333209600, 36000, 0, "AEST")
          } else {
           Table::row(1349539200, 36000, 3600, "AEDT")
          }
         }
        } else {
         if i < 96 {
          if i < 95 {
           Table::row(1365264000, 36000, 0, "AEST")
          } else {
           Table::row(1380988800, 36000, 3600, "AEDT")
          }
         } else {
          if i < 97 {
           Table::row(1396713600, 36000, 0, "AEST")
          } else {
           if i < 98 {
            Table::row(1412438400, 36000, 3600, "AEDT")
           } else {
            Table::row(1428163200, 36000, 0, "AEST")
           }
          }
         }
        }
       } else {
        if i < 103 {
         if i < 101 {
          if i < 100 {
           Table::row(1443888000, 36000, 3600, "AEDT")
          } else {
           Table::row(1459612800, 36000, 0, "AEST")
          }
         } else {
          if i < 102 {
           Table::row(1475337600, 36000, 3600, "AEDT")
          } else {
           Table::row(1491062400, 36000, 0, "AEST")
          }
         }
        } else {
         if i < 105 {
          if i < 104 {
           Table::row(1506787200, 36000, 3600, "AEDT")
          } else {
           Table::row(1522512000, 36000, 0, "AEST")
          }
         } else {
          if i < 106 {
           Table::row(1538841600, 36000, 3600, "AEDT")
          } else {
           if i < 107 {
            Table::row(1554566400, 36000, 0, "AEST")
           } else {
            Table::row(1570291200, 36000, 3600, "AEDT")
           }
          }
         }
        }
       }
      }
     } else {
      if i < 126 {
       if i < 117 {
        if i < 112 {
         if i < 110 {
          if i < 109 {
           Table::row(1586016000, 36000, 0, "AEST")
          } else {
           Table::row(1601740800, 36000, 3600, "AEDT")
          }
         } else {
          if i < 111 {
           Table::row(1617465600, 36000, 0, "AEST")
          } else {
           Table::row(1633190400, 36000, 3600, "AEDT")
          }
         }
        } else {
         if i < 114 {
          if i < 113 {
           Table::row(1648915200, 36000, 0, "AEST")
          } else {
           Table::row(1664640000, 36000, 3600, "AEDT")
          }
         } else {
          if i < 115 {
           Table::row(1680364800, 36000, 0, "AEST")
          } else {
           if i < 116 {
            Table::row(1696089600, 36000, 3600, "AEDT")
           } else {
            Table::row(1712419200, 36000, 0, "AEST")
           }
          }
         }
        }
       } else {
        if i < 121 {
         if i < 119 {
          if i < 118 {
           Table::row(1728144000, 36000, 3600, "AEDT")
          } else {
           Table::row(1743868800, 36000, 0, "AEST")
          }
         } else {
          if i < 120 {
           Table::row(1759593600, 36000, 3600, "AEDT")
          } else {
           Table::row(1775318400, 36000, 0, "AEST")
          }
         }
        } else {
         if i < 123 {
          if i < 122 {
           Table::row(1791043200, 36000, 3600, "AEDT")
          } else {
           Table::row(1806768000, 36000, 0, "AEST")
          }
         } else {
          if i < 124 {
           Table::row(1822492800, 36000, 3600, "AEDT")
          } else {
           if i < 125 {
            Table::row(1838217600, 36000, 0, "AEST")
           } else {
            Table::row(1853942400, 36000, 3600, "AEDT")
           }
          }
         }
        }
       }
      } else {
       if i < 135 {
        if i < 130 {
         if i < 128 {
          if i < 127 {
           Table::row(1869667200, 36000, 0, "AEST")
          } else {
           Table::row(1885996800, 36000, 3600, "AEDT")
          }
         } else {
          if i < 129 {
           Table::row(1901721600, 36000, 0, "AEST")
          } else {
           Table::row(1917446400, 36000, 3600, "AEDT")
          }
         }
        } else {
         if i < 132 {
          if i < 131 {
           Table::row(1933171200, 36000, 0, "AEST")
          } else {
           Table::row(1948896000, 36000, 3600, "AEDT")
          }
         } else {
          if i < 133 {
           Table::row(1964620800, 36000, 0, "AEST")
          } else {
           if i < 134 {
            Table::row(1980345600, 36000, 3600, "AEDT")
           } else {
            Table::row(1996070400, 36000, 0, "AEST")
           }
          }
         }
        }
       } else {
        if i < 139 {
         if i < 137 {
          if i < 136 {
           Table::row(2011795200, 36000, 3600, "AEDT")
          } else {
           Table::row(2027520000, 36000, 0, "AEST")
          }
         } else {
          if i < 138 {
           Table::row(2043244800, 36000, 3600, "AEDT")
          } else {
           Table::row(2058969600, 36000, 0, "AEST")
          }
         }
        } else {
         if i < 141 {
          if i < 140 {
           Table::row(2075299200, 36000, 3600, "AEDT")
          } else {
           Table::row(2091024000, 36000, 0, "AEST")
          }
         } else {
          if i < 142 {
           Table::row(2106748800, 36000, 3600, "AEDT")
          } else {
           if i < 143 {
            Table::row(2122473600, 36000, 0, "AEST")
           } else {
            Table::row(2138198400, 36000, 3600, "AEDT")
           }
          }
         }
        }
       }
      }
     }
    }
}

/// The rows of the table of the zone `Antarctica/Macquarie`.
pub open spec fn macquarie_rows() -> spec_fn(int) -> (i64, FixedTimespan) {
    |i: int| macquarie_row(i)
}

/// The table of the zone `Antarctica/Macquarie`.
pub open spec fn macquarie() -> Table {
    Table::listed(Table::row(0, 0, 0, "-00").1, 144, macquarie_rows())
}

/// Row `i` of the table of the zone `Antarctica/Mawson`.
pub open spec fn mawson_row(i: int) -> (i64, FixedTimespan) {
    if i < 1 {
     Table::row(-501206400, 21600, 0, "+06")
    } else {
     if i < 2 {
      Table::row(1255809600, 18000, 0, "+05")
     } else {
      Table::row(2147483647, 18000, 0, "+05")
     }
    }
}

/// The rows of the table of the zone `Antarctica/Mawson`.
pub open spec fn mawson_rows() -> spec_fn(int) -> (i64, FixedTimespan) {
    |i: int| mawson_row(i)
}

/// The table of the zone `Antarctica/Mawson`.
pub open spec fn mawson() -> Table {
    Table::listed(Table::row(0, 0, 0, "-00").1, 3, mawson_rows())
}

/// Row `i` of the table of the zone `Antarctica/McMurdo`.
pub open spec fn mcmurdo_row(i: int) -> (i64, FixedTimespan) {
    if i < 64 {
     if i < 32 {
      if i < 16 {
       if i < 8 {
        if i < 4 {
         if i < 2 {
          if i < 1 {
           Table::row(-441849600, 43200, 0, "NZST")
          } else {
           Table::row(152632800, 43200, 3600, "NZDT")
          }
         } else {
          if i < 3 {
           Table::row(162309600, 43200, 0, "NZST")
          } else {
           Table::row(183477600, 43200, 3600, "NZDT")
          }
         }
        } else {
         if i < 6 {
          if i < 5 {
           Table::row(194968800, 43200, 0, "NZST")
          } else {
           Table::row(215532000, 43200, 3600, "NZDT")
          }
         } else {
          if i < 7 {
           Table::row(226418400, 43200, 0, "NZST")
          } else {
           Table::row(246981600, 43200, 3600, "NZDT")
          }
         }
        }
       } else {
        if i < 12 {
         if i < 10 {
          if i < 9 {
           Table::row(257868000, 43200, 0, "NZST")
          } else {
           Table::row(278431200, 43200, 3600, "NZDT")
          }
         } else {
          if i < 11 {
           Table::row(289317600, 43200, 0, "NZST")
          } else {
           Table::row(309880800, 43200, 3600, "NZDT")
          }
         }
        } else {
         if i < 14 {
          if i < 13 {
           Table::row(320767200, 43200, 0, "NZST")
          } else {
           Table::row(341330400, 43200, 3600, "NZDT")
          }
         } else {
          if i < 15 {
           Table::row(352216800, 43200, 0, "NZST")
          } else {
           Table::row(372780000, 43200, 3600, "NZDT")
          }
         }
        }
       }
      } else {
       if i < 24 {
        if i < 20 {
         if i < 18 {
          if i < 17 {
           Table::row(384271200, 43200, 0, "NZST")
          } else {
           Table::row(404834400, 43200, 3600, "NZDT")
          }
         } else {
          if i < 19 {
           Table::row(415720800, 43200, 0, "NZST")
          } else {
           Table::row(436284000, 43200, 3600, "NZDT")
          }
         }
        } else {
         if i < 22 {
          if i < 21 {
           Table::row(447170400, 43200, 0, "NZST")
          } else {
           Table::row(467733600, 43200, 3600, "NZDT")
          }
         } else {
          if i < 23 {
           Table::row(478620000, 43200, 0, "NZST")
          } else {
           Table::row(499183200, 43200, 3600, "NZDT")
          }
         }
        }
       } else {
        if i < 28 {
         if i < 26 {
          if i < 25 {
           Table::row(510069600, 43200, 0, "NZST")
          } else {
           Table::row(530632800, 43200, 3600, "NZDT")
          }
         } else {
          if i < 27 {
           Table::row(541519200, 43200, 0, "NZST")
          } else {
           Table::row(562082400, 43200, 3600, "NZDT")
          }
         }
        } else {
         if i < 30 {
          if i < 29 {
           Table::row(573573600, 43200, 0, "NZST")
          } else {
           Table::row(594136800, 43200, 3600, "NZDT")
          }
         } else {
          if i < 31 {
           Table::row(605023200, 43200, 0, "NZST")
          } else {
           Table::row(623772000, 43200, 3600, "NZDT")
          }
         }
        }
       }
      }
     } else {
      if i < 48 {
       if i < 40 {
        if i < 36 {
         if i < 34 {
          if i < 33 {
           Table::row(637682400, 43200, 0, "NZST")
          } else {
           Table::row(655221600, 43200, 3600, "NZDT")
          }
         } else {
          if i < 35 {
           Table::row(669132000, 43200, 0, "NZST")
          } else {
           Table::row(686671200, 43200, 3600, "NZDT")
          }
         }
        } else {
         if i < 38 {
          if i < 37 {
           Table::row(700581600, 43200, 0, "NZST")
          } else {
           Table::row(718120800, 43200, 3600, "NZDT")
          }
         } else {
          if i < 39 {
           Table::row(732636000, 43200, 0, "NZST")
          } else {
           Table::row(749570400, 43200, 3600, "NZDT")
          }
         }
        }
       } else {
        if i < 44 {
         if i < 42 {
          if i < 41 {
           Table::row(764085600, 43200, 0, "NZST")
          } else {
           Table::row(781020000, 43200, 3600, "NZDT")
          }
         } else {
          if i < 43 {
           Table::row(795535200, 43200, 0, "NZST")
          } else {
           Table::row(812469600, 43200, 3600, "NZDT")
          }
         }
        } else {
         if i < 46 {
          if i < 45 {
           Table::row(826984800, 43200, 0, "NZST")
          } else {
           Table::row(844524000, 43200, 3600, "NZDT")
          }
         } else {
          if i < 47 {
           Table::row(858434400, 43200, 0, "NZST")
          } else {
           Table::row(875973600, 43200, 3600, "NZDT")
          }
         }
        }
       }
      } else {
       if i < 56 {
        if i < 52 {
         if i < 50 {
          if i < 49 {
           Table::row(889884000, 43200, 0, "NZST")
          } else {
           Table::row(907423200, 43200, 3600, "NZDT")
          }
         } else {
          if i < 51 {
           Table::row(921938400, 43200, 0, "NZST")
          } else {
           Table::row(938872800, 43200, 3600, "NZDT")
          }
         }
        } else {
         if i < 54 {
          if i < 53 {
           Table::row(953388000, 43200, 0, "NZST")
          } else {
           Table::row(970322400, 43200, 3600, "NZDT")
          }
         } else {
          if i < 55 {
           Table::row(984837600, 43200, 0, "NZST")
          } else {
           Table::row(1002376800, 43200, 3600, "NZDT")
          }
         }
        }
       } else {
        if i < 60 {
         if i < 58 {
          if i < 57 {
           Table::row(1016287200, 43200, 0, "NZST")
          } else {
           Table::row(1033826400, 43200, 3600, "NZDT")
          }
         } else {
          if i < 59 {
           Table::row(1047736800, 43200, 0, "NZST")
          } else {
           Table::row(1065276000, 43200, 3600, "NZDT")
          }
         }
        } else {
         if i < 62 {
          if i < 61 {
           Table::row(1079791200, 43200, 0, "NZST")
          } else {
           Table::row(1096725600, 43200, 3600, "NZDT")
          }
         } else {
          if i < 63 {
           Table::row(1111240800, 43200, 0, "NZST")
          } else {
           Table::row(1128175200, 43200, 3600, "NZDT")
          }
         }
        }
       }
      }
     }
    } else {
     if i < 96 {
      if i < 80 {
       if i < 72 {
        if i < 68 {
         if i < 66 {
          if i < 65 {
           Table::row(1142690400, 43200, 0, "NZST")
          } else {
           Table::row(1159624800, 43200, 3600, "NZDT")
          }
         } else {
          if i < 67 {
           Table::row(1174140000, 43200, 0, "NZST")
          } else {
           Table::row(1191074400, 43200, 3600, "NZDT")
          }
         }
        } else {
         if i < 70 {
          if i < 69 {
           Table::row(1207404000, 43200, 0, "NZST")
          } else {
           Table::row(1222524000, 43200, 3600, "NZDT")
          }
         } else {
          if i < 71 {
           Table::row(1238853600, 43200, 0, "NZST")
          } else {
           Table::row(1253973600, 43200, 3600, "NZDT")
          }
         }
        }
       } else {
        if i < 76 {
         if i < 74 {
          if i < 73 {
           Table::row(1270303200, 43200, 0, "NZST")
          } else {
           Table::row(1285423200, 43200, 3600, "NZDT")
          }
         } else {
          if i < 75 {
           Table::row(1301752800, 43200, 0, "NZST")
          } else {
           Table::row(1316872800, 43200, 3600, "NZDT")
          }
         }
        } else {
         if i < 78 {
          if i < 77 {
           Table::row(1333202400, 43200, 0, "NZST")
          } else {
           Table::row(1348927200, 43200, 3600, "NZDT")
          }
         } else {
          if i < 79 {
           Table::row(1365256800, 43200, 0, "NZST")
          } else {
           Table::row(1380376800, 43200, 3600, "NZDT")
          }
         }
        }
       }
      } else {
       if i < 88 {
        if i < 84 {
         if i < 82 {
          if i < 81 {
           Table::row(1396706400, 43200, 0, "NZST")
          } else {
           Table::row(1411826400, 43200, 3600, "NZDT")
          }
         } else {
          if i < 83 {
           Table::row(1428156000, 43200, 0, "NZST")
          } else {
           Table::row(1443276000, 43200, 3600, "NZDT")
          }
         }
        } else {
         if i < 86 {
          if i < 85 {
           Table::row(1459605600, 43200, 0, "NZST")
          } else {
           Table::row(1474725600, 43200, 3600, "NZDT")
          }
         } else {
          if i < 87 {
           Table::row(1491055200, 43200, 0, "NZST")
          } else {
           Table::row(1506175200, 43200, 3600, "NZDT")
          }
         }
        }
       } else {
        if i < 92 {
         if i < 90 {
          if i < 89 {
           Table::row(1522504800, 43200, 0, "NZST")
          } else {
           Table::row(1538229600, 43200, 3600, "NZDT")
          }
         } else {
          if i < 91 {
           Table::row(1554559200, 43200, 0, "NZST")
          } else {
           Table::row(1569679200, 43200, 3600, "NZDT")
          }
         }
        } else {
         if i < 94 {
          if i < 93 {
           Table::row(1586008800, 43200, 0, "NZST")
          } else {
           Table::row(1601128800, 43200, 3600, "NZDT")
          }
         } else {
          if i < 95 {
           Table::row(1617458400, 43200, 0, "NZST")
          } else {
           Table::row(1632578400, 43200, 3600, "NZDT")
          }
         }
        }
       }
      }
     } else {
      if i < 112 {
       if i < 104 {
        if i < 100 {
         if i < 98 {
          if i < 97 {
           Table::row(1648908000, 43200, 0, "NZST")
          } else {
           Table::row(1664028000, 43200, 3600, "NZDT")
          }
         } else {
          if i < 99 {
           Table::row(1680357600, 43200, 0, "NZST")
          } else {
           Table::row(1695477600, 43200, 3600, "NZDT")
          }
         }
        } else {
         if i < 102 {
          if i < 101 {
           Table::row(1712412000, 43200, 0, "NZST")
          } else {
           Table::row(1727532000, 43200, 3600, "NZDT")
          }
         } else {
          if i < 103 {
           Table::row(1743861600, 43200, 0, "NZST")
          } else {
           Table::row(1758981600, 43200, 3600, "NZDT")
          }
         }
        }
       } else {
        if i < 108 {
         if i < 106 {
          if i < 105 {
           Table::row(1775311200, 43200, 0, "NZST")
          } else {
           Table::row(1790431200, 43200, 3600, "NZDT")
          }
         } else {
          if i < 107 {
           Table::row(1806760800, 43200, 0, "NZST")
          } else {
           Table::row(1821880800, 43200, 3600, "NZDT")
          }
         }
        } else {
         if i < 110 {
          if i < 109 {
           Table::row(1838210400, 43200, 0, "NZST")
          } else {
           Table::row(1853330400, 43200, 3600, "NZDT")
          }
         } else {
          if i < 111 {
           Table::row(1869660000, 43200, 0, "NZST")
          } else {
           Table::row(1885384800, 43200, 3600, "NZDT")
          }
         }
        }
       }
      } else {
       if i < 120 {
        if i < 116 {
         if i < 114 {
          if i < 113 {
           Table::row(1901714400, 43200, 0, "NZST")
          } else {
           Table::row(1916834400, 43200, 3600, "NZDT")
          }
         } else {
          if i < 115 {
           Table::row(1933164000, 43200, 0, "NZST")
          } else {
           Table::row(1948284000, 43200, 3600, "NZDT")
          }
         }
        } else {
         if i < 118 {
          if i < 117 {
           Table::row(1964613600, 43200, 0, "NZST")
          } else {
           Table::row(1979733600, 43200, 3600, "NZDT")
          }
         } else {
          if i < 119 {
           Table::row(1996063200, 43200, 0, "NZST")
          } else {
           Table::row(2011183200, 43200, 3600, "NZDT")
          }
         }
        }
       } else {
        if i < 124 {
         if i < 122 {
          if i < 121 {
           Table::row(2027512800, 43200, 0, "NZST")
          } else {
           Table::row(2042632800, 43200, 3600, "NZDT")
          }
         } else {
          if i < 123 {
           Table::row(2058962400, 43200, 0, "NZST")
          } else {
           Table::row(2074687200, 43200, 3600, "NZDT")
          }
         }
        } else {
         if i < 126 {
          if i < 125 {
           Table::row(2091016800, 43200, 0, "NZST")
          } else {
           Table::row(2106136800, 43200, 3600, "NZDT")
          }
         } else {
          if i < 127 {
           Table::row(2122466400, 43200, 0, "NZST")
          } else {
           Table::row(2137586400, 43200, 3600, "NZDT")
          }
         }
        }
       }
      }
     }
    }
}

/// The rows of the table of the zone `Antarctica/McMurdo`.
pub open spec fn mcmurdo_rows() -> spec_fn(int) -> (i64, FixedTimespan) {
    |i: int| mcmurdo_row(i)
}

/// The table of the zone `Antarctica/McMurdo`.
pub open spec fn mcmurdo() -> Table {
    Table::listed(Table::row(0, 0, 0, "-00").1, 128, mcmurdo_rows())
}

/// Row `i` of the table of the zone `Antarctica/Palmer`.
pub open spec fn palmer_row(i: int) -> (i64, FixedTimespan) {
    if i < 41 {
     if i < 20 {
      if i < 10 {
       if i < 5 {
        if i < 2 {
         if i < 1 {
          Table::row(-157766400, -14400, 3600, "-03")
         } else {
          Table::row(-152658000, -14400, 0, "-04")
         }
        } else {
         if i < 3 {
          Table::row(-132955200, -14400, 3600, "-03")
         } else {
          if i < 4 {
           Table::row(-121122000, -14400, 0, "-04")
          } else {
           Table::row(-101419200, -14400, 3600, "-03")
          }
         }
        }
       } else {
        if i < 7 {
         if i < 6 {
          Table::row(-86821200, -14400, 0, "-04")
         } else {
          Table::row(-71092800, -14400, 3600, "-03")
         }
        } else {
         if i < 8 {
          Table::row(-54766800, -14400, 0, "-04")
         } else {
          if i < 9 {
           Table::row(-39038400, -14400, 3600, "-03")
          } else {
           Table::row(-23317200, -14400, 0, "-04")
          }
         }
        }
       }
      } else {
       if i < 15 {
        if i < 12 {
         if i < 11 {
          Table::row(-7588800, -10800, 0, "-03")
         } else {
          Table::row(128142000, -10800, 3600, "-02")
         }
        } else {
         if i < 13 {
          Table::row(136605600, -10800, 0, "-03")
         } else {
          if i < 14 {
           Table::row(389070000, -14400, 0, "-04")
          } else {
           Table::row(403070400, -14400, 3600, "-03")
          }
         }
        }
       } else {
        if i < 17 {
         if i < 16 {
          Table::row(416372400, -14400, 0, "-04")
         } else {
          Table::row(434520000, -14400, 3600, "-03")
         }
        } else {
         if i < 18 {
          Table::row(447822000, -14400, 0, "-04")
         } else {
          if i < 19 {
           Table::row(466574400, -14400, 3600, "-03")
          } else {
           Table::row(479271600, -14400, 0, "-04")
          }
         }
        }
       }
      }
     } else {
      if i < 30 {
       if i < 25 {
        if i < 22 {
         if i < 21 {
          Table::row(498024000, -14400, 3600, "-03")
         } else {
          Table::row(510721200, -14400, 0, "-04")
         }
        } else {
         if i < 23 {
          Table::row(529473600, -14400, 3600, "-03")
         } else {
          if i < 24 {
           Table::row(545194800, -14400, 0, "-04")
          } else {
           Table::row(560923200, -14400, 3600, "-03")
          }
         }
        }
       } else {
        if i < 27 {
         if i < 26 {
          Table::row(574225200, -14400, 0, "-04")
         } else {
          Table::row(592372800, -14400, 3600, "-03")
         }
        } else {
         if i < 28 {
          Table::row(605674800, -14400, 0, "-04")
         } else {
          if i < 29 {
           Table::row(624427200, -14400, 3600, "-03")
          } else {
           Table::row(637124400, -14400, 0, "-04")
          }
         }
        }
       }
      } else {
       if i < 35 {
        if i < 32 {
         if i < 31 {
          Table::row(653457600, -14400, 3600, "-03")
         } else {
          Table::row(668574000, -14400, 0, "-04")
         }
        } else {
         if i < 33 {
          Table::row(687326400, -14400, 3600, "-03")
         } else {
          if i < 34 {
           Table::row(700628400, -14400, 0, "-04")
          } else {
           Table::row(718776000, -14400, 3600, "-03")
          }
         }
        }
       } else {
        if i < 38 {
         if i < 36 {
          Table::row(732078000, -14400, 0, "-04")
         } else {
          if i < 37 {
           Table::row(750225600, -14400, 3600, "-03")
          } else {
           Table::row(763527600, -14400, 0, "-04")
          }
         }
        } else {
         if i < 39 {
          Table::row(781675200, -14400, 3600, "-03")
         } else {
          if i < 40 {
           Table::row(794977200, -14400, 0, "-04")
          } else {
           Table::row(813729600, -14400, 3600, "-03")
          }
         }
        }
       }
      }
     }
    } else {
     if i < 62 {
      if i < 51 {
       if i < 46 {
        if i < 43 {
         if i < 42 {
          Table::row(826426800, -14400, 0, "-04")
         } else {
          Table::row(845179200, -14400, 3600, "-03")
         }
        } else {
         if i < 44 {
          Table::row(859690800, -14400, 0, "-04")
         } else {
          if i < 45 {
           Table::row(876628800, -14400, 3600, "-03")
          } else {
           Table::row(889930800, -14400, 0, "-04")
          }
         }
        }
       } else {
        if i < 48 {
         if i < 47 {
          Table::row(906868800, -14400, 3600, "-03")
         } else {
          Table::row(923194800, -14400, 0, "-04")
         }
        } else {
         if i < 49 {
          Table::row(939528000, -14400, 3600, "-03")
         } else {
          if i < 50 {
           Table::row(952830000, -14400, 0, "-04")
          } else {
           Table::row(971582400, -14400, 3600, "-03")
          }
         }
        }
       }
      } else {
       if i < 56 {
        if i < 53 {
         if i < 52 {
          Table::row(984279600, -14400, 0, "-04")
         } else {
          Table::row(1003032000, -14400, 3600, "-03")
         }
        } else {
         if i < 54 {
          Table::row(1015729200, -14400, 0, "-04")
         } else {
          if i < 55 {
           Table::row(1034481600, -14400, 3600, "-03")
          } else {
           Table::row(1047178800, -14400, 0, "-04")
          }
         }
        }
       } else {
        if i < 59 {
         if i < 57 {
          Table::row(1065931200, -14400, 3600, "-03")
         } else {
          if i < 58 {
           Table::row(1079233200, -14400, 0, "-04")
          } else {
           Table::row(1097380800, -14400, 3600, "-03")
          }
         }
        } else {
         if i < 60 {
          Table::row(1110682800, -14400, 0, "-04")
         } else {
          if i < 61 {
           Table::row(1128830400, -14400, 3600, "-03")
          } else {
           Table::row(1142132400, -14400, 0, "-04")
          }
         }
        }
       }
      }
     } else {
      if i < 72 {
       if i < 67 {
        if i < 64 {
         if i < 63 {
          Table::row(1160884800, -14400, 3600, "-03")
         } else {
          Table::row(1173582000, -14400, 0, "-04")
         }
        } else {
         if i < 65 {
          Table::row(1192334400, -14400, 3600, "-03")
         } else {
          if i < 66 {
           Table::row(1206846000, -14400, 0, "-04")
          } else {
           Table::row(1223784000, -14400, 3600, "-03")
          }
         }
        }
       } else {
        if i < 69 {
         if i < 68 {
          Table::row(1237086000, -14400, 0, "-04")
         } else {
          Table::row(1255233600, -14400, 3600, "-03")
         }
        } else {
         if i < 70 {
          Table::row(1270350000, -14400, 0, "-04")
         } else {
          if i < 71 {
           Table::row(1286683200, -14400, 3600, "-03")
          } else {
           Table::row(1304823600, -14400, 0, "-04")
          }
         }
        }
       }
      } else {
       if i < 77 {
        if i < 74 {
         if i < 73 {
          Table::row(1313899200, -14400, 3600, "-03")
         } else {
          Table::row(1335668400, -14400, 0, "-04")
         }
        } else {
         if i < 75 {
          Table::row(1346558400, -14400, 3600, "-03")
         } else {
          if i < 76 {
           Table::row(1367118000, -14400, 0, "-04")
          } else {
           Table::row(1378612800, -14400, 3600, "-03")
          }
         }
        }
       } else {
        if i < 80 {
         if i < 78 {
          Table::row(1398567600, -14400, 0, "-04")
         } else {
          if i < 79 {
           Table::row(1410062400, -14400, 3600, "-03")
          } else {
           Table::row(1463281200, -14400, 0, "-04")
          }
         }
        } else {
         if i < 81 {
          Table::row(1471147200, -14400, 3600, "-03")
         } else {
          if i < 82 {
           Table::row(1480820400, -10800, 0, "-03")
          } else {
           Table::row(2147483647, -10800, 0, "-03")
          }
         }
        }
       }
      }
     }
    }
}

/// The rows of the table of the zone `Antarctica/Palmer`.
pub open spec fn palmer_rows() -> spec_fn(int) -> (i64, FixedTimespan) {
    |i: int| palmer_row(i)
}

/// The table of the zone `Antarctica/Palmer`.
pub open spec fn palmer() -> Table {
    Table::listed(Table::row(0, 0, 0, "-00").1, 83, palmer_rows())
}

/// Row `i` of the table of the zone `Antarctica/Rothera`.
pub open spec fn rothera_row(i: int) -> (i64, FixedTimespan) {
    if i < 1 {
     Table::row(218246400, -10800, 0, "-03")
    } else {
     Table::row(2147483647, -10800, 0, "-03")
    }
}

/// The rows of the table of the zone `Antarctica/Rothera`.
pub open spec fn rothera_rows() -> spec_fn(int) -> (i64, FixedTimespan) {
    |i: int| rothera_row(i)
}

/// The table of the zone `Antarctica/Rothera`.
pub open spec fn rothera() -> Table {
    Table::listed(Table::row(0, 0, 0, "-00").1, 2, rothera_rows())
}

/// Row `i` of the table of the zone `Antarctica/South_Pole`.
pub open spec fn south_pole_row(i: int) -> (i64, FixedTimespan) {
    if i < 78 {
     if i < 39 {
      if i < 19 {
       if i < 9 {
        if i < 4 {
         if i < 2 {
          if i < 1 {
           Table::row(-3192435544, 41400, 0, "NZMT")
          } else {
           Table::row(-1330335000, 41400, 3600, "NZST")
          }
         } else {
          if i < 3 {
           Table::row(-1320057000, 41400, 0, "NZMT")
          } else {
           Table::row(-1300699800, 41400, 1800, "NZST")
          }
         }
        } else {
         if i < 6 {
          if i < 5 {
           Table::row(-1287396000, 41400, 0, "NZMT")
          } else {
           Table::row(-1269250200, 41400, 1800, "NZST")
          }
         } else {
          if i < 7 {
           Table::row(-1255946400, 41400, 0, "NZMT")
          } else {
           if i < 8 {
            Table::row(-1237800600, 41400, 1800, "NZST")
           } else {
            Table::row(-1224496800, 41400, 0, "NZMT")
           }
          }
         }
        }
       } else {
        if i < 14 {
         if i < 11 {
          if i < 10 {
           Table::row(-1206351000, 41400, 1800, "NZST")
          } else {
           Table::row(-1192442400, 41400, 0, "NZMT")
          }
         } else {
          if i < 12 {
           Table::row(-1174901400, 41400, 1800, "NZST")
          } else {
           if i < 13 {
            Table::row(-1160992800, 41400, 0, "NZMT")
           } else {
            Table::row(-1143451800, 41400, 1800, "NZST")
           }
          }
         }
        } else {
         if i < 16 {
          if i < 15 {
           Table::row(-1125914400, 41400, 0, "NZMT")
          } else {
           Table::row(-1112607000, 41400, 1800, "NZST")
          }
         } else {
          if i < 17 {
           Table::row(-1094464800, 41400, 0, "NZMT")
          } else {
           if i < 18 {
            Table::row(-1081157400, 41400, 1800, "NZST")
           } else {
            Table::row(-1063015200, 41400, 0, "NZMT")
           }
          }
         }
        }
       }
      } else {
       if i < 29 {
        if i < 24 {
         if i < 21 {
          if i < 20 {
           Table::row(-1049707800, 41400, 1800, "NZST")
          } else {
           Table::row(-1031565600, 41400, 0, "NZMT")
          }
         } else {
          if i < 22 {
           Table::row(-1018258200, 41400, 1800, "NZST")
          } else {
           if i < 23 {
            Table::row(-1000116000, 41400, 0, "NZMT")
           } else {
            Table::row(-986808600, 41400, 1800, "NZST")
           }
          }
         }
        } else {
         if i < 26 {
          if i < 25 {
           Table::row(-968061600, 41400, 0, "NZMT")
          } else {
           Table::row(-955359000, 41400, 1800, "NZST")
          }
         } else {
          if i < 27 {
           Table::row(-936612000, 41400, 0, "NZMT")
          } else {
           if i < 28 {
            Table::row(-923304600, 41400, 1800, "NZST")
           } else {
            Table::row(-757425600, 43200, 0, "NZST")
           }
          }
         }
        }
       } else {
        if i < 34 {
         if i < 31 {
          if i < 30 {
           Table::row(152632800, 43200, 3600, "NZDT")
          } else {
           Table::row(162309600, 43200, 0, "NZST")
          }
         } else {
          if i < 32 {
           Table::row(183477600, 43200, 3600, "NZDT")
          } else {
           if i < 33 {
            Table::row(194968800, 43200, 0, "NZST")
           } else {
            Table::row(215532000, 43200, 3600, "NZDT")
           }
          }
         }
        } else {
         if i < 36 {
          if i < 35 {
           Table::row(226418400, 43200, 0, "NZST")
          } else {
           Table::row(246981600, 43200, 3600, "NZDT")
          }
         } else {
          if i < 37 {
           Table::row(257868000, 43200, 0, "NZST")
          } else {
           if i < 38 {
            Table::row(278431200, 43200, 3600, "NZDT")
           } else {
            Table::row(289317600, 43200, 0, "NZST")
           }
          }
         }
        }
       }
      }
     } else {
      if i < 58 {
       if i < 48 {
        if i < 43 {
         if i < 41 {
          if i < 40 {
           Table::row(309880800, 43200, 3600, "NZDT")
          } else {
           Table::row(320767200, 43200, 0, "NZST")
          }
         } else {
          if i < 42 {
           Table::row(341330400, 43200, 3600, "NZDT")
          } else {
           Table::row(352216800, 43200, 0, "NZST")
          }
         }
        } else {
         if i < 45 {
          if i < 44 {
           Table::row(372780000, 43200, 3600, "NZDT")
          } else {
           Table::row(384271200, 43200, 0, "NZST")
          }
         } else {
          if i < 46 {
           Table::row(404834400, 43200, 3600, "NZDT")
          } else {
           if i < 47 {
            Table::row(415720800, 43200, 0, "NZST")
           } else {
            Table::row(436284000, 43200, 3600, "NZDT")
           }
          }
         }
        }
       } else {
        if i < 53 {
         if i < 50 {
          if i < 49 {
           Table::row(447170400, 43200, 0, "NZST")
          } else {
           Table::row(467733600, 43200, 3600, "NZDT")
          }
         } else {
          if i < 51 {
           Table::row(478620000, 43200, 0, "NZST")
          } else {
           if i < 52 {
            Table::row(499183200, 43200, 3600, "NZDT")
           } else {
            Table::row(510069600, 43200, 0, "NZST")
           }
          }
         }
        } else {
         if i < 55 {
          if i < 54 {
           Table::row(530632800, 43200, 3600, "NZDT")
          } else {
           Table::row(541519200, 43200, 0, "NZST")
          }
         } else {
          if i < 56 {
           Table::row(562082400, 43200, 3600, "NZDT")
          } else {
           if i < 57 {
            Table::row(573573600, 43200, 0, "NZST")
           } else {
            Table::row(594136800, 43200, 3600, "NZDT")
           }
          }
         }
        }
       }
      } else {
       if i < 68 {
        if i < 63 {
         if i < 60 {
          if i < 59 {
           Table::row(605023200, 43200, 0, "NZST")
          } else {
           Table::row(623772000, 43200, 3600, "NZDT")
          }
         } else {
          if i < 61 {
           Table::row(637682400, 43200, 0, "NZST")
          } else {
           if i < 62 {
            Table::row(655221600, 43200, 3600, "NZDT")
           } else {
            Table::row(669132000, 43200, 0, "NZST")
           }
          }
         }
        } else {
         if i < 65 {
          if i < 64 {
           Table::row(686671200, 43200, 3600, "NZDT")
          } else {
           Table::row(700581600, 43200, 0, "NZST")
          }
         } else {
          if i < 66 {
           Table::row(718120800, 43200, 3600, "NZDT")
          } else {
           if i < 67 {
            Table::row(732636000, 43200, 0, "NZST")
           } else {
            Table::row(749570400, 43200, 3600, "NZDT")
           }
          }
         }
        }
       } else {
        if i < 73 {
         if i < 70 {
          if i < 69 {
           Table::row(764085600, 43200, 0, "NZST")
          } else {
           Table::row(781020000, 43200, 3600, "NZDT")
          }
         } else {
          if i < 71 {
           Table::row(795535200, 43200, 0, "NZST")
          } else {
           if i < 72 {
            Table::row(812469600, 43200, 3600, "NZDT")
           } else {
            Table::row(826984800, 43200, 0, "NZST")
           }
          }
         }
        } else {
         if i < 75 {
          if i < 74 {
           Table::row(844524000, 43200, 3600, "NZDT")
          } else {
           Table::row(858434400, 43200, 0, "NZST")
          }
         } else {
          if i < 76 {
           Table::row(875973600, 43200, 3600, "NZDT")
          } else {
           if i < 77 {
            Table::row(889884000, 43200, 0, "NZST")
           } else {
            Table::row(907423200, 43200, 3600, "NZDT")
           }
          }
         }
        }
       }
      }
     }
    } else {
     if i < 117 {
      if i < 97 {
       if i < 87 {
        if i < 82 {
         if i < 80 {
          if i < 79 {
           Table::row(921938400, 43200, 0, "NZST")
          } else {
           Table::row(938872800, 43200, 3600, "NZDT")
          }
         } else {
          if i < 81 {
           Table::row(953388000, 43200, 0, "NZST")
          } else {
           Table::row(970322400, 43200, 3600, "NZDT")
          }
         }
        } else {
         if i < 84 {
          if i < 83 {
           Table::row(984837600, 43200, 0, "NZST")
          } else {
           Table::row(1002376800, 43200, 3600, "NZDT")
          }
         } else {
          if i < 85 {
           Table::row(1016287200, 43200, 0, "NZST")
          } else {
           if i < 86 {
            Table::row(1033826400, 43200, 3600, "NZDT")
           } else {
            Table::row(1047736800, 43200, 0, "NZST")
           }
          }
         }
        }
       } else {
        if i < 92 {
         if i < 89 {
          if i < 88 {
           Table::row(1065276000, 43200, 3600, "NZDT")
          } else {
           Table::row(1079791200, 43200, 0, "NZST")
          }
         } else {
          if i < 90 {
           Table::row(1096725600, 43200, 3600, "NZDT")
          } else {
           if i < 91 {
            Table::row(1111240800, 43200, 0, "NZST")
           } else {
            Table::row(1128175200, 43200, 3600, "NZDT")
           }
          }
         }
        } else {
         if i < 94 {
          if i < 93 {
           Table::row(1142690400, 43200, 0, "NZST")
          } else {
           Table::row(1159624800, 43200, 3600, "NZDT")
          }
         } else {
          if i < 95 {
           Table::row(1174140000, 43200, 0, "NZST")
          } else {
           if i < 96 {
            Table::row(1191074400, 43200, 3600, "NZDT")
           } else {
            Table::row(1207404000, 43200, 0, "NZST")
           }
          }
         }
        }
       }
      } else {
       if i < 107 {
        if i < 102 {
         if i < 99 {
          if i < 98 {
           Table::row(1222524000, 43200, 3600, "NZDT")
          } else {
           Table::row(1238853600, 43200, 0, "NZST")
          }
         } else {
          if i < 100 {
           Table::row(1253973600, 43200, 3600, "NZDT")
          } else {
           if i < 101 {
            Table::row(1270303200, 43200, 0, "NZST")
           } else {
            Table::row(1285423200, 43200, 3600, "NZDT")
           }
          }
         }
        } else {
         if i < 104 {
          if i < 103 {
           Table::row(1301752800, 43200, 0, "NZST")
          } else {
           Table::row(1316872800, 43200, 3600, "NZDT")
          }
         } else {
          if i < 105 {
           Table::row(1333202400, 43200, 0, "NZST")
          } else {
           if i < 106 {
            Table::row(1348927200, 43200, 3600, "NZDT")
           } else {
            Table::row(1365256800, 43200, 0, "NZST")
           }
          }
         }
        }
       } else {
        if i < 112 {
         if i < 109 {
          if i < 108 {
           Table::row(1380376800, 43200, 3600, "NZDT")
          } else {
           Table::row(1396706400, 43200, 0, "NZST")
          }
         } else {
          if i < 110 {
           Table::row(1411826400, 43200, 3600, "NZDT")
          } else {
           if i < 111 {
            Table::row(1428156000, 43200, 0, "NZST")
           } else {
            Table::row(1443276000, 43200, 3600, "NZDT")
           }
          }
         }
        } else {
         if i < 114 {
          if i < 113 {
           Table::row(1459605600, 43200, 0, "NZST")
          } else {
           Table::row(1474725600, 43200, 3600, "NZDT")
          }
         } else {
          if i < 115 {
           Table::row(1491055200, 43200, 0, "NZST")
          } else {
           if i < 116 {
            Table::row(1506175200, 43200, 3600, "NZDT")
           } else {
            Table::row(1522504800, 43200, 0, "NZST")
           }
          }
         }
        }
       }
      }
     } else {
      if i < 136 {
       if i < 126 {
        if i < 121 {
         if i < 119 {
          if i < 118 {
           Table::row(1538229600, 43200, 3600, "NZDT")
          } else {
           Table::row(1554559200, 43200, 0, "NZST")
          }
         } else {
          if i < 120 {
           Table::row(1569679200, 43200, 3600, "NZDT")
          } else {
           Table::row(1586008800, 43200, 0, "NZST")
          }
         }
        } else {
         if i < 123 {
          if i < 122 {
           Table::row(1601128800, 43200, 3600, "NZDT")
          } else {
           Table::row(1617458400, 43200, 0, "NZST")
          }
         } else {
          if i < 124 {
           Table::row(1632578400, 43200, 3600, "NZDT")
          } else {
           if i < 125 {
            Table::row(1648908000, 43200, 0, "NZST")
           } else {
            Table::row(1664028000, 43200, 3600, "NZDT")
           }
          }
         }
        }
       } else {
        if i < 131 {
         if i < 128 {
          if i < 127 {
           Table::row(1680357600, 43200, 0, "NZST")
          } else {
           Table::row(1695477600, 43200, 3600, "NZDT")
          }
         } else {
          if i < 129 {
           Table::row(1712412000, 43200, 0, "NZST")
          } else {
           if i < 130 {
            Table::row(1727532000, 43200, 3600, "NZDT")
           } else {
            Table::row(1743861600, 43200, 0, "NZST")
           }
          }
         }
        } else {
         if i < 133 {
          if i < 132 {
           Table::row(1758981600, 43200, 3600, "NZDT")
          } else {
           Table::row(1775311200, 43200, 0, "NZST")
          }
         } else {
          if i < 134 {
           Table::row(1790431200, 43200, 3600, "NZDT")
          } else {
           if i < 135 {
            Table::row(1806760800, 43200, 0, "NZST")
           } else {
            Table::row(1821880800, 43200, 3600, "NZDT")
           }
          }
         }
        }
       }
      } else {
       if i < 146 {
        if i < 141 {
         if i < 138 {
          if i < 137 {
           Table::row(1838210400, 43200, 0, "NZST")
          } else {
           Table::row(1853330400, 43200, 3600, "NZDT")
          }
         } else {
          if i < 139 {
           Table::row(1869660000, 43200, 0, "NZST")
          } else {
           if i < 140 {
            Table::row(1885384800, 43200, 3600, "NZDT")
           } else {
            Table::row(1901714400, 43200, 0, "NZST")
           }
          }
         }
        } else {
         if i < 143 {
          if i < 142 {
           Table::row(1916834400, 43200, 3600, "NZDT")
          } else {
           Table::row(1933164000, 43200, 0, "NZST")
          }
         } else {
          if i < 144 {
           Table::row(1948284000, 43200, 3600, "NZDT")
          } else {
           if i < 145 {
            Table::row(1964613600, 43200, 0, "NZST")
           } else {
            Table::row(1979733600, 43200, 3600, "NZDT")
           }
          }
         }
        }
       } else {
        if i < 151 {
         if i < 148 {
          if i < 147 {
           Table::row(1996063200, 43200, 0, "NZST")
          } else {
           Table::row(2011183200, 43200, 3600, "NZDT")
          }
         } else {
          if i < 149 {
           Table::row(2027512800, 43200, 0, "NZST")
          } else {
           if i < 150 {
            Table::row(2042632800, 43200, 3600, "NZDT")
           } else {
            Table::row(2058962400, 43200, 0, "NZST")
           }
          }
         }
        } else {
         if i < 153 {
          if i < 152 {
           Table::row(2074687200, 43200, 3600, "NZDT")
          } else {
           Table::row(2091016800, 43200, 0, "NZST")
          }
         } else {
          if i < 154 {
           Table::row(2106136800, 43200, 3600, "NZDT")
          } else {
           if i < 155 {
            Table::row(2122466400, 43200, 0, "NZST")
           } else {
            Table::row(2137586400, 43200, 3600, "NZDT")
           }
          }
         }
        }
       }
      }
     }
    }
}

/// The rows of the table of the zone `Antarctica/South_Pole`.
pub open spec fn south_pole_rows() -> spec_fn(int) -> (i64, FixedTimespan) {
    |i: int| south_pole_row(i)
}

/// The table of the zone `Antarctica/South_Pole`.
pub open spec fn south_pole() -> Table {
    Table::listed(Table::row(0, 41944, 0, "LMT").1, 156, south_pole_rows())
}

/// Row `i` of the table of the zone `Antarctica/Syowa`.
pub open spec fn syowa_row(i: int) -> (i64, FixedTimespan) {
    if i < 1 {
     Table::row(-407808000, 10800, 0, "+03")
    } else {
     Table::row(2147483647, 10800, 0, "+03")
    }
}

/// The rows of the table of the zone `Antarctica/Syowa`.
pub open spec fn syowa_rows() -> spec_fn(int) -> (i64, FixedTimespan) {
    |i: int| syowa_row(i)
}

/// The table of the zone `Antarctica/Syowa`.
pub open spec fn syowa() -> Table {
    Table::listed(Table::row(0, 0, 0, "-00").1, 2, syowa_rows())
}

/// Row `i` of the table of the zone `Antarctica/Troll`.
pub open spec fn troll_row(i: int) -> (i64, FixedTimespan) {
    if i < 34 {
     if i < 17 {
      if i < 8 {
       if i < 4 {
        if i < 2 {
         if i < 1 {
          Table::row(1108166400, 0, 0, "+00")
         } else {
          Table::row(1111885200, 0, 7200, "+02")
         }
        } else {
         if i < 3 {
          Table::row(1130634000, 0, 0, "+00")
         } else {
          Table::row(1143334800, 0, 7200, "+02")
         }
        }
       } else {
        if i < 6 {
         if i < 5 {
          Table::row(1162083600, 0, 0, "+00")
         } else {
          Table::row(1174784400, 0, 7200, "+02")
         }
        } else {
         if i < 7 {
          Table::row(1193533200, 0, 0, "+00")
         } else {
          Table::row(1206838800, 0, 7200, "+02")
         }
        }
       }
      } else {
       if i < 12 {
        if i < 10 {
         if i < 9 {
          Table::row(1224982800, 0, 0, "+00")
         } else {
          Table::row(1238288400, 0, 7200, "+02")
         }
        } else {
         if i < 11 {
          Table::row(1256432400, 0, 0, "+00")
         } else {
          Table::row(1269738000, 0, 7200, "+02")
         }
        }
       } else {
        if i < 14 {
         if i < 13 {
          Table::row(1288486800, 0, 0, "+00")
         } else {
          Table::row(1301187600, 0, 7200, "+02")
         }
        } else {
         if i < 15 {
          Table::row(1319936400, 0, 0, "+00")
         } else {
          if i < 16 {
           Table::row(1332637200, 0, 7200, "+02")
          } else {
           Table::row(1351386000, 0, 0, "+00")
          }
         }
        }
       }
      }
     } else {
      if i < 25 {
       if i < 21 {
        if i < 19 {
         if i < 18 {
          Table::row(1364691600, 0, 7200, "+02")
         } else {
          Table::row(1382835600, 0, 0, "+00")
         }
        } else {
         if i < 20 {
          Table::row(1396141200, 0, 7200, "+02")
         } else {
          Table::row(1414285200, 0, 0, "+00")
         }
        }
       } else {
        if i < 23 {
         if i < 22 {
          Table::row(1427590800, 0, 7200, "+02")
         } else {
          Table::row(1445734800, 0, 0, "+00")
         }
        } else {
         if i < 24 {
          Table::row(1459040400, 0, 7200, "+02")
         } else {
          Table::row(1477789200, 0, 0, "+00")
         }
        }
       }
      } else {
       if i < 29 {
        if i < 27 {
         if i < 26 {
          Table::row(1490490000, 0, 7200, "+02")
         } else {
          Table::row(1509238800, 0, 0, "+00")
         }
        } else {
         if i < 28 {
          Table::row(1521939600, 0, 7200, "+02")
         } else {
          Table::row(1540688400, 0, 0, "+00")
         }
        }
       } else {
        if i < 31 {
         if i < 30 {
          Table::row(1553994000, 0, 7200, "+02")
         } else {
          Table::row(1572138000, 0, 0, "+00")
         }
        } else {
         if i < 32 {
          Table::row(1585443600, 0, 7200, "+02")
         } else {
          if i < 33 {
           Table::row(1603587600, 0, 0, "+00")
          } else {
           Table::row(1616893200, 0, 7200, "+02")
          }
         }
        }
       }
      }
     }
    } else {
     if i < 51 {
      if i < 42 {
       if i < 38 {
        if i < 36 {
         if i < 35 {
          Table::row(1635642000, 0, 0, "+00")
         } else {
          Table::row(1648342800, 0, 7200, "+02")
         }
        } else {
         if i < 37 {
          Table::row(1667091600, 0, 0, "+00")
         } else {
          Table::row(1679792400, 0, 7200, "+02")
         }
        }
       } else {
        if i < 40 {
         if i < 39 {
          Table::row(1698541200, 0, 0, "+00")
         } else {
          Table::row(1711846800, 0, 7200, "+02")
         }
        } else {
         if i < 41 {
          Table::row(1729990800, 0, 0, "+00")
         } else {
          Table::row(1743296400, 0, 7200, "+02")
         }
        }
       }
      } else {
       if i < 46 {
        if i < 44 {
         if i < 43 {
          Table::row(1761440400, 0, 0, "+00")
         } else {
          Table::row(1774746000, 0, 7200, "+02")
         }
        } else {
         if i < 45 {
          Table::row(1792890000, 0, 0, "+00")
         } else {
          Table::row(1806195600, 0, 7200, "+02")
         }
        }
       } else {
        if i < 48 {
         if i < 47 {
          Table::row(1824944400, 0, 0, "+00")
         } else {
          Table::row(1837645200, 0, 7200, "+02")
         }
        } else {
         if i < 49 {
          Table::row(1856394000, 0, 0, "+00")
         } else {
          if i < 50 {
           Table::row(1869094800, 0, 7200, "+02")
          } else {
           Table::row(1887843600, 0, 0, "+00")
          }
         }
        }
       }
      }
     } else {
      if i < 59 {
       if i < 55 {
        if i < 53 {
         if i < 52 {
          Table::row(1901149200, 0, 7200, "+02")
         } else {
          Table::row(1919293200, 0, 0, "+00")
         }
        } else {
         if i < 54 {
          Table::row(1932598800, 0, 7200, "+02")
         } else {
          Table::row(1950742800, 0, 0, "+00")
         }
        }
       } else {
        if i < 57 {
         if i < 56 {
          Table::row(1964048400, 0, 7200, "+02")
         } else {
          Table::row(1982797200, 0, 0, "+00")
         }
        } else {
         if i < 58 {
          Table::row(1995498000, 0, 7200, "+02")
         } else {
          Table::row(2014246800, 0, 0, "+00")
         }
        }
       }
      } else {
       if i < 63 {
        if i < 61 {
         if i < 60 {
          Table::row(2026947600, 0, 7200, "+02")
         } else {
          Table::row(2045696400, 0, 0, "+00")
         }
        } else {
         if i < 62 {
          Table::row(2058397200, 0, 7200, "+02")
         } else {
          Table::row(2077146000, 0, 0, "+00")
         }
        }
       } else {
        if i < 65 {
         if i < 64 {
          Table::row(2090451600, 0, 7200, "+02")
         } else {
          Table::row(2108595600, 0, 0, "+00")
         }
        } else {
         if i < 66 {
          Table::row(2121901200, 0, 7200, "+02")
         } else {
          if i < 67 {
           Table::row(2140045200, 0, 0, "+00")
          } else {
           Table::row(2147483647, 0, 0, "+00")
          }
         }
        }
       }
      }
     }
    }
}

/// The rows of the table of the zone `Antarctica/Troll`.
pub open spec fn troll_rows() -> spec_fn(int) -> (i64, FixedTimespan) {
    |i: int| troll_row(i)
}

/// The table of the zone `Antarctica/Troll`.
pub open spec fn troll() -> Table {
    Table::listed(Table::row(0, 0, 0, "-00").1, 68, troll_rows())
}

/// Row `i` of the table of the zone `Antarctica/Vostok`.
pub open spec fn vostok_row(i: int) -> (i64, FixedTimespan) {
    if i < 2 {
     if i < 1 {
      Table::row(-380073600, 25200, 0, "+07")
     } else {
      Table::row(760035600, 0, 0, "-00")
     }
    } else {
     if i < 3 {
      Table::row(783648000, 25200, 0, "+07")
     } else {
      if i < 4 {
       Table::row(1702839600, 18000, 0, "+05")
      } else {
       Table::row(2147483647, 18000, 0, "+05")
      }
     }
    }
}

/// The rows of the table of the zone `Antarctica/Vostok`.
pub open spec fn vostok_rows() -> spec_fn(int) -> (i64, FixedTimespan) {
    |i: int| vostok_row(i)
}

/// The table of the zone `Antarctica/Vostok`.
pub open spec fn vostok() -> Table {
    Table::listed(Table::row(0, 0, 0, "-00").1, 5, vostok_rows())
}

} // verus!
