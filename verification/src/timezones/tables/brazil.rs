//! The tables of the zones of Brazil, under their older names.

use crate::timezone_impl::{FixedTimespan, Table};
use vstd::prelude::*;

verus! {

/// Row `i` of the table of the zone `Brazil/Acre`.
pub open spec fn acre_row(i: int) -> (i64, FixedTimespan) {
    if i < 16 {
     if i < 8 {
      if i < 4 {
       if i < 2 {
        if i < 1 {
         Table::row(-1767209328, -18000, 0, "-05")
        } else {
         Table::row(-1206950400, -18000, 3600, "-04")
        }
       } else {
        if i < 3 {
         Table::row(-1191355200, -18000, 0, "-05")
        } else {
         Table::row(-1175367600, -18000, 3600, "-04")
        }
       }
      } else {
       if i < 6 {
        if i < 5 {
         Table::row(-1159819200, -18000, 0, "-05")
        } else {
         Table::row(-633812400, -18000, 3600, "-04")
        }
       } else {
        if i < 7 {
         Table::row(-622062000, -18000, 0, "-05")
        } else {
         Table::row(-602276400, -18000, 3600, "-04")
        }
       }
      }
     } else {
      if i < 12 {
       if i < 10 {
        if i < 9 {
         Table::row(-591825600, -18000, 0, "-05")
        } else {
         Table::row(-570740400, -18000, 3600, "-04")
        }
       } else {
        if i < 11 {
         Table::row(-560203200, -18000, 0, "-05")
        } else {
         Table::row(-539118000, -18000, 3600, "-04")
        }
       }
      } else {
       if i < 14 {
        if i < 13 {
         Table::row(-531345600, -18000, 0, "-05")
        } else {
         Table::row(-191358000, -18000, 3600, "-04")
        }
       } else {
        if i < 15 {
         Table::row(-184190400, -18000, 0, "-05")
        } else {
         Table::row(-155156400, -18000, 3600, "-04")
        }
       }
      }
     }
    } else {
     if i < 24 {
      if i < 20 {
       if i < 18 {
        if i < 17 {
         Table::row(-150062400, -18000, 0, "-05")
        } else {
         Table::row(-128890800, -18000, 3600, "-04")
        }
       } else {
        if i < 19 {
         Table::row(-121118400, -18000, 0, "-05")
        } else {
         Table::row(-99946800, -18000, 3600, "-04")
        }
       }
      } else {
       if i < 22 {
        if i < 21 {
         Table::row(-89582400, -18000, 0, "-05")
        } else {
         Table::row(-68410800, -18000, 3600, "-04")
        }
       } else {
        if i < 23 {
         Table::row(-57960000, -18000, 0, "-05")
        } else {
         Table::row(499755600, -18000, 3600, "-04")
        }
       }
      }
     } else {
      if i < 28 {
       if i < 26 {
        if i < 25 {
         Table::row(511243200, -18000, 0, "-05")
        } else {
         Table::row(530600400, -18000, 3600, "-04")
        }
       } else {
        if i < 27 {
         Table::row(540273600, -18000, 0, "-05")
        } else {
         Table::row(562136400, -18000, 3600, "-04")
        }
       }
      } else {
       if i < 30 {
        if i < 29 {
         Table::row(571204800, -18000, 0, "-05")
        } else {
         Table::row(1214283600, -14400, 0, "-04")
        }
       } else {
        if i < 31 {
         Table::row(1384056000, -18000, 0, "-05")
        } else {
         Table::row(2147483647, -18000, 0, "-05")
        }
       }
      }
     }
    }
}

/// The rows of the table of the zone `Brazil/Acre`.
pub open spec fn acre_rows() -> spec_fn(int) -> (i64, FixedTimespan) {
    |i: int| acre_row(i)
}

/// The table of the zone `Brazil/Acre`.
pub open spec fn acre() -> Table {
    Table::listed(Table::row(0, -16272, 0, "LMT").1, 32, acre_rows())
}

/// Row `i` of the table of the zone `Brazil/DeNoronha`.
pub open spec fn denoronha_row(i: int) -> (i64, FixedTimespan) {
    if i < 20 {
     if i < 10 {
      if i < 5 {
       if i < 2 {
        if i < 1 {
         Table::row(-1767217820, -7200, 0, "-02")
        } else {
         Table::row(-1206961200, -7200, 3600, "-01")
        }
       } else {
        if i < 3 {
         Table::row(-1191366000, -7200, 0, "-02")
        } else {
         if i < 4 {
          Table::row(-1175378400, -7200, 3600, "-01")
         } else {
          Table::row(-1159830000, -7200, 0, "-02")
         }
        }
       }
      } else {
       if i < 7 {
        if i < 6 {
         Table::row(-633823200, -7200, 3600, "-01")
        } else {
         Table::row(-622072800, -7200, 0, "-02")
        }
       } else {
        if i < 8 {
         Table::row(-602287200, -7200, 3600, "-01")
        } else {
         if i < 9 {
          Table::row(-591836400, -7200, 0, "-02")
         } else {
          Table::row(-570751200, -7200, 3600, "-01")
         }
        }
       }
      }
     } else {
      if i < 15 {
       if i < 12 {
        if i < 11 {
         Table::row(-560214000, -7200, 0, "-02")
        } else {
         Table::row(-539128800, -7200, 3600, "-01")
        }
       } else {
        if i < 13 {
         Table::row(-531356400, -7200, 0, "-02")
        } else {
         if i < 14 {
          Table::row(-191368800, -7200, 3600, "-01")
         } else {
          Table::row(-184201200, -7200, 0, "-02")
         }
        }
       }
      } else {
       if i < 17 {
        if i < 16 {
         Table::row(-155167200, -7200, 3600, "-01")
        } else {
         Table::row(-150073200, -7200, 0, "-02")
        }
       } else {
        if i < 18 {
         Table::row(-128901600, -7200, 3600, "-01")
        } else {
         if i < 19 {
          Table::row(-121129200, -7200, 0, "-02")
         } else {
          Table::row(-99957600, -7200, 3600, "-01")
         }
        }
       }
      }
     }
    } else {
     if i < 30 {
      if i < 25 {
       if i < 22 {
        if i < 21 {
         Table::row(-89593200, -7200, 0, "-02")
        } else {
         Table::row(-68421600, -7200, 3600, "-01")
        }
       } else {
        if i < 23 {
         Table::row(-57970800, -7200, 0, "-02")
        } else {
         if i < 24 {
          Table::row(499744800, -7200, 3600, "-01")
         } else {
          Table::row(511232400, -7200, 0, "-02")
         }
        }
       }
      } else {
       if i < 27 {
        if i < 26 {
         Table::row(530589600, -7200, 3600, "-01")
        } else {
         Table::row(540262800, -7200, 0, "-02")
        }
       } else {
        if i < 28 {
         Table::row(562125600, -7200, 3600, "-01")
        } else {
         if i < 29 {
          Table::row(571194000, -7200, 0, "-02")
         } else {
          Table::row(592970400, -7200, 3600, "-01")
         }
        }
       }
      }
     } else {
      if i < 35 {
       if i < 32 {
        if i < 31 {
         Table::row(602038800, -7200, 0, "-02")
        } else {
         Table::row(624420000, -7200, 3600, "-01")
        }
       } else {
        if i < 33 {
         Table::row(634698000, -7200, 0, "-02")
        } else {
         if i < 34 {
          Table::row(938916000, -7200, 3600, "-01")
         } else {
          Table::row(951613200, -7200, 0, "-02")
         }
        }
       }
      } else {
       if i < 37 {
        if i < 36 {
         Table::row(970970400, -7200, 3600, "-01")
        } else {
         Table::row(971571600, -7200, 0, "-02")
        }
       } else {
        if i < 38 {
         Table::row(1003024800, -7200, 3600, "-01")
        } else {
         if i < 39 {
          Table::row(1013907600, -7200, 0, "-02")
         } else {
          Table::row(2147483647, -7200, 0, "-02")
         }
        }
       }
      }
     }
    }
}

/// The rows of the table of the zone `Brazil/DeNoronha`.
pub open spec fn denoronha_rows() -> spec_fn(int) -> (i64, FixedTimespan) {
    |i: int| denoronha_row(i)
}

/// The table of the zone `Brazil/DeNoronha`.
pub open spec fn denoronha() -> Table {
    Table::listed(Table::row(0, -7780, 0, "LMT").1, 40, denoronha_rows())
}

/// Row `i` of the table of the zone `Brazil/East`.
pub open spec fn east_row(i: int) -> (i64, FixedTimespan) {
    if i < 46 {
     if i < 23 {
      if i < 11 {
       if i < 5 {
        if i < 2 {
         if i < 1 {
          Table::row(-1767214412, -10800, 0, "-03")
         } else {
          Table::row(-1206957600, -10800, 3600, "-02")
         }
        } else {
         if i < 3 {
          Table::row(-1191362400, -10800, 0, "-03")
         } else {
          if i < 4 {
           Table::row(-1175374800, -10800, 3600, "-02")
          } else {
           Table::row(-1159826400, -10800, 0, "-03")
          }
         }
        }
       } else {
        if i < 8 {
         if i < 6 {
          Table::row(-633819600, -10800, 3600, "-02")
         } else {
          if i < 7 {
           Table::row(-622069200, -10800, 0, "-03")
          } else {
           Table::row(-602283600, -10800, 3600, "-02")
          }
         }
        } else {
         if i < 9 {
          Table::row(-591832800, -10800, 0, "-03")
         } else {
          if i < 10 {
           Table::row(-570747600, -10800, 3600, "-02")
          } else {
           Table::row(-560210400, -10800, 0, "-03")
          }
         }
        }
       }
      } else {
       if i < 17 {
        if i < 14 {
         if i < 12 {
          Table::row(-539125200, -10800, 3600, "-02")
         } else {
          if i < 13 {
           Table::row(-531352800, -10800, 0, "-03")
          } else {
           Table::row(-195426000, -10800, 3600, "-02")
          }
         }
        } else {
         if i < 15 {
          Table::row(-184197600, -10800, 0, "-03")
         } else {
          if i < 16 {
           Table::row(-155163600, -10800, 3600, "-02")
          } else {
           Table::row(-150069600, -10800, 0, "-03")
          }
         }
        }
       } else {
        if i < 20 {
         if i < 18 {
          Table::row(-128898000, -10800, 3600, "-02")
         } else {
          if i < 19 {
           Table::row(-121125600, -10800, 0, "-03")
          } else {
           Table::row(-99954000, -10800, 3600, "-02")
          }
         }
        } else {
         if i < 21 {
          Table::row(-89589600, -10800, 0, "-03")
         } else {
          if i < 22 {
           Table::row(-68418000, -10800, 3600, "-02")
          } else {
           Table::row(-57967200, -10800, 0, "-03")
          }
         }
        }
       }
      }
     } else {
      if i < 34 {
       if i < 28 {
        if i < 25 {
         if i < 24 {
          Table::row(499748400, -10800, 3600, "-02")
         } else {
          Table::row(511236000, -10800, 0, "-03")
         }
        } else {
         if i < 26 {
          Table::row(530593200, -10800, 3600, "-02")
         } else {
          if i < 27 {
           Table::row(540266400, -10800, 0, "-03")
          } else {
           Table::row(562129200, -10800, 3600, "-02")
          }
         }
        }
       } else {
        if i < 31 {
         if i < 29 {
          Table::row(571197600, -10800, 0, "-03")
         } else {
          if i < 30 {
           Table::row(592974000, -10800, 3600, "-02")
          } else {
           Table::row(602042400, -10800, 0, "-03")
          }
         }
        } else {
         if i < 32 {
          Table::row(624423600, -10800, 3600, "-02")
         } else {
          if i < 33 {
           Table::row(634701600, -10800, 0, "-03")
          } else {
           Table::row(656478000, -10800, 3600, "-02")
          }
         }
        }
       }
      } else {
       if i < 40 {
        if i < 37 {
         if i < 35 {
          Table::row(666756000, -10800, 0, "-03")
         } else {
          if i < 36 {
           Table::row(687927600, -10800, 3600, "-02")
          } else {
           Table::row(697600800, -10800, 0, "-03")
          }
         }
        } else {
         if i < 38 {
          Table::row(719982000, -10800, 3600, "-02")
         } else {
          if i < 39 {
           Table::row(728445600, -10800, 0, "-03")
          } else {
           Table::row(750826800, -10800, 3600, "-02")
          }
         }
        }
       } else {
        if i < 43 {
         if i < 41 {
          Table::row(761709600, -10800, 0, "-03")
         } else {
          if i < 42 {
           Table::row(782276400, -10800, 3600, "-02")
          } else {
           Table::row(793159200, -10800, 0, "-03")
          }
         }
        } else {
         if i < 44 {
          Table::row(813726000, -10800, 3600, "-02")
         } else {
          if i < 45 {
           Table::row(824004000, -10800, 0, "-03")
          } else {
           Table::row(844570800, -10800, 3600, "-02")
          }
         }
        }
       }
      }
     }
    } else {
     if i < 69 {
      if i < 57 {
       if i < 51 {
        if i < 48 {
         if i < 47 {
          Table::row(856058400, -10800, 0, "-03")
         } else {
          Table::row(876106800, -10800, 3600, "-02")
         }
        } else {
         if i < 49 {
          Table::row(888717600, -10800, 0, "-03")
         } else {
          if i < 50 {
           Table::row(908074800, -10800, 3600, "-02")
          } else {
           Table::row(919562400, -10800, 0, "-03")
          }
         }
        }
       } else {
        if i < 54 {
         if i < 52 {
          Table::row(938919600, -10800, 3600, "-02")
         } else {
          if i < 53 {
           Table::row(951616800, -10800, 0, "-03")
          } else {
           Table::row(970974000, -10800, 3600, "-02")
          }
         }
        } else {
         if i < 55 {
          Table::row(982461600, -10800, 0, "-03")
         } else {
          if i < 56 {
           Table::row(1003028400, -10800, 3600, "-02")
          } else {
           Table::row(1013911200, -10800, 0, "-03")
          }
         }
        }
       }
      } else {
       if i < 63 {
        if i < 60 {
         if i < 58 {
          Table::row(1036292400, -10800, 3600, "-02")
         } else {
          if i < 59 {
           Table::row(1045360800, -10800, 0, "-03")
          } else {
           Table::row(1066532400, -10800, 3600, "-02")
          }
         }
        } else {
         if i < 61 {
          Table::row(1076810400, -10800, 0, "-03")
         } else {
          if i < 62 {
           Table::row(1099364400, -10800, 3600, "-02")
          } else {
           Table::row(1108864800, -10800, 0, "-03")
          }
         }
        }
       } else {
        if i < 66 {
         if i < 64 {
          Table::row(1129431600, -10800, 3600, "-02")
         } else {
          if i < 65 {
           Table::row(1140314400, -10800, 0, "-03")
          } else {
           Table::row(1162695600, -10800, 3600, "-02")
          }
         }
        } else {
         if i < 67 {
          Table::row(1172368800, -10800, 0, "-03")
         } else {
          if i < 68 {
           Table::row(1192330800, -10800, 3600, "-02")
          } else {
           Table::row(1203213600, -10800, 0, "-03")
          }
         }
        }
       }
      }
     } else {
      if i < 80 {
       if i < 74 {
        if i < 71 {
         if i < 70 {
          Table::row(1224385200, -10800, 3600, "-02")
         } else {
          Table::row(1234663200, -10800, 0, "-03")
         }
        } else {
         if i < 72 {
          Table::row(1255834800, -10800, 3600, "-02")
         } else {
          if i < 73 {
           Table::row(1266717600, -10800, 0, "-03")
          } else {
           Table::row(1287284400, -10800, 3600, "-02")
          }
         }
        }
       } else {
        if i < 77 {
         if i < 75 {
          Table::row(1298167200, -10800, 0, "-03")
         } else {
          if i < 76 {
           Table::row(1318734000, -10800, 3600, "-02")
          } else {
           Table::row(1330221600, -10800, 0, "-03")
          }
         }
        } else {
         if i < 78 {
          Table::row(1350788400, -10800, 3600, "-02")
         } else {
          if i < 79 {
           Table::row(1361066400, -10800, 0, "-03")
          } else {
           Table::row(1382238000, -10800, 3600, "-02")
          }
         }
        }
       }
      } else {
       if i < 86 {
        if i < 83 {
         if i < 81 {
          Table::row(1392516000, -10800, 0, "-03")
         } else {
          if i < 82 {
           Table::row(1413687600, -10800, 3600, "-02")
          } else {
           Table::row(1424570400, -10800, 0, "-03")
          }
         }
        } else {
         if i < 84 {
          Table::row(1445137200, -10800, 3600, "-02")
         } else {
          if i < 85 {
           Table::row(1456020000, -10800, 0, "-03")
          } else {
           Table::row(1476586800, -10800, 3600, "-02")
          }
         }
        }
       } else {
        if i < 89 {
         if i < 87 {
          Table::row(1487469600, -10800, 0, "-03")
         } else {
          if i < 88 {
           Table::row(1508036400, -10800, 3600, "-02")
          } else {
           Table::row(1518919200, -10800, 0, "-03")
          }
         }
        } else {
         if i < 90 {
          Table::row(1541300400, -10800, 3600, "-02")
         } else {
          if i < 91 {
           Table::row(1550368800, -10800, 0, "-03")
          } else {
           Table::row(2147483647, -10800, 0, "-03")
          }
         }
        }
       }
      }
     }
    }
}

/// The rows of the table of the zone `Brazil/East`.
pub open spec fn east_rows() -> spec_fn(int) -> (i64, FixedTimespan) {
    |i: int| east_row(i)
}

/// The table of the zone `Brazil/East`.
pub open spec fn east() -> Table {
    Table::listed(Table::row(0, -11188, 0, "LMT").1, 92, east_rows())
}

/// Row `i` of the table of the zone `Brazil/West`.
pub open spec fn west_row(i: int) -> (i64, FixedTimespan) {
    if i < 16 {
     if i < 8 {
      if i < 4 {
       if i < 2 {
        if i < 1 {
         Table::row(-1767211196, -14400, 0, "-04")
        } else {
         Table::row(-1206954000, -14400, 3600, "-03")
        }
       } else {
        if i < 3 {
         Table::row(-1191358800, -14400, 0, "-04")
        } else {
         Table::row(-1175371200, -14400, 3600, "-03")
        }
       }
      } else {
       if i < 6 {
        if i < 5 {
         Table::row(-1159822800, -14400, 0, "-04")
        } else {
         Table::row(-633816000, -14400, 3600, "-03")
        }
       } else {
        if i < 7 {
         Table::row(-622065600, -14400, 0, "-04")
        } else {
         Table::row(-602280000, -14400, 3600, "-03")
        }
       }
      }
     } else {
      if i < 12 {
       if i < 10 {
        if i < 9 {
         Table::row(-591829200, -14400, 0, "-04")
        } else {
         Table::row(-570744000, -14400, 3600, "-03")
        }
       } else {
        if i < 11 {
         Table::row(-560206800, -14400, 0, "-04")
        } else {
         Table::row(-539121600, -14400, 3600, "-03")
        }
       }
      } else {
       if i < 14 {
        if i < 13 {
         Table::row(-531349200, -14400, 0, "-04")
        } else {
         Table::row(-191361600, -14400, 3600, "-03")
        }
       } else {
        if i < 15 {
         Table::row(-184194000, -14400, 0, "-04")
        } else {
         Table::row(-155160000, -14400, 3600, "-03")
        }
       }
      }
     }
    } else {
     if i < 24 {
      if i < 20 {
       if i < 18 {
        if i < 17 {
         Table::row(-150066000, -14400, 0, "-04")
        } else {
         Table::row(-128894400, -14400, 3600, "-03")
        }
       } else {
        if i < 19 {
         Table::row(-121122000, -14400, 0, "-04")
        } else {
         Table::row(-99950400, -14400, 3600, "-03")
        }
       }
      } else {
       if i < 22 {
        if i < 21 {
         Table::row(-89586000, -14400, 0, "-04")
        } else {
         Table::row(-68414400, -14400, 3600, "-03")
        }
       } else {
        if i < 23 {
         Table::row(-57963600, -14400, 0, "-04")
        } else {
         Table::row(499752000, -14400, 3600, "-03")
        }
       }
      }
     } else {
      if i < 28 {
       if i < 26 {
        if i < 25 {
         Table::row(511239600, -14400, 0, "-04")
        } else {
         Table::row(530596800, -14400, 3600, "-03")
        }
       } else {
        if i < 27 {
         Table::row(540270000, -14400, 0, "-04")
        } else {
         Table::row(562132800, -14400, 3600, "-03")
        }
       }
      } else {
       if i < 30 {
        if i < 29 {
         Table::row(571201200, -14400, 0, "-04")
        } else {
         Table::row(750830400, -14400, 3600, "-03")
        }
       } else {
        if i < 31 {
         Table::row(761713200, -14400, 0, "-04")
        } else {
         Table::row(2147483647, -14400, 0, "-04")
        }
       }
      }
     }
    }
}

/// The rows of the table of the zone `Brazil/West`.
pub open spec fn west_rows() -> spec_fn(int) -> (i64, FixedTimespan) {
    |i: int| west_row(i)
}

/// The table of the zone `Brazil/West`.
pub open spec fn west() -> Table {
    Table::listed(Table::row(0, -14404, 0, "LMT").1, 32, west_rows())
}

} // verus!
