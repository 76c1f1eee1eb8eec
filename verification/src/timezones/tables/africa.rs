//! The tables of the zones of Africa.

use crate::timezone_impl::{FixedTimespan, Table};
use vstd::prelude::*;

verus! {

/// Row `i` of the table of the zone `Africa/Abidjan`.
pub open spec fn abidjan_row(i: int) -> (i64, FixedTimespan) {
    Table::row(-1830383032, 0, 0, "GMT")
}

/// The rows of the table of the zone `Africa/Abidjan`.
pub open spec fn abidjan_rows() -> spec_fn(int) -> (i64, FixedTimespan) {
    |i: int| abidjan_row(i)
}

/// The table of the zone `Africa/Abidjan`.
pub open spec fn abidjan() -> Table {
    Table::listed(Table::row(0, -968, 0, "LMT").1, 1, abidjan_rows())
}

/// Row `i` of the table of the zone `Africa/Accra`.
pub open spec fn accra_row(i: int) -> (i64, FixedTimespan) {
    if i < 30 {
     if i < 15 {
      if i < 7 {
       if i < 3 {
        if i < 1 {
         Table::row(-1709337548, 0, 0, "GMT")
        } else {
         if i < 2 {
          Table::row(-1581206400, 0, 1200, "+0020")
         } else {
          Table::row(-1577917200, 0, 0, "GMT")
         }
        }
       } else {
        if i < 5 {
         if i < 4 {
          Table::row(-1556834400, 0, 1200, "+0020")
         } else {
          Table::row(-1546294800, 0, 0, "GMT")
         }
        } else {
         if i < 6 {
          Table::row(-1525298400, 0, 1200, "+0020")
         } else {
          Table::row(-1514758800, 0, 0, "GMT")
         }
        }
       }
      } else {
       if i < 11 {
        if i < 9 {
         if i < 8 {
          Table::row(-1493762400, 0, 1200, "+0020")
         } else {
          Table::row(-1483222800, 0, 0, "GMT")
         }
        } else {
         if i < 10 {
          Table::row(-1462226400, 0, 1200, "+0020")
         } else {
          Table::row(-1451686800, 0, 0, "GMT")
         }
        }
       } else {
        if i < 13 {
         if i < 12 {
          Table::row(-1430604000, 0, 1200, "+0020")
         } else {
          Table::row(-1420064400, 0, 0, "GMT")
         }
        } else {
         if i < 14 {
          Table::row(-1399068000, 0, 1200, "+0020")
         } else {
          Table::row(-1388528400, 0, 0, "GMT")
         }
        }
       }
      }
     } else {
      if i < 22 {
       if i < 18 {
        if i < 16 {
         Table::row(-1367532000, 0, 1200, "+0020")
        } else {
         if i < 17 {
          Table::row(-1356992400, 0, 0, "GMT")
         } else {
          Table::row(-1335996000, 0, 1200, "+0020")
         }
        }
       } else {
        if i < 20 {
         if i < 19 {
          Table::row(-1325456400, 0, 0, "GMT")
         } else {
          Table::row(-1304373600, 0, 1200, "+0020")
         }
        } else {
         if i < 21 {
          Table::row(-1293834000, 0, 0, "GMT")
         } else {
          Table::row(-1272837600, 0, 1200, "+0020")
         }
        }
       }
      } else {
       if i < 26 {
        if i < 24 {
         if i < 23 {
          Table::row(-1262298000, 0, 0, "GMT")
         } else {
          Table::row(-1241301600, 0, 1200, "+0020")
         }
        } else {
         if i < 25 {
          Table::row(-1230762000, 0, 0, "GMT")
         } else {
          Table::row(-1209765600, 0, 1200, "+0020")
         }
        }
       } else {
        if i < 28 {
         if i < 27 {
          Table::row(-1199226000, 0, 0, "GMT")
         } else {
          Table::row(-1178143200, 0, 1200, "+0020")
         }
        } else {
         if i < 29 {
          Table::row(-1167603600, 0, 0, "GMT")
         } else {
          Table::row(-1146607200, 0, 1200, "+0020")
         }
        }
       }
      }
     }
    } else {
     if i < 45 {
      if i < 37 {
       if i < 33 {
        if i < 31 {
         Table::row(-1136067600, 0, 0, "GMT")
        } else {
         if i < 32 {
          Table::row(-1115071200, 0, 1200, "+0020")
         } else {
          Table::row(-1104531600, 0, 0, "GMT")
         }
        }
       } else {
        if i < 35 {
         if i < 34 {
          Table::row(-1083535200, 0, 1200, "+0020")
         } else {
          Table::row(-1072995600, 0, 0, "GMT")
         }
        } else {
         if i < 36 {
          Table::row(-1051912800, 0, 1200, "+0020")
         } else {
          Table::row(-1041373200, 0, 0, "GMT")
         }
        }
       }
      } else {
       if i < 41 {
        if i < 39 {
         if i < 38 {
          Table::row(-1020376800, 0, 1200, "+0020")
         } else {
          Table::row(-1009837200, 0, 0, "GMT")
         }
        } else {
         if i < 40 {
          Table::row(-988840800, 0, 1200, "+0020")
         } else {
          Table::row(-978301200, 0, 0, "GMT")
         }
        }
       } else {
        if i < 43 {
         if i < 42 {
          Table::row(-957304800, 0, 1200, "+0020")
         } else {
          Table::row(-946765200, 0, 0, "GMT")
         }
        } else {
         if i < 44 {
          Table::row(-936309600, 0, 1200, "+0020")
         } else {
          Table::row(-915142800, 0, 0, "GMT")
         }
        }
       }
      }
     } else {
      if i < 53 {
       if i < 49 {
        if i < 47 {
         if i < 46 {
          Table::row(-904773600, 0, 1200, "+0020")
         } else {
          Table::row(-883606800, 0, 0, "GMT")
         }
        } else {
         if i < 48 {
          Table::row(-880329600, 1800, 0, "+0030")
         } else {
          Table::row(-756952200, 0, 0, "GMT")
         }
        }
       } else {
        if i < 51 {
         if i < 50 {
          Table::row(-610149600, 0, 1800, "+0030")
         } else {
          Table::row(-599610600, 0, 0, "GMT")
         }
        } else {
         if i < 52 {
          Table::row(-578613600, 0, 1800, "+0030")
         } else {
          Table::row(-568074600, 0, 0, "GMT")
         }
        }
       }
      } else {
       if i < 57 {
        if i < 55 {
         if i < 54 {
          Table::row(-546991200, 0, 1800, "+0030")
         } else {
          Table::row(-536452200, 0, 0, "GMT")
         }
        } else {
         if i < 56 {
          Table::row(-515455200, 0, 1800, "+0030")
         } else {
          Table::row(-504916200, 0, 0, "GMT")
         }
        }
       } else {
        if i < 59 {
         if i < 58 {
          Table::row(-483919200, 0, 1800, "+0030")
         } else {
          Table::row(-473380200, 0, 0, "GMT")
         }
        } else {
         if i < 60 {
          Table::row(-452383200, 0, 1800, "+0030")
         } else {
          Table::row(-441844200, 0, 0, "GMT")
         }
        }
       }
      }
     }
    }
}

/// The rows of the table of the zone `Africa/Accra`.
pub open spec fn accra_rows() -> spec_fn(int) -> (i64, FixedTimespan) {
    |i: int| accra_row(i)
}

/// The table of the zone `Africa/Accra`.
pub open spec fn accra() -> Table {
    Table::listed(Table::row(0, -52, 0, "LMT").1, 61, accra_rows())
}

/// Row `i` of the table of the zone `Africa/Addis_Ababa`.
pub open spec fn addis_ababa_row(i: int) -> (i64, FixedTimespan) {
    if i < 1 {
     Table::row(-3155682888, 9320, 0, "ADMT")
    } else {
     Table::row(-1062210920, 10800, 0, "EAT")
    }
}

/// The rows of the table of the zone `Africa/Addis_Ababa`.
pub open spec fn addis_ababa_rows() -> spec_fn(int) -> (i64, FixedTimespan) {
    |i: int| addis_ababa_row(i)
}

/// The table of the zone `Africa/Addis_Ababa`.
pub open spec fn addis_ababa() -> Table {
    Table::listed(Table::row(0, 9288, 0, "LMT").1, 2, addis_ababa_rows())
}

/// Row `i` of the table of the zone `Africa/Algiers`.
pub open spec fn algiers_row(i: int) -> (i64, FixedTimespan) {
    if i < 17 {
     if i < 8 {
      if i < 4 {
       if i < 2 {
        if i < 1 {
         Table::row(-2486592732, 561, 0, "PMT")
        } else {
         Table::row(-1855958961, 0, 0, "WET")
        }
       } else {
        if i < 3 {
         Table::row(-1689814800, 0, 3600, "WEST")
        } else {
         Table::row(-1680397200, 0, 0, "WET")
        }
       }
      } else {
       if i < 6 {
        if i < 5 {
         Table::row(-1665363600, 0, 3600, "WEST")
        } else {
         Table::row(-1648342800, 0, 0, "WET")
        }
       } else {
        if i < 7 {
         Table::row(-1635123600, 0, 3600, "WEST")
        } else {
         Table::row(-1616893200, 0, 0, "WET")
        }
       }
      }
     } else {
      if i < 12 {
       if i < 10 {
        if i < 9 {
         Table::row(-1604278800, 0, 3600, "WEST")
        } else {
         Table::row(-1585443600, 0, 0, "WET")
        }
       } else {
        if i < 11 {
         Table::row(-1574038800, 0, 3600, "WEST")
        } else {
         Table::row(-1552266000, 0, 0, "WET")
        }
       }
      } else {
       if i < 14 {
        if i < 13 {
         Table::row(-1539997200, 0, 3600, "WEST")
        } else {
         Table::row(-1531443600, 0, 0, "WET")
        }
       } else {
        if i < 15 {
         Table::row(-956365200, 0, 3600, "WEST")
        } else {
         if i < 16 {
          Table::row(-950486400, 0, 0, "WET")
         } else {
          Table::row(-942012000, 3600, 0, "CET")
         }
        }
       }
      }
     }
    } else {
     if i < 25 {
      if i < 21 {
       if i < 19 {
        if i < 18 {
         Table::row(-812502000, 3600, 3600, "CEST")
        } else {
         Table::row(-796262400, 3600, 0, "CET")
        }
       } else {
        if i < 20 {
         Table::row(-781052400, 3600, 3600, "CEST")
        } else {
         Table::row(-766630800, 3600, 0, "CET")
        }
       }
      } else {
       if i < 23 {
        if i < 22 {
         Table::row(-733280400, 0, 0, "WET")
        } else {
         Table::row(-439430400, 3600, 0, "CET")
        }
       } else {
        if i < 24 {
         Table::row(-212029200, 0, 0, "WET")
        } else {
         Table::row(41468400, 0, 3600, "WEST")
        }
       }
      }
     } else {
      if i < 29 {
       if i < 27 {
        if i < 26 {
         Table::row(54774000, 0, 0, "WET")
        } else {
         Table::row(231724800, 0, 3600, "WEST")
        }
       } else {
        if i < 28 {
         Table::row(246236400, 3600, 0, "CET")
        } else {
         Table::row(259545600, 3600, 3600, "CEST")
        }
       }
      } else {
       if i < 31 {
        if i < 30 {
         Table::row(275274000, 3600, 0, "CET")
        } else {
         Table::row(309740400, 0, 0, "WET")
        }
       } else {
        if i < 32 {
         Table::row(325468800, 0, 3600, "WEST")
        } else {
         if i < 33 {
          Table::row(341802000, 0, 0, "WET")
         } else {
          Table::row(357523200, 3600, 0, "CET")
         }
        }
       }
      }
     }
    }
}

/// The rows of the table of the zone `Africa/Algiers`.
pub open spec fn algiers_rows() -> spec_fn(int) -> (i64, FixedTimespan) {
    |i: int| algiers_row(i)
}

/// The table of the zone `Africa/Algiers`.
pub open spec fn algiers() -> Table {
    Table::listed(Table::row(0, 732, 0, "LMT").1, 34, algiers_rows())
}

/// Row `i` of the table of the zone `Africa/Asmara`.
pub open spec fn asmara_row(i: int) -> (i64, FixedTimespan) {
    if i < 1 {
     Table::row(-3155682932, 9332, 0, "AMT")
    } else {
     if i < 2 {
      Table::row(-2524530932, 9320, 0, "ADMT")
     } else {
      Table::row(-1062210920, 10800, 0, "EAT")
     }
    }
}

/// The rows of the table of the zone `Africa/Asmara`.
pub open spec fn asmara_rows() -> spec_fn(int) -> (i64, FixedTimespan) {
    |i: int| asmara_row(i)
}

/// The table of the zone `Africa/Asmara`.
pub open spec fn asmara() -> Table {
    Table::listed(Table::row(0, 9332, 0, "LMT").1, 3, asmara_rows())
}

/// Row `i` of the table of the zone `Africa/Asmera`.
pub open spec fn asmera_row(i: int) -> (i64, FixedTimespan) {
    if i < 2 {
     if i < 1 {
      Table::row(-1946168836, 9000, 0, "+0230")
     } else {
      Table::row(-1309746600, 10800, 0, "EAT")
     }
    } else {
     if i < 3 {
      Table::row(-1261969200, 9000, 0, "+0230")
     } else {
      if i < 4 {
       Table::row(-1041388200, 9900, 0, "+0245")
      } else {
       Table::row(-865305900, 10800, 0, "EAT")
      }
     }
    }
}

/// The rows of the table of the zone `Africa/Asmera`.
pub open spec fn asmera_rows() -> spec_fn(int) -> (i64, FixedTimespan) {
    |i: int| asmera_row(i)
}

/// The table of the zone `Africa/Asmera`.
pub open spec fn asmera() -> Table {
    Table::listed(Table::row(0, 8836, 0, "LMT").1, 5, asmera_rows())
}

/// Row `i` of the table of the zone `Africa/Bamako`.
pub open spec fn bamako_row(i: int) -> (i64, FixedTimespan) {
    if i < 1 {
     Table::row(-1830382080, 0, 0, "GMT")
    } else {
     if i < 2 {
      Table::row(-1131235200, -3600, 0, "-01")
     } else {
      Table::row(-300841200, 0, 0, "GMT")
     }
    }
}

/// The rows of the table of the zone `Africa/Bamako`.
pub open spec fn bamako_rows() -> spec_fn(int) -> (i64, FixedTimespan) {
    |i: int| bamako_row(i)
}

/// The table of the zone `Africa/Bamako`.
pub open spec fn bamako() -> Table {
    Table::listed(Table::row(0, -1920, 0, "LMT").1, 3, bamako_rows())
}

/// Row `i` of the table of the zone `Africa/Bangui`.
pub open spec fn bangui_row(i: int) -> (i64, FixedTimespan) {
    Table::row(-1830388460, 3600, 0, "WAT")
}

/// The rows of the table of the zone `Africa/Bangui`.
pub open spec fn bangui_rows() -> spec_fn(int) -> (i64, FixedTimespan) {
    |i: int| bangui_row(i)
}

/// The table of the zone `Africa/Bangui`.
pub open spec fn bangui() -> Table {
    Table::listed(Table::row(0, 4460, 0, "LMT").1, 1, bangui_rows())
}

/// Row `i` of the table of the zone `Africa/Banjul`.
pub open spec fn banjul_row(i: int) -> (i64, FixedTimespan) {
    if i < 1 {
     Table::row(-1830380004, -3996, 0, "BMT")
    } else {
     if i < 2 {
      Table::row(-1159829604, -3600, 0, "-01")
     } else {
      Table::row(-880930800, 0, 0, "GMT")
     }
    }
}

/// The rows of the table of the zone `Africa/Banjul`.
pub open spec fn banjul_rows() -> spec_fn(int) -> (i64, FixedTimespan) {
    |i: int| banjul_row(i)
}

/// The table of the zone `Africa/Banjul`.
pub open spec fn banjul() -> Table {
    Table::listed(Table::row(0, -3996, 0, "LMT").1, 3, banjul_rows())
}

/// Row `i` of the table of the zone `Africa/Bissau`.
pub open spec fn bissau_row(i: int) -> (i64, FixedTimespan) {
    if i < 1 {
     Table::row(-1830380400, -3600, 0, "-01")
    } else {
     Table::row(157770000, 0, 0, "GMT")
    }
}

/// The rows of the table of the zone `Africa/Bissau`.
pub open spec fn bissau_rows() -> spec_fn(int) -> (i64, FixedTimespan) {
    |i: int| bissau_row(i)
}

/// The table of the zone `Africa/Bissau`.
pub open spec fn bissau() -> Table {
    Table::listed(Table::row(0, -3740, 0, "LMT").1, 2, bissau_rows())
}

/// Row `i` of the table of the zone `Africa/Blantyre`.
pub open spec fn blantyre_row(i: int) -> (i64, FixedTimespan) {
    if i < 1 {
     Table::row(-1844302800, 8470, 0, "ZMT")
    } else {
     if i < 2 {
      Table::row(-1751682070, 8460, 0, "ZMT")
     } else {
      Table::row(-1404440460, 7200, 0, "CAT")
     }
    }
}

/// The rows of the table of the zone `Africa/Blantyre`.
pub open spec fn blantyre_rows() -> spec_fn(int) -> (i64, FixedTimespan) {
    |i: int| blantyre_row(i)
}

/// The table of the zone `Africa/Blantyre`.
pub open spec fn blantyre() -> Table {
    Table::listed(Table::row(0, 8400, 0, "LMT").1, 3, blantyre_rows())
}

/// Row `i` of the table of the zone `Africa/Brazzaville`.
pub open spec fn brazzaville_row(i: int) -> (i64, FixedTimespan) {
    Table::row(-1830387668, 3600, 0, "WAT")
}

/// The rows of the table of the zone `Africa/Brazzaville`.
pub open spec fn brazzaville_rows() -> spec_fn(int) -> (i64, FixedTimespan) {
    |i: int| brazzaville_row(i)
}

/// The table of the zone `Africa/Brazzaville`.
pub open spec fn brazzaville() -> Table {
    Table::listed(Table::row(0, 3668, 0, "LMT").1, 1, brazzaville_rows())
}

/// Row `i` of the table of the zone `Africa/Bujumbura`.
pub open spec fn bujumbura_row(i: int) -> (i64, FixedTimespan) {
    Table::row(-2524528648, 7200, 0, "CAT")
}

/// The rows of the table of the zone `Africa/Bujumbura`.
pub open spec fn bujumbura_rows() -> spec_fn(int) -> (i64, FixedTimespan) {
    |i: int| bujumbura_row(i)
}

/// The table of the zone `Africa/Bujumbura`.
pub open spec fn bujumbura() -> Table {
    Table::listed(Table::row(0, 7048, 0, "LMT").1, 1, bujumbura_rows())
}

/// Row `i` of the table of the zone `Africa/Cairo`.
pub open spec fn cairo_row(i: int) -> (i64, FixedTimespan) {
    if i < 78 {
     if i < 39 {
      if i < 19 {
       if i < 9 {
        if i < 4 {
         if i < 2 {
          if i < 1 {
           Table::row(-2185409109, 7200, 0, "EET")
          } else {
           Table::row(-929844000, 7200, 3600, "EEST")
          }
         } else {
          if i < 3 {
           Table::row(-923108400, 7200, 0, "EET")
          } else {
           Table::row(-906170400, 7200, 3600, "EEST")
          }
         }
        } else {
         if i < 6 {
          if i < 5 {
           Table::row(-892868400, 7200, 0, "EET")
          } else {
           Table::row(-875844000, 7200, 3600, "EEST")
          }
         } else {
          if i < 7 {
           Table::row(-857790000, 7200, 0, "EET")
          } else {
           if i < 8 {
            Table::row(-844308000, 7200, 3600, "EEST")
           } else {
            Table::row(-825822000, 7200, 0, "EET")
           }
          }
         }
        }
       } else {
        if i < 14 {
         if i < 11 {
          if i < 10 {
           Table::row(-812685600, 7200, 3600, "EEST")
          } else {
           Table::row(-794199600, 7200, 0, "EET")
          }
         } else {
          if i < 12 {
           Table::row(-779853600, 7200, 3600, "EEST")
          } else {
           if i < 13 {
            Table::row(-762663600, 7200, 0, "EET")
           } else {
            Table::row(-399088800, 7200, 3600, "EEST")
           }
          }
         }
        } else {
         if i < 16 {
          if i < 15 {
           Table::row(-386650800, 7200, 0, "EET")
          } else {
           Table::row(-368330400, 7200, 3600, "EEST")
          }
         } else {
          if i < 17 {
           Table::row(-355114800, 7200, 0, "EET")
          } else {
           if i < 18 {
            Table::row(-336790800, 7200, 3600, "EEST")
           } else {
            Table::row(-323654400, 7200, 0, "EET")
           }
          }
         }
        }
       }
      } else {
       if i < 29 {
        if i < 24 {
         if i < 21 {
          if i < 20 {
           Table::row(-305168400, 7200, 3600, "EEST")
          } else {
           Table::row(-292032000, 7200, 0, "EET")
          }
         } else {
          if i < 22 {
           Table::row(-273632400, 7200, 3600, "EEST")
          } else {
           if i < 23 {
            Table::row(-260496000, 7200, 0, "EET")
           } else {
            Table::row(-242096400, 7200, 3600, "EEST")
           }
          }
         }
        } else {
         if i < 26 {
          if i < 25 {
           Table::row(-228960000, 7200, 0, "EET")
          } else {
           Table::row(-210560400, 7200, 3600, "EEST")
          }
         } else {
          if i < 27 {
           Table::row(-197424000, 7200, 0, "EET")
          } else {
           if i < 28 {
            Table::row(-178938000, 7200, 3600, "EEST")
           } else {
            Table::row(-165801600, 7200, 0, "EET")
           }
          }
         }
        }
       } else {
        if i < 34 {
         if i < 31 {
          if i < 30 {
           Table::row(-147402000, 7200, 3600, "EEST")
          } else {
           Table::row(-134265600, 7200, 0, "EET")
          }
         } else {
          if i < 32 {
           Table::row(-115866000, 7200, 3600, "EEST")
          } else {
           if i < 33 {
            Table::row(-102643200, 7200, 0, "EET")
           } else {
            Table::row(-84330000, 7200, 3600, "EEST")
           }
          }
         }
        } else {
         if i < 36 {
          if i < 35 {
           Table::row(-71107200, 7200, 0, "EET")
          } else {
           Table::row(-52707600, 7200, 3600, "EEST")
          }
         } else {
          if i < 37 {
           Table::row(-39484800, 7200, 0, "EET")
          } else {
           if i < 38 {
            Table::row(-21171600, 7200, 3600, "EEST")
           } else {
            Table::row(-7948800, 7200, 0, "EET")
           }
          }
         }
        }
       }
      }
     } else {
      if i < 58 {
       if i < 48 {
        if i < 43 {
         if i < 41 {
          if i < 40 {
           Table::row(10364400, 7200, 3600, "EEST")
          } else {
           Table::row(23587200, 7200, 0, "EET")
          }
         } else {
          if i < 42 {
           Table::row(41900400, 7200, 3600, "EEST")
          } else {
           Table::row(55123200, 7200, 0, "EET")
          }
         }
        } else {
         if i < 45 {
          if i < 44 {
           Table::row(73522800, 7200, 3600, "EEST")
          } else {
           Table::row(86745600, 7200, 0, "EET")
          }
         } else {
          if i < 46 {
           Table::row(105058800, 7200, 3600, "EEST")
          } else {
           if i < 47 {
            Table::row(118281600, 7200, 0, "EET")
           } else {
            Table::row(136594800, 7200, 3600, "EEST")
           }
          }
         }
        }
       } else {
        if i < 53 {
         if i < 50 {
          if i < 49 {
           Table::row(149817600, 7200, 0, "EET")
          } else {
           Table::row(168130800, 7200, 3600, "EEST")
          }
         } else {
          if i < 51 {
           Table::row(181353600, 7200, 0, "EET")
          } else {
           if i < 52 {
            Table::row(199753200, 7200, 3600, "EEST")
           } else {
            Table::row(212976000, 7200, 0, "EET")
           }
          }
         }
        } else {
         if i < 55 {
          if i < 54 {
           Table::row(231289200, 7200, 3600, "EEST")
          } else {
           Table::row(244512000, 7200, 0, "EET")
          }
         } else {
          if i < 56 {
           Table::row(262825200, 7200, 3600, "EEST")
          } else {
           if i < 57 {
            Table::row(276048000, 7200, 0, "EET")
           } else {
            Table::row(294361200, 7200, 3600, "EEST")
           }
          }
         }
        }
       }
      } else {
       if i < 68 {
        if i < 63 {
         if i < 60 {
          if i < 59 {
           Table::row(307584000, 7200, 0, "EET")
          } else {
           Table::row(325983600, 7200, 3600, "EEST")
          }
         } else {
          if i < 61 {
           Table::row(339206400, 7200, 0, "EET")
          } else {
           if i < 62 {
            Table::row(357519600, 7200, 3600, "EEST")
           } else {
            Table::row(370742400, 7200, 0, "EET")
           }
          }
         }
        } else {
         if i < 65 {
          if i < 64 {
           Table::row(396399600, 7200, 3600, "EEST")
          } else {
           Table::row(402278400, 7200, 0, "EET")
          }
         } else {
          if i < 66 {
           Table::row(426812400, 7200, 3600, "EEST")
          } else {
           if i < 67 {
            Table::row(433814400, 7200, 0, "EET")
           } else {
            Table::row(452214000, 7200, 3600, "EEST")
           }
          }
         }
        }
       } else {
        if i < 73 {
         if i < 70 {
          if i < 69 {
           Table::row(465436800, 7200, 0, "EET")
          } else {
           Table::row(483750000, 7200, 3600, "EEST")
          }
         } else {
          if i < 71 {
           Table::row(496972800, 7200, 0, "EET")
          } else {
           if i < 72 {
            Table::row(515286000, 7200, 3600, "EEST")
           } else {
            Table::row(528508800, 7200, 0, "EET")
           }
          }
         }
        } else {
         if i < 75 {
          if i < 74 {
           Table::row(546822000, 7200, 3600, "EEST")
          } else {
           Table::row(560044800, 7200, 0, "EET")
          }
         } else {
          if i < 76 {
           Table::row(578444400, 7200, 3600, "EEST")
          } else {
           if i < 77 {
            Table::row(591667200, 7200, 0, "EET")
           } else {
            Table::row(610412400, 7200, 3600, "EEST")
           }
          }
         }
        }
       }
      }
     }
    } else {
     if i < 117 {
      if i < 97 {
       if i < 87 {
        if i < 82 {
         if i < 80 {
          if i < 79 {
           Table::row(623203200, 7200, 0, "EET")
          } else {
           Table::row(641516400, 7200, 3600, "EEST")
          }
         } else {
          if i < 81 {
           Table::row(654739200, 7200, 0, "EET")
          } else {
           Table::row(673052400, 7200, 3600, "EEST")
          }
         }
        } else {
         if i < 84 {
          if i < 83 {
           Table::row(686275200, 7200, 0, "EET")
          } else {
           Table::row(704674800, 7200, 3600, "EEST")
          }
         } else {
          if i < 85 {
           Table::row(717897600, 7200, 0, "EET")
          } else {
           if i < 86 {
            Table::row(736210800, 7200, 3600, "EEST")
           } else {
            Table::row(749433600, 7200, 0, "EET")
           }
          }
         }
        }
       } else {
        if i < 92 {
         if i < 89 {
          if i < 88 {
           Table::row(767746800, 7200, 3600, "EEST")
          } else {
           Table::row(780969600, 7200, 0, "EET")
          }
         } else {
          if i < 90 {
           Table::row(799020000, 7200, 3600, "EEST")
          } else {
           if i < 91 {
            Table::row(812322000, 7200, 0, "EET")
           } else {
            Table::row(830469600, 7200, 3600, "EEST")
           }
          }
         }
        } else {
         if i < 94 {
          if i < 93 {
           Table::row(843771600, 7200, 0, "EET")
          } else {
           Table::row(861919200, 7200, 3600, "EEST")
          }
         } else {
          if i < 95 {
           Table::row(875221200, 7200, 0, "EET")
          } else {
           if i < 96 {
            Table::row(893368800, 7200, 3600, "EEST")
           } else {
            Table::row(906670800, 7200, 0, "EET")
           }
          }
         }
        }
       }
      } else {
       if i < 107 {
        if i < 102 {
         if i < 99 {
          if i < 98 {
           Table::row(925423200, 7200, 3600, "EEST")
          } else {
           Table::row(938725200, 7200, 0, "EET")
          }
         } else {
          if i < 100 {
           Table::row(956872800, 7200, 3600, "EEST")
          } else {
           if i < 101 {
            Table::row(970174800, 7200, 0, "EET")
           } else {
            Table::row(988322400, 7200, 3600, "EEST")
           }
          }
         }
        } else {
         if i < 104 {
          if i < 103 {
           Table::row(1001624400, 7200, 0, "EET")
          } else {
           Table::row(1019772000, 7200, 3600, "EEST")
          }
         } else {
          if i < 105 {
           Table::row(1033074000, 7200, 0, "EET")
          } else {
           if i < 106 {
            Table::row(1051221600, 7200, 3600, "EEST")
           } else {
            Table::row(1064523600, 7200, 0, "EET")
           }
          }
         }
        }
       } else {
        if i < 112 {
         if i < 109 {
          if i < 108 {
           Table::row(1083276000, 7200, 3600, "EEST")
          } else {
           Table::row(1096578000, 7200, 0, "EET")
          }
         } else {
          if i < 110 {
           Table::row(1114725600, 7200, 3600, "EEST")
          } else {
           if i < 111 {
            Table::row(1128027600, 7200, 0, "EET")
           } else {
            Table::row(1146175200, 7200, 3600, "EEST")
           }
          }
         }
        } else {
         if i < 114 {
          if i < 113 {
           Table::row(1158872400, 7200, 0, "EET")
          } else {
           Table::row(1177624800, 7200, 3600, "EEST")
          }
         } else {
          if i < 115 {
           Table::row(1189112400, 7200, 0, "EET")
          } else {
           if i < 116 {
            Table::row(1209074400, 7200, 3600, "EEST")
           } else {
            Table::row(1219957200, 7200, 0, "EET")
           }
          }
         }
        }
       }
      }
     } else {
      if i < 137 {
       if i < 127 {
        if i < 122 {
         if i < 119 {
          if i < 118 {
           Table::row(1240524000, 7200, 3600, "EEST")
          } else {
           Table::row(1250802000, 7200, 0, "EET")
          }
         } else {
          if i < 120 {
           Table::row(1272578400, 7200, 3600, "EEST")
          } else {
           if i < 121 {
            Table::row(1281474000, 7200, 0, "EET")
           } else {
            Table::row(1284069600, 7200, 3600, "EEST")
           }
          }
         }
        } else {
         if i < 124 {
          if i < 123 {
           Table::row(1285880400, 7200, 0, "EET")
          } else {
           Table::row(1400191200, 7200, 3600, "EEST")
          }
         } else {
          if i < 125 {
           Table::row(1403816400, 7200, 0, "EET")
          } else {
           if i < 126 {
            Table::row(1406844000, 7200, 3600, "EEST")
           } else {
            Table::row(1411678800, 7200, 0, "EET")
           }
          }
         }
        }
       } else {
        if i < 132 {
         if i < 129 {
          if i < 128 {
           Table::row(1682632800, 7200, 3600, "EEST")
          } else {
           Table::row(1698354000, 7200, 0, "EET")
          }
         } else {
          if i < 130 {
           Table::row(1714082400, 7200, 3600, "EEST")
          } else {
           if i < 131 {
            Table::row(1730408400, 7200, 0, "EET")
           } else {
            Table::row(1745532000, 7200, 3600, "EEST")
           }
          }
         }
        } else {
         if i < 134 {
          if i < 133 {
           Table::row(1761858000, 7200, 0, "EET")
          } else {
           Table::row(1776981600, 7200, 3600, "EEST")
          }
         } else {
          if i < 135 {
           Table::row(1793307600, 7200, 0, "EET")
          } else {
           if i < 136 {
            Table::row(1809036000, 7200, 3600, "EEST")
           } else {
            Table::row(1824757200, 7200, 0, "EET")
           }
          }
         }
        }
       }
      } else {
       if i < 147 {
        if i < 142 {
         if i < 139 {
          if i < 138 {
           Table::row(1840485600, 7200, 3600, "EEST")
          } else {
           Table::row(1856206800, 7200, 0, "EET")
          }
         } else {
          if i < 140 {
           Table::row(1871935200, 7200, 3600, "EEST")
          } else {
           if i < 141 {
            Table::row(1887656400, 7200, 0, "EET")
           } else {
            Table::row(1903384800, 7200, 3600, "EEST")
           }
          }
         }
        } else {
         if i < 144 {
          if i < 143 {
           Table::row(1919710800, 7200, 0, "EET")
          } else {
           Table::row(1934834400, 7200, 3600, "EEST")
          }
         } else {
          if i < 145 {
           Table::row(1951160400, 7200, 0, "EET")
          } else {
           if i < 146 {
            Table::row(1966888800, 7200, 3600, "EEST")
           } else {
            Table::row(1982610000, 7200, 0, "EET")
           }
          }
         }
        }
       } else {
        if i < 152 {
         if i < 149 {
          if i < 148 {
           Table::row(1998338400, 7200, 3600, "EEST")
          } else {
           Table::row(2014059600, 7200, 0, "EET")
          }
         } else {
          if i < 150 {
           Table::row(2029788000, 7200, 3600, "EEST")
          } else {
           if i < 151 {
            Table::row(2045509200, 7200, 0, "EET")
           } else {
            Table::row(2061237600, 7200, 3600, "EEST")
           }
          }
         }
        } else {
         if i < 154 {
          if i < 153 {
           Table::row(2076958800, 7200, 0, "EET")
          } else {
           Table::row(2092687200, 7200, 3600, "EEST")
          }
         } else {
          if i < 155 {
           Table::row(2109013200, 7200, 0, "EET")
          } else {
           if i < 156 {
            Table::row(2124136800, 7200, 3600, "EEST")
           } else {
            Table::row(2140462800, 7200, 0, "EET")
           }
          }
         }
        }
       }
      }
     }
    }
}

/// The rows of the table of the zone `Africa/Cairo`.
pub open spec fn cairo_rows() -> spec_fn(int) -> (i64, FixedTimespan) {
    |i: int| cairo_row(i)
}

/// The table of the zone `Africa/Cairo`.
pub open spec fn cairo() -> Table {
    Table::listed(Table::row(0, 7509, 0, "LMT").1, 157, cairo_rows())
}

/// Row `i` of the table of the zone `Africa/Casablanca`.
pub open spec fn casablanca_row(i: int) -> (i64, FixedTimespan) {
    if i < 98 {
     if i < 49 {
      if i < 24 {
       if i < 12 {
        if i < 6 {
         if i < 3 {
          if i < 1 {
           Table::row(-1773012580, 0, 0, "+00")
          } else {
           if i < 2 {
            Table::row(-956361600, 0, 3600, "+01")
           } else {
            Table::row(-950490000, 0, 0, "+00")
           }
          }
         } else {
          if i < 4 {
           Table::row(-942019200, 0, 3600, "+01")
          } else {
           if i < 5 {
            Table::row(-761187600, 0, 0, "+00")
           } else {
            Table::row(-617241600, 0, 3600, "+01")
           }
          }
         }
        } else {
         if i < 9 {
          if i < 7 {
           Table::row(-605149200, 0, 0, "+00")
          } else {
           if i < 8 {
            Table::row(-81432000, 0, 3600, "+01")
           } else {
            Table::row(-71110800, 0, 0, "+00")
           }
          }
         } else {
          if i < 10 {
           Table::row(141264000, 0, 3600, "+01")
          } else {
           if i < 11 {
            Table::row(147222000, 0, 0, "+00")
           } else {
            Table::row(199756800, 0, 3600, "+01")
           }
          }
         }
        }
       } else {
        if i < 18 {
         if i < 15 {
          if i < 13 {
           Table::row(207702000, 0, 0, "+00")
          } else {
           if i < 14 {
            Table::row(231292800, 0, 3600, "+01")
           } else {
            Table::row(244249200, 0, 0, "+00")
           }
          }
         } else {
          if i < 16 {
           Table::row(265507200, 0, 3600, "+01")
          } else {
           if i < 17 {
            Table::row(271033200, 0, 0, "+00")
           } else {
            Table::row(448243200, 3600, 0, "+01")
           }
          }
         }
        } else {
         if i < 21 {
          if i < 19 {
           Table::row(504918000, 0, 0, "+00")
          } else {
           if i < 20 {
            Table::row(1212278400, 0, 3600, "+01")
           } else {
            Table::row(1220223600, 0, 0, "+00")
           }
          }
         } else {
          if i < 22 {
           Table::row(1243814400, 0, 3600, "+01")
          } else {
           if i < 23 {
            Table::row(1250809200, 0, 0, "+00")
           } else {
            Table::row(1272758400, 0, 3600, "+01")
           }
          }
         }
        }
       }
      } else {
       if i < 36 {
        if i < 30 {
         if i < 27 {
          if i < 25 {
           Table::row(1281222000, 0, 0, "+00")
          } else {
           if i < 26 {
            Table::row(1301788800, 0, 3600, "+01")
           } else {
            Table::row(1312066800, 0, 0, "+00")
           }
          }
         } else {
          if i < 28 {
           Table::row(1335664800, 0, 3600, "+01")
          } else {
           if i < 29 {
            Table::row(1342749600, 0, 0, "+00")
           } else {
            Table::row(1345428000, 0, 3600, "+01")
           }
          }
         }
        } else {
         if i < 33 {
          if i < 31 {
           Table::row(1348970400, 0, 0, "+00")
          } else {
           if i < 32 {
            Table::row(1367114400, 0, 3600, "+01")
           } else {
            Table::row(1373162400, 0, 0, "+00")
           }
          }
         } else {
          if i < 34 {
           Table::row(1376100000, 0, 3600, "+01")
          } else {
           if i < 35 {
            Table::row(1382839200, 0, 0, "+00")
           } else {
            Table::row(1396144800, 0, 3600, "+01")
           }
          }
         }
        }
       } else {
        if i < 42 {
         if i < 39 {
          if i < 37 {
           Table::row(1403920800, 0, 0, "+00")
          } else {
           if i < 38 {
            Table::row(1406944800, 0, 3600, "+01")
           } else {
            Table::row(1414288800, 0, 0, "+00")
           }
          }
         } else {
          if i < 40 {
           Table::row(1427594400, 0, 3600, "+01")
          } else {
           if i < 41 {
            Table::row(1434247200, 0, 0, "+00")
           } else {
            Table::row(1437271200, 0, 3600, "+01")
           }
          }
         }
        } else {
         if i < 45 {
          if i < 43 {
           Table::row(1445738400, 0, 0, "+00")
          } else {
           if i < 44 {
            Table::row(1459044000, 0, 3600, "+01")
           } else {
            Table::row(1465092000, 0, 0, "+00")
           }
          }
         } else {
          if i < 47 {
           if i < 46 {
            Table::row(1468116000, 0, 3600, "+01")
           } else {
            Table::row(1477792800, 0, 0, "+00")
           }
          } else {
           if i < 48 {
            Table::row(1490493600, 0, 3600, "+01")
           } else {
            Table::row(1495332000, 0, 0, "+00")
           }
          }
         }
        }
       }
      }
     } else {
      if i < 73 {
       if i < 61 {
        if i < 55 {
         if i < 52 {
          if i < 50 {
           Table::row(1498960800, 0, 3600, "+01")
          } else {
           if i < 51 {
            Table::row(1509242400, 0, 0, "+00")
           } else {
            Table::row(1521943200, 0, 3600, "+01")
           }
          }
         } else {
          if i < 53 {
           Table::row(1526176800, 0, 0, "+00")
          } else {
           if i < 54 {
            Table::row(1529200800, 0, 3600, "+01")
           } else {
            Table::row(1540692000, 3600, 0, "+01")
           }
          }
         }
        } else {
         if i < 58 {
          if i < 56 {
           Table::row(1557021600, -3600, 3600, "+00")
          } else {
           if i < 57 {
            Table::row(1560045600, 3600, 0, "+01")
           } else {
            Table::row(1587261600, -3600, 3600, "+00")
           }
          }
         } else {
          if i < 59 {
           Table::row(1590890400, 3600, 0, "+01")
          } else {
           if i < 60 {
            Table::row(1618106400, -3600, 3600, "+00")
           } else {
            Table::row(1621130400, 3600, 0, "+01")
           }
          }
         }
        }
       } else {
        if i < 67 {
         if i < 64 {
          if i < 62 {
           Table::row(1648346400, -3600, 3600, "+00")
          } else {
           if i < 63 {
            Table::row(1651975200, 3600, 0, "+01")
           } else {
            Table::row(1679191200, -3600, 3600, "+00")
           }
          }
         } else {
          if i < 65 {
           Table::row(1682215200, 3600, 0, "+01")
          } else {
           if i < 66 {
            Table::row(1710036000, -3600, 3600, "+00")
           } else {
            Table::row(1713060000, 3600, 0, "+01")
           }
          }
         }
        } else {
         if i < 70 {
          if i < 68 {
           Table::row(1740276000, -3600, 3600, "+00")
          } else {
           if i < 69 {
            Table::row(1743904800, 3600, 0, "+01")
           } else {
            Table::row(1771120800, -3600, 3600, "+00")
           }
          }
         } else {
          if i < 71 {
           Table::row(1774144800, 3600, 0, "+01")
          } else {
           if i < 72 {
            Table::row(1801965600, -3600, 3600, "+00")
           } else {
            Table::row(1804989600, 3600, 0, "+01")
           }
          }
         }
        }
       }
      } else {
       if i < 85 {
        if i < 79 {
         if i < 76 {
          if i < 74 {
           Table::row(1832205600, -3600, 3600, "+00")
          } else {
           if i < 75 {
            Table::row(1835834400, 3600, 0, "+01")
           } else {
            Table::row(1863050400, -3600, 3600, "+00")
           }
          }
         } else {
          if i < 77 {
           Table::row(1866074400, 3600, 0, "+01")
          } else {
           if i < 78 {
            Table::row(1893290400, -3600, 3600, "+00")
           } else {
            Table::row(1896919200, 3600, 0, "+01")
           }
          }
         }
        } else {
         if i < 82 {
          if i < 80 {
           Table::row(1924135200, -3600, 3600, "+00")
          } else {
           if i < 81 {
            Table::row(1927159200, 3600, 0, "+01")
           } else {
            Table::row(1954980000, -3600, 3600, "+00")
           }
          }
         } else {
          if i < 83 {
           Table::row(1958004000, 3600, 0, "+01")
          } else {
           if i < 84 {
            Table::row(1985220000, -3600, 3600, "+00")
           } else {
            Table::row(1988848800, 3600, 0, "+01")
           }
          }
         }
        }
       } else {
        if i < 91 {
         if i < 88 {
          if i < 86 {
           Table::row(2016064800, -3600, 3600, "+00")
          } else {
           if i < 87 {
            Table::row(2019088800, 3600, 0, "+01")
           } else {
            Table::row(2046304800, -3600, 3600, "+00")
           }
          }
         } else {
          if i < 89 {
           Table::row(2049933600, 3600, 0, "+01")
          } else {
           if i < 90 {
            Table::row(2077149600, -3600, 3600, "+00")
           } else {
            Table::row(2080778400, 3600, 0, "+01")
           }
          }
         }
        } else {
         if i < 94 {
          if i < 92 {
           Table::row(2107994400, -3600, 3600, "+00")
          } else {
           if i < 93 {
            Table::row(2111018400, 3600, 0, "+01")
           } else {
            Table::row(2138234400, -3600, 3600, "+00")
           }
          }
         } else {
          if i < 96 {
           if i < 95 {
            Table::row(2141863200, 3600, 0, "+01")
           } else {
            Table::row(2169079200, -3600, 3600, "+00")
           }
          } else {
           if i < 97 {
            Table::row(2172103200, 3600, 0, "+01")
           } else {
            Table::row(2199924000, -3600, 3600, "+00")
           }
          }
         }
        }
       }
      }
     }
    } else {
     if i < 147 {
      if i < 122 {
       if i < 110 {
        if i < 104 {
         if i < 101 {
          if i < 99 {
           Table::row(2202948000, 3600, 0, "+01")
          } else {
           if i < 100 {
            Table::row(2230164000, -3600, 3600, "+00")
           } else {
            Table::row(2233792800, 3600, 0, "+01")
           }
          }
         } else {
          if i < 102 {
           Table::row(2261008800, -3600, 3600, "+00")
          } else {
           if i < 103 {
            Table::row(2264032800, 3600, 0, "+01")
           } else {
            Table::row(2291248800, -3600, 3600, "+00")
           }
          }
         }
        } else {
         if i < 107 {
          if i < 105 {
           Table::row(2294877600, 3600, 0, "+01")
          } else {
           if i < 106 {
            Table::row(2322093600, -3600, 3600, "+00")
           } else {
            Table::row(2325722400, 3600, 0, "+01")
           }
          }
         } else {
          if i < 108 {
           Table::row(2352938400, -3600, 3600, "+00")
          } else {
           if i < 109 {
            Table::row(2355962400, 3600, 0, "+01")
           } else {
            Table::row(2383178400, -3600, 3600, "+00")
           }
          }
         }
        }
       } else {
        if i < 116 {
         if i < 113 {
          if i < 111 {
           Table::row(2386807200, 3600, 0, "+01")
          } else {
           if i < 112 {
            Table::row(2414023200, -3600, 3600, "+00")
           } else {
            Table::row(2417047200, 3600, 0, "+01")
           }
          }
         } else {
          if i < 114 {
           Table::row(2444868000, -3600, 3600, "+00")
          } else {
           if i < 115 {
            Table::row(2447892000, 3600, 0, "+01")
           } else {
            Table::row(2475108000, -3600, 3600, "+00")
           }
          }
         }
        } else {
         if i < 119 {
          if i < 117 {
           Table::row(2478736800, 3600, 0, "+01")
          } else {
           if i < 118 {
            Table::row(2505952800, -3600, 3600, "+00")
           } else {
            Table::row(2508976800, 3600, 0, "+01")
           }
          }
         } else {
          if i < 120 {
           Table::row(2536192800, -3600, 3600, "+00")
          } else {
           if i < 121 {
            Table::row(2539821600, 3600, 0, "+01")
           } else {
            Table::row(2567037600, -3600, 3600, "+00")
           }
          }
         }
        }
       }
      } else {
       if i < 134 {
        if i < 128 {
         if i < 125 {
          if i < 123 {
           Table::row(2570666400, 3600, 0, "+01")
          } else {
           if i < 124 {
            Table::row(2597882400, -3600, 3600, "+00")
           } else {
            Table::row(2600906400, 3600, 0, "+01")
           }
          }
         } else {
          if i < 126 {
           Table::row(2628122400, -3600, 3600, "+00")
          } else {
           if i < 127 {
            Table::row(2631751200, 3600, 0, "+01")
           } else {
            Table::row(2658967200, -3600, 3600, "+00")
           }
          }
         }
        } else {
         if i < 131 {
          if i < 129 {
           Table::row(2661991200, 3600, 0, "+01")
          } else {
           if i < 130 {
            Table::row(2689812000, -3600, 3600, "+00")
           } else {
            Table::row(2692836000, 3600, 0, "+01")
           }
          }
         } else {
          if i < 132 {
           Table::row(2720052000, -3600, 3600, "+00")
          } else {
           if i < 133 {
            Table::row(2723680800, 3600, 0, "+01")
           } else {
            Table::row(2750896800, -3600, 3600, "+00")
           }
          }
         }
        }
       } else {
        if i < 140 {
         if i < 137 {
          if i < 135 {
           Table::row(2753920800, 3600, 0, "+01")
          } else {
           if i < 136 {
            Table::row(2781136800, -3600, 3600, "+00")
           } else {
            Table::row(2784765600, 3600, 0, "+01")
           }
          }
         } else {
          if i < 138 {
           Table::row(2811981600, -3600, 3600, "+00")
          } else {
           if i < 139 {
            Table::row(2815610400, 3600, 0, "+01")
           } else {
            Table::row(2842826400, -3600, 3600, "+00")
           }
          }
         }
        } else {
         if i < 143 {
          if i < 141 {
           Table::row(2845850400, 3600, 0, "+01")
          } else {
           if i < 142 {
            Table::row(2873066400, -3600, 3600, "+00")
           } else {
            Table::row(2876695200, 3600, 0, "+01")
           }
          }
         } else {
          if i < 145 {
           if i < 144 {
            Table::row(2903911200, -3600, 3600, "+00")
           } else {
            Table::row(2906935200, 3600, 0, "+01")
           }
          } else {
           if i < 146 {
            Table::row(2934756000, -3600, 3600, "+00")
           } else {
            Table::row(2937780000, 3600, 0, "+01")
           }
          }
         }
        }
       }
      }
     } else {
      if i < 172 {
       if i < 159 {
        if i < 153 {
         if i < 150 {
          if i < 148 {
           Table::row(2964996000, -3600, 3600, "+00")
          } else {
           if i < 149 {
            Table::row(2968624800, 3600, 0, "+01")
           } else {
            Table::row(2995840800, -3600, 3600, "+00")
           }
          }
         } else {
          if i < 151 {
           Table::row(2998864800, 3600, 0, "+01")
          } else {
           if i < 152 {
            Table::row(3026080800, -3600, 3600, "+00")
           } else {
            Table::row(3029709600, 3600, 0, "+01")
           }
          }
         }
        } else {
         if i < 156 {
          if i < 154 {
           Table::row(3056925600, -3600, 3600, "+00")
          } else {
           if i < 155 {
            Table::row(3060554400, 3600, 0, "+01")
           } else {
            Table::row(3087770400, -3600, 3600, "+00")
           }
          }
         } else {
          if i < 157 {
           Table::row(3090794400, 3600, 0, "+01")
          } else {
           if i < 158 {
            Table::row(3118010400, -3600, 3600, "+00")
           } else {
            Table::row(3121639200, 3600, 0, "+01")
           }
          }
         }
        }
       } else {
        if i < 165 {
         if i < 162 {
          if i < 160 {
           Table::row(3148855200, -3600, 3600, "+00")
          } else {
           if i < 161 {
            Table::row(3151879200, 3600, 0, "+01")
           } else {
            Table::row(3179700000, -3600, 3600, "+00")
           }
          }
         } else {
          if i < 163 {
           Table::row(3182724000, 3600, 0, "+01")
          } else {
           if i < 164 {
            Table::row(3209940000, -3600, 3600, "+00")
           } else {
            Table::row(3213568800, 3600, 0, "+01")
           }
          }
         }
        } else {
         if i < 168 {
          if i < 166 {
           Table::row(3240784800, -3600, 3600, "+00")
          } else {
           if i < 167 {
            Table::row(3243808800, 3600, 0, "+01")
           } else {
            Table::row(3271024800, -3600, 3600, "+00")
           }
          }
         } else {
          if i < 170 {
           if i < 169 {
            Table::row(3274653600, 3600, 0, "+01")
           } else {
            Table::row(3301869600, -3600, 3600, "+00")
           }
          } else {
           if i < 171 {
            Table::row(3305498400, 3600, 0, "+01")
           } else {
            Table::row(3332714400, -3600, 3600, "+00")
           }
          }
         }
        }
       }
      } else {
       if i < 184 {
        if i < 178 {
         if i < 175 {
          if i < 173 {
           Table::row(3335738400, 3600, 0, "+01")
          } else {
           if i < 174 {
            Table::row(3362954400, -3600, 3600, "+00")
           } else {
            Table::row(3366583200, 3600, 0, "+01")
           }
          }
         } else {
          if i < 176 {
           Table::row(3393799200, -3600, 3600, "+00")
          } else {
           if i < 177 {
            Table::row(3396823200, 3600, 0, "+01")
           } else {
            Table::row(3424644000, -3600, 3600, "+00")
           }
          }
         }
        } else {
         if i < 181 {
          if i < 179 {
           Table::row(3427668000, 3600, 0, "+01")
          } else {
           if i < 180 {
            Table::row(3454884000, -3600, 3600, "+00")
           } else {
            Table::row(3458512800, 3600, 0, "+01")
           }
          }
         } else {
          if i < 182 {
           Table::row(3485728800, -3600, 3600, "+00")
          } else {
           if i < 183 {
            Table::row(3488752800, 3600, 0, "+01")
           } else {
            Table::row(3515968800, -3600, 3600, "+00")
           }
          }
         }
        }
       } else {
        if i < 190 {
         if i < 187 {
          if i < 185 {
           Table::row(3519597600, 3600, 0, "+01")
          } else {
           if i < 186 {
            Table::row(3546813600, -3600, 3600, "+00")
           } else {
            Table::row(3549837600, 3600, 0, "+01")
           }
          }
         } else {
          if i < 188 {
           Table::row(3577658400, -3600, 3600, "+00")
          } else {
           if i < 189 {
            Table::row(3580682400, 3600, 0, "+01")
           } else {
            Table::row(3607898400, -3600, 3600, "+00")
           }
          }
         }
        } else {
         if i < 193 {
          if i < 191 {
           Table::row(3611527200, 3600, 0, "+01")
          } else {
           if i < 192 {
            Table::row(3638743200, -3600, 3600, "+00")
           } else {
            Table::row(3641767200, 3600, 0, "+01")
           }
          }
         } else {
          if i < 195 {
           if i < 194 {
            Table::row(3669588000, -3600, 3600, "+00")
           } else {
            Table::row(3672612000, 3600, 0, "+01")
           }
          } else {
           if i < 196 {
            Table::row(3699828000, -3600, 3600, "+00")
           } else {
            Table::row(3703456800, 3600, 0, "+01")
           }
          }
         }
        }
       }
      }
     }
    }
}

/// The rows of the table of the zone `Africa/Casablanca`.
pub open spec fn casablanca_rows() -> spec_fn(int) -> (i64, FixedTimespan) {
    |i: int| casablanca_row(i)
}

/// The table of the zone `Africa/Casablanca`.
pub open spec fn casablanca() -> Table {
    Table::listed(Table::row(0, -1820, 0, "LMT").1, 197, casablanca_rows())
}

/// Row `i` of the table of the zone `Africa/Ceuta`.
pub open spec fn ceuta_row(i: int) -> (i64, FixedTimespan) {
    if i < 63 {
     if i < 31 {
      if i < 15 {
       if i < 7 {
        if i < 3 {
         if i < 1 {
          Table::row(-2177452800, 0, 0, "WET")
         } else {
          if i < 2 {
           Table::row(-1630112400, 0, 3600, "WEST")
          } else {
           Table::row(-1616810400, 0, 0, "WET")
          }
         }
        } else {
         if i < 5 {
          if i < 4 {
           Table::row(-1442451600, 0, 3600, "WEST")
          } else {
           Table::row(-1427673600, 0, 0, "WET")
          }
         } else {
          if i < 6 {
           Table::row(-1379293200, 0, 3600, "WEST")
          } else {
           Table::row(-1364774400, 0, 0, "WET")
          }
         }
        }
       } else {
        if i < 11 {
         if i < 9 {
          if i < 8 {
           Table::row(-1348448400, 0, 3600, "WEST")
          } else {
           Table::row(-1333324800, 0, 0, "WET")
          }
         } else {
          if i < 10 {
           Table::row(-1316390400, 0, 3600, "WEST")
          } else {
           Table::row(-1301270400, 0, 0, "WET")
          }
         }
        } else {
         if i < 13 {
          if i < 12 {
           Table::row(-81432000, 0, 3600, "WEST")
          } else {
           Table::row(-71110800, 0, 0, "WET")
          }
         } else {
          if i < 14 {
           Table::row(141264000, 0, 3600, "WEST")
          } else {
           Table::row(147222000, 0, 0, "WET")
          }
         }
        }
       }
      } else {
       if i < 23 {
        if i < 19 {
         if i < 17 {
          if i < 16 {
           Table::row(199756800, 0, 3600, "WEST")
          } else {
           Table::row(207702000, 0, 0, "WET")
          }
         } else {
          if i < 18 {
           Table::row(231292800, 0, 3600, "WEST")
          } else {
           Table::row(244249200, 0, 0, "WET")
          }
         }
        } else {
         if i < 21 {
          if i < 20 {
           Table::row(265507200, 0, 3600, "WEST")
          } else {
           Table::row(271033200, 0, 0, "WET")
          }
         } else {
          if i < 22 {
           Table::row(448243200, 3600, 0, "CET")
          } else {
           Table::row(512528400, 3600, 3600, "CEST")
          }
         }
        }
       } else {
        if i < 27 {
         if i < 25 {
          if i < 24 {
           Table::row(528253200, 3600, 0, "CET")
          } else {
           Table::row(543978000, 3600, 3600, "CEST")
          }
         } else {
          if i < 26 {
           Table::row(559702800, 3600, 0, "CET")
          } else {
           Table::row(575427600, 3600, 3600, "CEST")
          }
         }
        } else {
         if i < 29 {
          if i < 28 {
           Table::row(591152400, 3600, 0, "CET")
          } else {
           Table::row(606877200, 3600, 3600, "CEST")
          }
         } else {
          if i < 30 {
           Table::row(622602000, 3600, 0, "CET")
          } else {
           Table::row(638326800, 3600, 3600, "CEST")
          }
         }
        }
       }
      }
     } else {
      if i < 47 {
       if i < 39 {
        if i < 35 {
         if i < 33 {
          if i < 32 {
           Table::row(654656400, 3600, 0, "CET")
          } else {
           Table::row(670381200, 3600, 3600, "CEST")
          }
         } else {
          if i < 34 {
           Table::row(686106000, 3600, 0, "CET")
          } else {
           Table::row(701830800, 3600, 3600, "CEST")
          }
         }
        } else {
         if i < 37 {
          if i < 36 {
           Table::row(717555600, 3600, 0, "CET")
          } else {
           Table::row(733280400, 3600, 3600, "CEST")
          }
         } else {
          if i < 38 {
           Table::row(749005200, 3600, 0, "CET")
          } else {
           Table::row(764730000, 3600, 3600, "CEST")
          }
         }
        }
       } else {
        if i < 43 {
         if i < 41 {
          if i < 40 {
           Table::row(780454800, 3600, 0, "CET")
          } else {
           Table::row(796179600, 3600, 3600, "CEST")
          }
         } else {
          if i < 42 {
           Table::row(811904400, 3600, 0, "CET")
          } else {
           Table::row(828234000, 3600, 3600, "CEST")
          }
         }
        } else {
         if i < 45 {
          if i < 44 {
           Table::row(846378000, 3600, 0, "CET")
          } else {
           Table::row(859683600, 3600, 3600, "CEST")
          }
         } else {
          if i < 46 {
           Table::row(877827600, 3600, 0, "CET")
          } else {
           Table::row(891133200, 3600, 3600, "CEST")
          }
         }
        }
       }
      } else {
       if i < 55 {
        if i < 51 {
         if i < 49 {
          if i < 48 {
           Table::row(909277200, 3600, 0, "CET")
          } else {
           Table::row(922582800, 3600, 3600, "CEST")
          }
         } else {
          if i < 50 {
           Table::row(941331600, 3600, 0, "CET")
          } else {
           Table::row(954032400, 3600, 3600, "CEST")
          }
         }
        } else {
         if i < 53 {
          if i < 52 {
           Table::row(972781200, 3600, 0, "CET")
          } else {
           Table::row(985482000, 3600, 3600, "CEST")
          }
         } else {
          if i < 54 {
           Table::row(1004230800, 3600, 0, "CET")
          } else {
           Table::row(1017536400, 3600, 3600, "CEST")
          }
         }
        }
       } else {
        if i < 59 {
         if i < 57 {
          if i < 56 {
           Table::row(1035680400, 3600, 0, "CET")
          } else {
           Table::row(1048986000, 3600, 3600, "CEST")
          }
         } else {
          if i < 58 {
           Table::row(1067130000, 3600, 0, "CET")
          } else {
           Table::row(1080435600, 3600, 3600, "CEST")
          }
         }
        } else {
         if i < 61 {
          if i < 60 {
           Table::row(1099184400, 3600, 0, "CET")
          } else {
           Table::row(1111885200, 3600, 3600, "CEST")
          }
         } else {
          if i < 62 {
           Table::row(1130634000, 3600, 0, "CET")
          } else {
           Table::row(1143334800, 3600, 3600, "CEST")
          }
         }
        }
       }
      }
     }
    } else {
     if i < 94 {
      if i < 78 {
       if i < 70 {
        if i < 66 {
         if i < 64 {
          Table::row(1162083600, 3600, 0, "CET")
         } else {
          if i < 65 {
           Table::row(1174784400, 3600, 3600, "CEST")
          } else {
           Table::row(1193533200, 3600, 0, "CET")
          }
         }
        } else {
         if i < 68 {
          if i < 67 {
           Table::row(1206838800, 3600, 3600, "CEST")
          } else {
           Table::row(1224982800, 3600, 0, "CET")
          }
         } else {
          if i < 69 {
           Table::row(1238288400, 3600, 3600, "CEST")
          } else {
           Table::row(1256432400, 3600, 0, "CET")
          }
         }
        }
       } else {
        if i < 74 {
         if i < 72 {
          if i < 71 {
           Table::row(1269738000, 3600, 3600, "CEST")
          } else {
           Table::row(1288486800, 3600, 0, "CET")
          }
         } else {
          if i < 73 {
           Table::row(1301187600, 3600, 3600, "CEST")
          } else {
           Table::row(1319936400, 3600, 0, "CET")
          }
         }
        } else {
         if i < 76 {
          if i < 75 {
           Table::row(1332637200, 3600, 3600, "CEST")
          } else {
           Table::row(1351386000, 3600, 0, "CET")
          }
         } else {
          if i < 77 {
           Table::row(1364691600, 3600, 3600, "CEST")
          } else {
           Table::row(1382835600, 3600, 0, "CET")
          }
         }
        }
       }
      } else {
       if i < 86 {
        if i < 82 {
         if i < 80 {
          if i < 79 {
           Table::row(1396141200, 3600, 3600, "CEST")
          } else {
           Table::row(1414285200, 3600, 0, "CET")
          }
         } else {
          if i < 81 {
           Table::row(1427590800, 3600, 3600, "CEST")
          } else {
           Table::row(1445734800, 3600, 0, "CET")
          }
         }
        } else {
         if i < 84 {
          if i < 83 {
           Table::row(1459040400, 3600, 3600, "CEST")
          } else {
           Table::row(1477789200, 3600, 0, "CET")
          }
         } else {
          if i < 85 {
           Table::row(1490490000, 3600, 3600, "CEST")
          } else {
           Table::row(1509238800, 3600, 0, "CET")
          }
         }
        }
       } else {
        if i < 90 {
         if i < 88 {
          if i < 87 {
           Table::row(1521939600, 3600, 3600, "CEST")
          } else {
           Table::row(1540688400, 3600, 0, "CET")
          }
         } else {
          if i < 89 {
           Table::row(1553994000, 3600, 3600, "CEST")
          } else {
           Table::row(1572138000, 3600, 0, "CET")
          }
         }
        } else {
         if i < 92 {
          if i < 91 {
           Table::row(1585443600, 3600, 3600, "CEST")
          } else {
           Table::row(1603587600, 3600, 0, "CET")
          }
         } else {
          if i < 93 {
           Table::row(1616893200, 3600, 3600, "CEST")
          } else {
           Table::row(1635642000, 3600, 0, "CET")
          }
         }
        }
       }
      }
     } else {
      if i < 110 {
       if i < 102 {
        if i < 98 {
         if i < 96 {
          if i < 95 {
           Table::row(1648342800, 3600, 3600, "CEST")
          } else {
           Table::row(1667091600, 3600, 0, "CET")
          }
         } else {
          if i < 97 {
           Table::row(1679792400, 3600, 3600, "CEST")
          } else {
           Table::row(1698541200, 3600, 0, "CET")
          }
         }
        } else {
         if i < 100 {
          if i < 99 {
           Table::row(1711846800, 3600, 3600, "CEST")
          } else {
           Table::row(1729990800, 3600, 0, "CET")
          }
         } else {
          if i < 101 {
           Table::row(1743296400, 3600, 3600, "CEST")
          } else {
           Table::row(1761440400, 3600, 0, "CET")
          }
         }
        }
       } else {
        if i < 106 {
         if i < 104 {
          if i < 103 {
           Table::row(1774746000, 3600, 3600, "CEST")
          } else {
           Table::row(1792890000, 3600, 0, "CET")
          }
         } else {
          if i < 105 {
           Table::row(1806195600, 3600, 3600, "CEST")
          } else {
           Table::row(1824944400, 3600, 0, "CET")
          }
         }
        } else {
         if i < 108 {
          if i < 107 {
           Table::row(1837645200, 3600, 3600, "CEST")
          } else {
           Table::row(1856394000, 3600, 0, "CET")
          }
         } else {
          if i < 109 {
           Table::row(1869094800, 3600, 3600, "CEST")
          } else {
           Table::row(1887843600, 3600, 0, "CET")
          }
         }
        }
       }
      } else {
       if i < 118 {
        if i < 114 {
         if i < 112 {
          if i < 111 {
           Table::row(1901149200, 3600, 3600, "CEST")
          } else {
           Table::row(1919293200, 3600, 0, "CET")
          }
         } else {
          if i < 113 {
           Table::row(1932598800, 3600, 3600, "CEST")
          } else {
           Table::row(1950742800, 3600, 0, "CET")
          }
         }
        } else {
         if i < 116 {
          if i < 115 {
           Table::row(1964048400, 3600, 3600, "CEST")
          } else {
           Table::row(1982797200, 3600, 0, "CET")
          }
         } else {
          if i < 117 {
           Table::row(1995498000, 3600, 3600, "CEST")
          } else {
           Table::row(2014246800, 3600, 0, "CET")
          }
         }
        }
       } else {
        if i < 122 {
         if i < 120 {
          if i < 119 {
           Table::row(2026947600, 3600, 3600, "CEST")
          } else {
           Table::row(2045696400, 3600, 0, "CET")
          }
         } else {
          if i < 121 {
           Table::row(2058397200, 3600, 3600, "CEST")
          } else {
           Table::row(2077146000, 3600, 0, "CET")
          }
         }
        } else {
         if i < 124 {
          if i < 123 {
           Table::row(2090451600, 3600, 3600, "CEST")
          } else {
           Table::row(2108595600, 3600, 0, "CET")
          }
         } else {
          if i < 125 {
           Table::row(2121901200, 3600, 3600, "CEST")
          } else {
           Table::row(2140045200, 3600, 0, "CET")
          }
         }
        }
       }
      }
     }
    }
}

/// The rows of the table of the zone `Africa/Ceuta`.
pub open spec fn ceuta_rows() -> spec_fn(int) -> (i64, FixedTimespan) {
    |i: int| ceuta_row(i)
}

/// The table of the zone `Africa/Ceuta`.
pub open spec fn ceuta() -> Table {
    Table::listed(Table::row(0, -1276, 0, "LMT").1, 126, ceuta_rows())
}

/// Row `i` of the table of the zone `Africa/Conakry`.
pub open spec fn conakry_row(i: int) -> (i64, FixedTimespan) {
    if i < 1 {
     Table::row(-1830380708, 0, 0, "GMT")
    } else {
     if i < 2 {
      Table::row(-1131235200, -3600, 0, "-01")
     } else {
      Table::row(-315615600, 0, 0, "GMT")
     }
    }
}

/// The rows of the table of the zone `Africa/Conakry`.
pub open spec fn conakry_rows() -> spec_fn(int) -> (i64, FixedTimespan) {
    |i: int| conakry_row(i)
}

/// The table of the zone `Africa/Conakry`.
pub open spec fn conakry() -> Table {
    Table::listed(Table::row(0, -3292, 0, "LMT").1, 3, conakry_rows())
}

/// Row `i` of the table of the zone `Africa/Dakar`.
pub open spec fn dakar_row(i: int) -> (i64, FixedTimespan) {
    if i < 1 {
     Table::row(-1830379816, -3600, 0, "-01")
    } else {
     Table::row(-902098800, 0, 0, "GMT")
    }
}

/// The rows of the table of the zone `Africa/Dakar`.
pub open spec fn dakar_rows() -> spec_fn(int) -> (i64, FixedTimespan) {
    |i: int| dakar_row(i)
}

/// The table of the zone `Africa/Dakar`.
pub open spec fn dakar() -> Table {
    Table::listed(Table::row(0, -4184, 0, "LMT").1, 2, dakar_rows())
}

/// Row `i` of the table of the zone `Africa/Dar_es_Salaam`.
pub open spec fn dar_es_salaam_row(i: int) -> (i64, FixedTimespan) {
    if i < 1 {
     Table::row(-1230777428, 10800, 0, "EAT")
    } else {
     if i < 2 {
      Table::row(-694321200, 9900, 0, "+0245")
     } else {
      Table::row(-284006700, 10800, 0, "EAT")
     }
    }
}

/// The rows of the table of the zone `Africa/Dar_es_Salaam`.
pub open spec fn dar_es_salaam_rows() -> spec_fn(int) -> (i64, FixedTimespan) {
    |i: int| dar_es_salaam_row(i)
}

/// The table of the zone `Africa/Dar_es_Salaam`.
pub open spec fn dar_es_salaam() -> Table {
    Table::listed(Table::row(0, 9428, 0, "LMT").1, 3, dar_es_salaam_rows())
}

/// Row `i` of the table of the zone `Africa/Djibouti`.
pub open spec fn djibouti_row(i: int) -> (i64, FixedTimespan) {
    Table::row(-1846291956, 10800, 0, "EAT")
}

/// The rows of the table of the zone `Africa/Djibouti`.
pub open spec fn djibouti_rows() -> spec_fn(int) -> (i64, FixedTimespan) {
    |i: int| djibouti_row(i)
}

/// The table of the zone `Africa/Djibouti`.
pub open spec fn djibouti() -> Table {
    Table::listed(Table::row(0, 10356, 0, "LMT").1, 1, djibouti_rows())
}

/// Row `i` of the table of the zone `Africa/Douala`.
pub open spec fn douala_row(i: int) -> (i64, FixedTimespan) {
    Table::row(-1830386328, 3600, 0, "WAT")
}

/// The rows of the table of the zone `Africa/Douala`.
pub open spec fn douala_rows() -> spec_fn(int) -> (i64, FixedTimespan) {
    |i: int| douala_row(i)
}

/// The table of the zone `Africa/Douala`.
pub open spec fn douala() -> Table {
    Table::listed(Table::row(0, 2328, 0, "LMT").1, 1, douala_rows())
}

/// Row `i` of the table of the zone `Africa/El_Aaiun`.
pub open spec fn el_aaiun_row(i: int) -> (i64, FixedTimespan) {
    if i < 93 {
     if i < 46 {
      if i < 23 {
       if i < 11 {
        if i < 5 {
         if i < 2 {
          if i < 1 {
           Table::row(-1136070432, -3600, 0, "-01")
          } else {
           Table::row(198291600, 0, 0, "+00")
          }
         } else {
          if i < 3 {
           Table::row(199756800, 0, 3600, "+01")
          } else {
           if i < 4 {
            Table::row(207702000, 0, 0, "+00")
           } else {
            Table::row(231292800, 0, 3600, "+01")
           }
          }
         }
        } else {
         if i < 8 {
          if i < 6 {
           Table::row(244249200, 0, 0, "+00")
          } else {
           if i < 7 {
            Table::row(265507200, 0, 3600, "+01")
           } else {
            Table::row(271033200, 0, 0, "+00")
           }
          }
         } else {
          if i < 9 {
           Table::row(1212278400, 0, 3600, "+01")
          } else {
           if i < 10 {
            Table::row(1220223600, 0, 0, "+00")
           } else {
            Table::row(1243814400, 0, 3600, "+01")
           }
          }
         }
        }
       } else {
        if i < 17 {
         if i < 14 {
          if i < 12 {
           Table::row(1250809200, 0, 0, "+00")
          } else {
           if i < 13 {
            Table::row(1272758400, 0, 3600, "+01")
           } else {
            Table::row(1281222000, 0, 0, "+00")
           }
          }
         } else {
          if i < 15 {
           Table::row(1301788800, 0, 3600, "+01")
          } else {
           if i < 16 {
            Table::row(1312066800, 0, 0, "+00")
           } else {
            Table::row(1335664800, 0, 3600, "+01")
           }
          }
         }
        } else {
         if i < 20 {
          if i < 18 {
           Table::row(1342749600, 0, 0, "+00")
          } else {
           if i < 19 {
            Table::row(1345428000, 0, 3600, "+01")
           } else {
            Table::row(1348970400, 0, 0, "+00")
           }
          }
         } else {
          if i < 21 {
           Table::row(1367114400, 0, 3600, "+01")
          } else {
           if i < 22 {
            Table::row(1373162400, 0, 0, "+00")
           } else {
            Table::row(1376100000, 0, 3600, "+01")
           }
          }
         }
        }
       }
      } else {
       if i < 34 {
        if i < 28 {
         if i < 25 {
          if i < 24 {
           Table::row(1382839200, 0, 0, "+00")
          } else {
           Table::row(1396144800, 0, 3600, "+01")
          }
         } else {
          if i < 26 {
           Table::row(1403920800, 0, 0, "+00")
          } else {
           if i < 27 {
            Table::row(1406944800, 0, 3600, "+01")
           } else {
            Table::row(1414288800, 0, 0, "+00")
           }
          }
         }
        } else {
         if i < 31 {
          if i < 29 {
           Table::row(1427594400, 0, 3600, "+01")
          } else {
           if i < 30 {
            Table::row(1434247200, 0, 0, "+00")
           } else {
            Table::row(1437271200, 0, 3600, "+01")
           }
          }
         } else {
          if i < 32 {
           Table::row(1445738400, 0, 0, "+00")
          } else {
           if i < 33 {
            Table::row(1459044000, 0, 3600, "+01")
           } else {
            Table::row(1465092000, 0, 0, "+00")
           }
          }
         }
        }
       } else {
        if i < 40 {
         if i < 37 {
          if i < 35 {
           Table::row(1468116000, 0, 3600, "+01")
          } else {
           if i < 36 {
            Table::row(1477792800, 0, 0, "+00")
           } else {
            Table::row(1490493600, 0, 3600, "+01")
           }
          }
         } else {
          if i < 38 {
           Table::row(1495332000, 0, 0, "+00")
          } else {
           if i < 39 {
            Table::row(1498960800, 0, 3600, "+01")
           } else {
            Table::row(1509242400, 0, 0, "+00")
           }
          }
         }
        } else {
         if i < 43 {
          if i < 41 {
           Table::row(1521943200, 0, 3600, "+01")
          } else {
           if i < 42 {
            Table::row(1526176800, 0, 0, "+00")
           } else {
            Table::row(1529200800, 0, 3600, "+01")
           }
          }
         } else {
          if i < 44 {
           Table::row(1540692000, 3600, 0, "+01")
          } else {
           if i < 45 {
            Table::row(1557021600, -3600, 3600, "+00")
           } else {
            Table::row(1560045600, 3600, 0, "+01")
           }
          }
         }
        }
       }
      }
     } else {
      if i < 69 {
       if i < 57 {
        if i < 51 {
         if i < 48 {
          if i < 47 {
           Table::row(1587261600, -3600, 3600, "+00")
          } else {
           Table::row(1590890400, 3600, 0, "+01")
          }
         } else {
          if i < 49 {
           Table::row(1618106400, -3600, 3600, "+00")
          } else {
           if i < 50 {
            Table::row(1621130400, 3600, 0, "+01")
           } else {
            Table::row(1648346400, -3600, 3600, "+00")
           }
          }
         }
        } else {
         if i < 54 {
          if i < 52 {
           Table::row(1651975200, 3600, 0, "+01")
          } else {
           if i < 53 {
            Table::row(1679191200, -3600, 3600, "+00")
           } else {
            Table::row(1682215200, 3600, 0, "+01")
           }
          }
         } else {
          if i < 55 {
           Table::row(1710036000, -3600, 3600, "+00")
          } else {
           if i < 56 {
            Table::row(1713060000, 3600, 0, "+01")
           } else {
            Table::row(1740276000, -3600, 3600, "+00")
           }
          }
         }
        }
       } else {
        if i < 63 {
         if i < 60 {
          if i < 58 {
           Table::row(1743904800, 3600, 0, "+01")
          } else {
           if i < 59 {
            Table::row(1771120800, -3600, 3600, "+00")
           } else {
            Table::row(1774144800, 3600, 0, "+01")
           }
          }
         } else {
          if i < 61 {
           Table::row(1801965600, -3600, 3600, "+00")
          } else {
           if i < 62 {
            Table::row(1804989600, 3600, 0, "+01")
           } else {
            Table::row(1832205600, -3600, 3600, "+00")
           }
          }
         }
        } else {
         if i < 66 {
          if i < 64 {
           Table::row(1835834400, 3600, 0, "+01")
          } else {
           if i < 65 {
            Table::row(1863050400, -3600, 3600, "+00")
           } else {
            Table::row(1866074400, 3600, 0, "+01")
           }
          }
         } else {
          if i < 67 {
           Table::row(1893290400, -3600, 3600, "+00")
          } else {
           if i < 68 {
            Table::row(1896919200, 3600, 0, "+01")
           } else {
            Table::row(1924135200, -3600, 3600, "+00")
           }
          }
         }
        }
       }
      } else {
       if i < 81 {
        if i < 75 {
         if i < 72 {
          if i < 70 {
           Table::row(1927159200, 3600, 0, "+01")
          } else {
           if i < 71 {
            Table::row(1954980000, -3600, 3600, "+00")
           } else {
            Table::row(1958004000, 3600, 0, "+01")
           }
          }
         } else {
          if i < 73 {
           Table::row(1985220000, -3600, 3600, "+00")
          } else {
           if i < 74 {
            Table::row(1988848800, 3600, 0, "+01")
           } else {
            Table::row(2016064800, -3600, 3600, "+00")
           }
          }
         }
        } else {
         if i < 78 {
          if i < 76 {
           Table::row(2019088800, 3600, 0, "+01")
          } else {
           if i < 77 {
            Table::row(2046304800, -3600, 3600, "+00")
           } else {
            Table::row(2049933600, 3600, 0, "+01")
           }
          }
         } else {
          if i < 79 {
           Table::row(2077149600, -3600, 3600, "+00")
          } else {
           if i < 80 {
            Table::row(2080778400, 3600, 0, "+01")
           } else {
            Table::row(2107994400, -3600, 3600, "+00")
           }
          }
         }
        }
       } else {
        if i < 87 {
         if i < 84 {
          if i < 82 {
           Table::row(2111018400, 3600, 0, "+01")
          } else {
           if i < 83 {
            Table::row(2138234400, -3600, 3600, "+00")
           } else {
            Table::row(2141863200, 3600, 0, "+01")
           }
          }
         } else {
          if i < 85 {
           Table::row(2169079200, -3600, 3600, "+00")
          } else {
           if i < 86 {
            Table::row(2172103200, 3600, 0, "+01")
           } else {
            Table::row(2199924000, -3600, 3600, "+00")
           }
          }
         }
        } else {
         if i < 90 {
          if i < 88 {
           Table::row(2202948000, 3600, 0, "+01")
          } else {
           if i < 89 {
            Table::row(2230164000, -3600, 3600, "+00")
           } else {
            Table::row(2233792800, 3600, 0, "+01")
           }
          }
         } else {
          if i < 91 {
           Table::row(2261008800, -3600, 3600, "+00")
          } else {
           if i < 92 {
            Table::row(2264032800, 3600, 0, "+01")
           } else {
            Table::row(2291248800, -3600, 3600, "+00")
           }
          }
         }
        }
       }
      }
     }
    } else {
     if i < 139 {
      if i < 116 {
       if i < 104 {
        if i < 98 {
         if i < 95 {
          if i < 94 {
           Table::row(2294877600, 3600, 0, "+01")
          } else {
           Table::row(2322093600, -3600, 3600, "+00")
          }
         } else {
          if i < 96 {
           Table::row(2325722400, 3600, 0, "+01")
          } else {
           if i < 97 {
            Table::row(2352938400, -3600, 3600, "+00")
           } else {
            Table::row(2355962400, 3600, 0, "+01")
           }
          }
         }
        } else {
         if i < 101 {
          if i < 99 {
           Table::row(2383178400, -3600, 3600, "+00")
          } else {
           if i < 100 {
            Table::row(2386807200, 3600, 0, "+01")
           } else {
            Table::row(2414023200, -3600, 3600, "+00")
           }
          }
         } else {
          if i < 102 {
           Table::row(2417047200, 3600, 0, "+01")
          } else {
           if i < 103 {
            Table::row(2444868000, -3600, 3600, "+00")
           } else {
            Table::row(2447892000, 3600, 0, "+01")
           }
          }
         }
        }
       } else {
        if i < 110 {
         if i < 107 {
          if i < 105 {
           Table::row(2475108000, -3600, 3600, "+00")
          } else {
           if i < 106 {
            Table::row(2478736800, 3600, 0, "+01")
           } else {
            Table::row(2505952800, -3600, 3600, "+00")
           }
          }
         } else {
          if i < 108 {
           Table::row(2508976800, 3600, 0, "+01")
          } else {
           if i < 109 {
            Table::row(2536192800, -3600, 3600, "+00")
           } else {
            Table::row(2539821600, 3600, 0, "+01")
           }
          }
         }
        } else {
         if i < 113 {
          if i < 111 {
           Table::row(2567037600, -3600, 3600, "+00")
          } else {
           if i < 112 {
            Table::row(2570666400, 3600, 0, "+01")
           } else {
            Table::row(2597882400, -3600, 3600, "+00")
           }
          }
         } else {
          if i < 114 {
           Table::row(2600906400, 3600, 0, "+01")
          } else {
           if i < 115 {
            Table::row(2628122400, -3600, 3600, "+00")
           } else {
            Table::row(2631751200, 3600, 0, "+01")
           }
          }
         }
        }
       }
      } else {
       if i < 127 {
        if i < 121 {
         if i < 118 {
          if i < 117 {
           Table::row(2658967200, -3600, 3600, "+00")
          } else {
           Table::row(2661991200, 3600, 0, "+01")
          }
         } else {
          if i < 119 {
           Table::row(2689812000, -3600, 3600, "+00")
          } else {
           if i < 120 {
            Table::row(2692836000, 3600, 0, "+01")
           } else {
            Table::row(2720052000, -3600, 3600, "+00")
           }
          }
         }
        } else {
         if i < 124 {
          if i < 122 {
           Table::row(2723680800, 3600, 0, "+01")
          } else {
           if i < 123 {
            Table::row(2750896800, -3600, 3600, "+00")
           } else {
            Table::row(2753920800, 3600, 0, "+01")
           }
          }
         } else {
          if i < 125 {
           Table::row(2781136800, -3600, 3600, "+00")
          } else {
           if i < 126 {
            Table::row(2784765600, 3600, 0, "+01")
           } else {
            Table::row(2811981600, -3600, 3600, "+00")
           }
          }
         }
        }
       } else {
        if i < 133 {
         if i < 130 {
          if i < 128 {
           Table::row(2815610400, 3600, 0, "+01")
          } else {
           if i < 129 {
            Table::row(2842826400, -3600, 3600, "+00")
           } else {
            Table::row(2845850400, 3600, 0, "+01")
           }
          }
         } else {
          if i < 131 {
           Table::row(2873066400, -3600, 3600, "+00")
          } else {
           if i < 132 {
            Table::row(2876695200, 3600, 0, "+01")
           } else {
            Table::row(2903911200, -3600, 3600, "+00")
           }
          }
         }
        } else {
         if i < 136 {
          if i < 134 {
           Table::row(2906935200, 3600, 0, "+01")
          } else {
           if i < 135 {
            Table::row(2934756000, -3600, 3600, "+00")
           } else {
            Table::row(2937780000, 3600, 0, "+01")
           }
          }
         } else {
          if i < 137 {
           Table::row(2964996000, -3600, 3600, "+00")
          } else {
           if i < 138 {
            Table::row(2968624800, 3600, 0, "+01")
           } else {
            Table::row(2995840800, -3600, 3600, "+00")
           }
          }
         }
        }
       }
      }
     } else {
      if i < 162 {
       if i < 150 {
        if i < 144 {
         if i < 141 {
          if i < 140 {
           Table::row(2998864800, 3600, 0, "+01")
          } else {
           Table::row(3026080800, -3600, 3600, "+00")
          }
         } else {
          if i < 142 {
           Table::row(3029709600, 3600, 0, "+01")
          } else {
           if i < 143 {
            Table::row(3056925600, -3600, 3600, "+00")
           } else {
            Table::row(3060554400, 3600, 0, "+01")
           }
          }
         }
        } else {
         if i < 147 {
          if i < 145 {
           Table::row(3087770400, -3600, 3600, "+00")
          } else {
           if i < 146 {
            Table::row(3090794400, 3600, 0, "+01")
           } else {
            Table::row(3118010400, -3600, 3600, "+00")
           }
          }
         } else {
          if i < 148 {
           Table::row(3121639200, 3600, 0, "+01")
          } else {
           if i < 149 {
            Table::row(3148855200, -3600, 3600, "+00")
           } else {
            Table::row(3151879200, 3600, 0, "+01")
           }
          }
         }
        }
       } else {
        if i < 156 {
         if i < 153 {
          if i < 151 {
           Table::row(3179700000, -3600, 3600, "+00")
          } else {
           if i < 152 {
            Table::row(3182724000, 3600, 0, "+01")
           } else {
            Table::row(3209940000, -3600, 3600, "+00")
           }
          }
         } else {
          if i < 154 {
           Table::row(3213568800, 3600, 0, "+01")
          } else {
           if i < 155 {
            Table::row(3240784800, -3600, 3600, "+00")
           } else {
            Table::row(3243808800, 3600, 0, "+01")
           }
          }
         }
        } else {
         if i < 159 {
          if i < 157 {
           Table::row(3271024800, -3600, 3600, "+00")
          } else {
           if i < 158 {
            Table::row(3274653600, 3600, 0, "+01")
           } else {
            Table::row(3301869600, -3600, 3600, "+00")
           }
          }
         } else {
          if i < 160 {
           Table::row(3305498400, 3600, 0, "+01")
          } else {
           if i < 161 {
            Table::row(3332714400, -3600, 3600, "+00")
           } else {
            Table::row(3335738400, 3600, 0, "+01")
           }
          }
         }
        }
       }
      } else {
       if i < 174 {
        if i < 168 {
         if i < 165 {
          if i < 163 {
           Table::row(3362954400, -3600, 3600, "+00")
          } else {
           if i < 164 {
            Table::row(3366583200, 3600, 0, "+01")
           } else {
            Table::row(3393799200, -3600, 3600, "+00")
           }
          }
         } else {
          if i < 166 {
           Table::row(3396823200, 3600, 0, "+01")
          } else {
           if i < 167 {
            Table::row(3424644000, -3600, 3600, "+00")
           } else {
            Table::row(3427668000, 3600, 0, "+01")
           }
          }
         }
        } else {
         if i < 171 {
          if i < 169 {
           Table::row(3454884000, -3600, 3600, "+00")
          } else {
           if i < 170 {
            Table::row(3458512800, 3600, 0, "+01")
           } else {
            Table::row(3485728800, -3600, 3600, "+00")
           }
          }
         } else {
          if i < 172 {
           Table::row(3488752800, 3600, 0, "+01")
          } else {
           if i < 173 {
            Table::row(3515968800, -3600, 3600, "+00")
           } else {
            Table::row(3519597600, 3600, 0, "+01")
           }
          }
         }
        }
       } else {
        if i < 180 {
         if i < 177 {
          if i < 175 {
           Table::row(3546813600, -3600, 3600, "+00")
          } else {
           if i < 176 {
            Table::row(3549837600, 3600, 0, "+01")
           } else {
            Table::row(3577658400, -3600, 3600, "+00")
           }
          }
         } else {
          if i < 178 {
           Table::row(3580682400, 3600, 0, "+01")
          } else {
           if i < 179 {
            Table::row(3607898400, -3600, 3600, "+00")
           } else {
            Table::row(3611527200, 3600, 0, "+01")
           }
          }
         }
        } else {
         if i < 183 {
          if i < 181 {
           Table::row(3638743200, -3600, 3600, "+00")
          } else {
           if i < 182 {
            Table::row(3641767200, 3600, 0, "+01")
           } else {
            Table::row(3669588000, -3600, 3600, "+00")
           }
          }
         } else {
          if i < 184 {
           Table::row(3672612000, 3600, 0, "+01")
          } else {
           if i < 185 {
            Table::row(3699828000, -3600, 3600, "+00")
           } else {
            Table::row(3703456800, 3600, 0, "+01")
           }
          }
         }
        }
       }
      }
     }
    }
}

/// The rows of the table of the zone `Africa/El_Aaiun`.
pub open spec fn el_aaiun_rows() -> spec_fn(int) -> (i64, FixedTimespan) {
    |i: int| el_aaiun_row(i)
}

/// The table of the zone `Africa/El_Aaiun`.
pub open spec fn el_aaiun() -> Table {
    Table::listed(Table::row(0, -3168, 0, "LMT").1, 186, el_aaiun_rows())
}

/// Row `i` of the table of the zone `Africa/Freetown`.
pub open spec fn freetown_row(i: int) -> (i64, FixedTimespan) {
    if i < 9 {
     if i < 4 {
      if i < 2 {
       if i < 1 {
        Table::row(-2776979220, -3180, 0, "FMT")
       } else {
        Table::row(-1783120020, -3600, 0, "-01")
       }
      } else {
       if i < 3 {
        Table::row(-1170284400, -3600, 1200, "-0040")
       } else {
        Table::row(-1159831200, -3600, 0, "-01")
       }
      }
     } else {
      if i < 6 {
       if i < 5 {
        Table::row(-1146610800, -3600, 1200, "-0040")
       } else {
        Table::row(-1128295200, -3600, 0, "-01")
       }
      } else {
       if i < 7 {
        Table::row(-1115074800, -3600, 1200, "-0040")
       } else {
        if i < 8 {
         Table::row(-1096759200, -3600, 0, "-01")
        } else {
         Table::row(-1083538800, -3600, 1200, "-0040")
        }
       }
      }
     }
    } else {
     if i < 14 {
      if i < 11 {
       if i < 10 {
        Table::row(-1065136800, -3600, 0, "-01")
       } else {
        Table::row(-1051916400, -3600, 1200, "-0040")
       }
      } else {
       if i < 12 {
        Table::row(-1033600800, -3600, 0, "-01")
       } else {
        if i < 13 {
         Table::row(-1020380400, -3600, 1200, "-0040")
        } else {
         Table::row(-1002064800, -3600, 0, "-01")
        }
       }
      }
     } else {
      if i < 16 {
       if i < 15 {
        Table::row(-988844400, -3600, 1200, "-0040")
       } else {
        Table::row(-965258400, -3600, 0, "-01")
       }
      } else {
       if i < 17 {
        Table::row(-957308400, -3600, 1200, "-0040")
       } else {
        if i < 18 {
         Table::row(-956964000, -3600, 0, "-01")
        } else {
         Table::row(-885769200, 0, 0, "GMT")
        }
       }
      }
     }
    }
}

/// The rows of the table of the zone `Africa/Freetown`.
pub open spec fn freetown_rows() -> spec_fn(int) -> (i64, FixedTimespan) {
    |i: int| freetown_row(i)
}

/// The table of the zone `Africa/Freetown`.
pub open spec fn freetown() -> Table {
    Table::listed(Table::row(0, -3180, 0, "LMT").1, 19, freetown_rows())
}

/// Row `i` of the table of the zone `Africa/Gaborone`.
pub open spec fn gaborone_row(i: int) -> (i64, FixedTimespan) {
    if i < 2 {
     if i < 1 {
      Table::row(-2682294220, 5400, 0, "SAST")
     } else {
      Table::row(-2109288600, 7200, 0, "CAT")
     }
    } else {
     if i < 3 {
      Table::row(-829526400, 7200, 3600, "CAST")
     } else {
      Table::row(-813805200, 7200, 0, "CAT")
     }
    }
}

/// The rows of the table of the zone `Africa/Gaborone`.
pub open spec fn gaborone_rows() -> spec_fn(int) -> (i64, FixedTimespan) {
    |i: int| gaborone_row(i)
}

/// The table of the zone `Africa/Gaborone`.
pub open spec fn gaborone() -> Table {
    Table::listed(Table::row(0, 6220, 0, "LMT").1, 4, gaborone_rows())
}

/// Row `i` of the table of the zone `Africa/Harare`.
pub open spec fn harare_row(i: int) -> (i64, FixedTimespan) {
    Table::row(-2109290652, 7200, 0, "CAT")
}

/// The rows of the table of the zone `Africa/Harare`.
pub open spec fn harare_rows() -> spec_fn(int) -> (i64, FixedTimespan) {
    |i: int| harare_row(i)
}

/// The table of the zone `Africa/Harare`.
pub open spec fn harare() -> Table {
    Table::listed(Table::row(0, 7452, 0, "LMT").1, 1, harare_rows())
}

/// Row `i` of the table of the zone `Africa/Johannesburg`.
pub open spec fn johannesburg_row(i: int) -> (i64, FixedTimespan) {
    if i < 3 {
     if i < 1 {
      Table::row(-2458173120, 5400, 0, "SAST")
     } else {
      if i < 2 {
       Table::row(-2109288600, 7200, 0, "SAST")
      } else {
       Table::row(-860976000, 7200, 3600, "SAST")
      }
     }
    } else {
     if i < 4 {
      Table::row(-845254800, 7200, 0, "SAST")
     } else {
      if i < 5 {
       Table::row(-829526400, 7200, 3600, "SAST")
      } else {
       Table::row(-813805200, 7200, 0, "SAST")
      }
     }
    }
}

/// The rows of the table of the zone `Africa/Johannesburg`.
pub open spec fn johannesburg_rows() -> spec_fn(int) -> (i64, FixedTimespan) {
    |i: int| johannesburg_row(i)
}

/// The table of the zone `Africa/Johannesburg`.
pub open spec fn johannesburg() -> Table {
    Table::listed(Table::row(0, 6720, 0, "LMT").1, 6, johannesburg_rows())
}

/// Row `i` of the table of the zone `Africa/Juba`.
pub open spec fn juba_row(i: int) -> (i64, FixedTimespan) {
    if i < 17 {
     if i < 8 {
      if i < 4 {
       if i < 2 {
        if i < 1 {
         Table::row(-1230775588, 7200, 0, "CAT")
        } else {
         Table::row(10360800, 7200, 3600, "CAST")
        }
       } else {
        if i < 3 {
         Table::row(24786000, 7200, 0, "CAT")
        } else {
         Table::row(41810400, 7200, 3600, "CAST")
        }
       }
      } else {
       if i < 6 {
        if i < 5 {
         Table::row(56322000, 7200, 0, "CAT")
        } else {
         Table::row(73432800, 7200, 3600, "CAST")
        }
       } else {
        if i < 7 {
         Table::row(87944400, 7200, 0, "CAT")
        } else {
         Table::row(104882400, 7200, 3600, "CAST")
        }
       }
      }
     } else {
      if i < 12 {
       if i < 10 {
        if i < 9 {
         Table::row(119480400, 7200, 0, "CAT")
        } else {
         Table::row(136332000, 7200, 3600, "CAST")
        }
       } else {
        if i < 11 {
         Table::row(151016400, 7200, 0, "CAT")
        } else {
         Table::row(167781600, 7200, 3600, "CAST")
        }
       }
      } else {
       if i < 14 {
        if i < 13 {
         Table::row(182552400, 7200, 0, "CAT")
        } else {
         Table::row(199231200, 7200, 3600, "CAST")
        }
       } else {
        if i < 15 {
         Table::row(214174800, 7200, 0, "CAT")
        } else {
         if i < 16 {
          Table::row(230680800, 7200, 3600, "CAST")
         } else {
          Table::row(245710800, 7200, 0, "CAT")
         }
        }
       }
      }
     }
    } else {
     if i < 26 {
      if i < 21 {
       if i < 19 {
        if i < 18 {
         Table::row(262735200, 7200, 3600, "CAST")
        } else {
         Table::row(277246800, 7200, 0, "CAT")
        }
       } else {
        if i < 20 {
         Table::row(294184800, 7200, 3600, "CAST")
        } else {
         Table::row(308782800, 7200, 0, "CAT")
        }
       }
      } else {
       if i < 23 {
        if i < 22 {
         Table::row(325634400, 7200, 3600, "CAST")
        } else {
         Table::row(340405200, 7200, 0, "CAT")
        }
       } else {
        if i < 24 {
         Table::row(357084000, 7200, 3600, "CAST")
        } else {
         if i < 25 {
          Table::row(371941200, 7200, 0, "CAT")
         } else {
          Table::row(388533600, 7200, 3600, "CAST")
         }
        }
       }
      }
     } else {
      if i < 30 {
       if i < 28 {
        if i < 27 {
         Table::row(403477200, 7200, 0, "CAT")
        } else {
         Table::row(419983200, 7200, 3600, "CAST")
        }
       } else {
        if i < 29 {
         Table::row(435013200, 7200, 0, "CAT")
        } else {
         Table::row(452037600, 7200, 3600, "CAST")
        }
       }
      } else {
       if i < 32 {
        if i < 31 {
         Table::row(466635600, 7200, 0, "CAT")
        } else {
         Table::row(483487200, 7200, 3600, "CAST")
        }
       } else {
        if i < 33 {
         Table::row(498171600, 7200, 0, "CAT")
        } else {
         if i < 34 {
          Table::row(947930400, 10800, 0, "EAT")
         } else {
          Table::row(1612126800, 7200, 0, "CAT")
         }
        }
       }
      }
     }
    }
}

/// The rows of the table of the zone `Africa/Juba`.
pub open spec fn juba_rows() -> spec_fn(int) -> (i64, FixedTimespan) {
    |i: int| juba_row(i)
}

/// The table of the zone `Africa/Juba`.
pub open spec fn juba() -> Table {
    Table::listed(Table::row(0, 7588, 0, "LMT").1, 35, juba_rows())
}

/// Row `i` of the table of the zone `Africa/Kampala`.
pub open spec fn kampala_row(i: int) -> (i64, FixedTimespan) {
    if i < 2 {
     if i < 1 {
      Table::row(-1309745380, 10800, 0, "EAT")
     } else {
      Table::row(-1262314800, 9000, 0, "+0230")
     }
    } else {
     if i < 3 {
      Table::row(-694319400, 9900, 0, "+0245")
     } else {
      Table::row(-410237100, 10800, 0, "EAT")
     }
    }
}

/// The rows of the table of the zone `Africa/Kampala`.
pub open spec fn kampala_rows() -> spec_fn(int) -> (i64, FixedTimespan) {
    |i: int| kampala_row(i)
}

/// The table of the zone `Africa/Kampala`.
pub open spec fn kampala() -> Table {
    Table::listed(Table::row(0, 7780, 0, "LMT").1, 4, kampala_rows())
}

/// Row `i` of the table of the zone `Africa/Khartoum`.
pub open spec fn khartoum_row(i: int) -> (i64, FixedTimespan) {
    if i < 17 {
     if i < 8 {
      if i < 4 {
       if i < 2 {
        if i < 1 {
         Table::row(-1230775808, 7200, 0, "CAT")
        } else {
         Table::row(10360800, 7200, 3600, "CAST")
        }
       } else {
        if i < 3 {
         Table::row(24786000, 7200, 0, "CAT")
        } else {
         Table::row(41810400, 7200, 3600, "CAST")
        }
       }
      } else {
       if i < 6 {
        if i < 5 {
         Table::row(56322000, 7200, 0, "CAT")
        } else {
         Table::row(73432800, 7200, 3600, "CAST")
        }
       } else {
        if i < 7 {
         Table::row(87944400, 7200, 0, "CAT")
        } else {
         Table::row(104882400, 7200, 3600, "CAST")
        }
       }
      }
     } else {
      if i < 12 {
       if i < 10 {
        if i < 9 {
         Table::row(119480400, 7200, 0, "CAT")
        } else {
         Table::row(136332000, 7200, 3600, "CAST")
        }
       } else {
        if i < 11 {
         Table::row(151016400, 7200, 0, "CAT")
        } else {
         Table::row(167781600, 7200, 3600, "CAST")
        }
       }
      } else {
       if i < 14 {
        if i < 13 {
         Table::row(182552400, 7200, 0, "CAT")
        } else {
         Table::row(199231200, 7200, 3600, "CAST")
        }
       } else {
        if i < 15 {
         Table::row(214174800, 7200, 0, "CAT")
        } else {
         if i < 16 {
          Table::row(230680800, 7200, 3600, "CAST")
         } else {
          Table::row(245710800, 7200, 0, "CAT")
         }
        }
       }
      }
     }
    } else {
     if i < 26 {
      if i < 21 {
       if i < 19 {
        if i < 18 {
         Table::row(262735200, 7200, 3600, "CAST")
        } else {
         Table::row(277246800, 7200, 0, "CAT")
        }
       } else {
        if i < 20 {
         Table::row(294184800, 7200, 3600, "CAST")
        } else {
         Table::row(308782800, 7200, 0, "CAT")
        }
       }
      } else {
       if i < 23 {
        if i < 22 {
         Table::row(325634400, 7200, 3600, "CAST")
        } else {
         Table::row(340405200, 7200, 0, "CAT")
        }
       } else {
        if i < 24 {
         Table::row(357084000, 7200, 3600, "CAST")
        } else {
         if i < 25 {
          Table::row(371941200, 7200, 0, "CAT")
         } else {
          Table::row(388533600, 7200, 3600, "CAST")
         }
        }
       }
      }
     } else {
      if i < 30 {
       if i < 28 {
        if i < 27 {
         Table::row(403477200, 7200, 0, "CAT")
        } else {
         Table::row(419983200, 7200, 3600, "CAST")
        }
       } else {
        if i < 29 {
         Table::row(435013200, 7200, 0, "CAT")
        } else {
         Table::row(452037600, 7200, 3600, "CAST")
        }
       }
      } else {
       if i < 32 {
        if i < 31 {
         Table::row(466635600, 7200, 0, "CAT")
        } else {
         Table::row(483487200, 7200, 3600, "CAST")
        }
       } else {
        if i < 33 {
         Table::row(498171600, 7200, 0, "CAT")
        } else {
         if i < 34 {
          Table::row(947930400, 10800, 0, "EAT")
         } else {
          Table::row(1509483600, 7200, 0, "CAT")
         }
        }
       }
      }
     }
    }
}

/// The rows of the table of the zone `Africa/Khartoum`.
pub open spec fn khartoum_rows() -> spec_fn(int) -> (i64, FixedTimespan) {
    |i: int| khartoum_row(i)
}

/// The table of the zone `Africa/Khartoum`.
pub open spec fn khartoum() -> Table {
    Table::listed(Table::row(0, 7808, 0, "LMT").1, 35, khartoum_rows())
}

/// Row `i` of the table of the zone `Africa/Kigali`.
pub open spec fn kigali_row(i: int) -> (i64, FixedTimespan) {
    Table::row(-1091498416, 7200, 0, "CAT")
}

/// The rows of the table of the zone `Africa/Kigali`.
pub open spec fn kigali_rows() -> spec_fn(int) -> (i64, FixedTimespan) {
    |i: int| kigali_row(i)
}

/// The table of the zone `Africa/Kigali`.
pub open spec fn kigali() -> Table {
    Table::listed(Table::row(0, 7216, 0, "LMT").1, 1, kigali_rows())
}

/// Row `i` of the table of the zone `Africa/Kinshasa`.
pub open spec fn kinshasa_row(i: int) -> (i64, FixedTimespan) {
    Table::row(-2276643672, 3600, 0, "WAT")
}

/// The rows of the table of the zone `Africa/Kinshasa`.
pub open spec fn kinshasa_rows() -> spec_fn(int) -> (i64, FixedTimespan) {
    |i: int| kinshasa_row(i)
}

/// The table of the zone `Africa/Kinshasa`.
pub open spec fn kinshasa() -> Table {
    Table::listed(Table::row(0, 3672, 0, "LMT").1, 1, kinshasa_rows())
}

/// Row `i` of the table of the zone `Africa/Lagos`.
pub open spec fn lagos_row(i: int) -> (i64, FixedTimespan) {
    if i < 2 {
     if i < 1 {
      Table::row(-2035584815, 0, 0, "GMT")
     } else {
      Table::row(-1940889600, 815, 0, "LMT")
     }
    } else {
     if i < 3 {
      Table::row(-1767226415, 1800, 0, "+0030")
     } else {
      Table::row(-1588465800, 3600, 0, "WAT")
     }
    }
}

/// The rows of the table of the zone `Africa/Lagos`.
pub open spec fn lagos_rows() -> spec_fn(int) -> (i64, FixedTimespan) {
    |i: int| lagos_row(i)
}

/// The table of the zone `Africa/Lagos`.
pub open spec fn lagos() -> Table {
    Table::listed(Table::row(0, 815, 0, "LMT").1, 4, lagos_rows())
}

/// Row `i` of the table of the zone `Africa/Libreville`.
pub open spec fn libreville_row(i: int) -> (i64, FixedTimespan) {
    Table::row(-1830386268, 3600, 0, "WAT")
}

/// The rows of the table of the zone `Africa/Libreville`.
pub open spec fn libreville_rows() -> spec_fn(int) -> (i64, FixedTimespan) {
    |i: int| libreville_row(i)
}

/// The table of the zone `Africa/Libreville`.
pub open spec fn libreville() -> Table {
    Table::listed(Table::row(0, 2268, 0, "LMT").1, 1, libreville_rows())
}

/// Row `i` of the table of the zone `Africa/Lome`.
pub open spec fn lome_row(i: int) -> (i64, FixedTimespan) {
    Table::row(-2429827492, 0, 0, "GMT")
}

/// The rows of the table of the zone `Africa/Lome`.
pub open spec fn lome_rows() -> spec_fn(int) -> (i64, FixedTimespan) {
    |i: int| lome_row(i)
}

/// The table of the zone `Africa/Lome`.
pub open spec fn lome() -> Table {
    Table::listed(Table::row(0, 292, 0, "LMT").1, 1, lome_rows())
}

/// Row `i` of the table of the zone `Africa/Luanda`.
pub open spec fn luanda_row(i: int) -> (i64, FixedTimespan) {
    if i < 1 {
     Table::row(-2461452776, 3124, 0, "LMT")
    } else {
     Table::row(-1830387600, 3600, 0, "WAT")
    }
}

/// The rows of the table of the zone `Africa/Luanda`.
pub open spec fn luanda_rows() -> spec_fn(int) -> (i64, FixedTimespan) {
    |i: int| luanda_row(i)
}

/// The table of the zone `Africa/Luanda`.
pub open spec fn luanda() -> Table {
    Table::listed(Table::row(0, 3176, 0, "LMT").1, 2, luanda_rows())
}

/// Row `i` of the table of the zone `Africa/Lubumbashi`.
pub open spec fn lubumbashi_row(i: int) -> (i64, FixedTimespan) {
    if i < 1 {
     Table::row(-2276646592, 3600, 0, "WAT")
    } else {
     Table::row(-1567990800, 7200, 0, "CAT")
    }
}

/// The rows of the table of the zone `Africa/Lubumbashi`.
pub open spec fn lubumbashi_rows() -> spec_fn(int) -> (i64, FixedTimespan) {
    |i: int| lubumbashi_row(i)
}

/// The table of the zone `Africa/Lubumbashi`.
pub open spec fn lubumbashi() -> Table {
    Table::listed(Table::row(0, 6592, 0, "LMT").1, 2, lubumbashi_rows())
}

/// Row `i` of the table of the zone `Africa/Lusaka`.
pub open spec fn lusaka_row(i: int) -> (i64, FixedTimespan) {
    Table::row(-2109289988, 7200, 0, "CAT")
}

/// The rows of the table of the zone `Africa/Lusaka`.
pub open spec fn lusaka_rows() -> spec_fn(int) -> (i64, FixedTimespan) {
    |i: int| lusaka_row(i)
}

/// The table of the zone `Africa/Lusaka`.
pub open spec fn lusaka() -> Table {
    Table::listed(Table::row(0, 6788, 0, "LMT").1, 1, lusaka_rows())
}

/// Row `i` of the table of the zone `Africa/Malabo`.
pub open spec fn malabo_row(i: int) -> (i64, FixedTimespan) {
    if i < 1 {
     Table::row(-1830386108, 0, 0, "GMT")
    } else {
     Table::row(-190857600, 3600, 0, "WAT")
    }
}

/// The rows of the table of the zone `Africa/Malabo`.
pub open spec fn malabo_rows() -> spec_fn(int) -> (i64, FixedTimespan) {
    |i: int| malabo_row(i)
}

/// The table of the zone `Africa/Malabo`.
pub open spec fn malabo() -> Table {
    Table::listed(Table::row(0, 2108, 0, "LMT").1, 2, malabo_rows())
}

/// Row `i` of the table of the zone `Africa/Maputo`.
pub open spec fn maputo_row(i: int) -> (i64, FixedTimespan) {
    Table::row(-1924999818, 7200, 0, "CAT")
}

/// The rows of the table of the zone `Africa/Maputo`.
pub open spec fn maputo_rows() -> spec_fn(int) -> (i64, FixedTimespan) {
    |i: int| maputo_row(i)
}

/// The table of the zone `Africa/Maputo`.
pub open spec fn maputo() -> Table {
    Table::listed(Table::row(0, 7818, 0, "LMT").1, 1, maputo_rows())
}

/// Row `i` of the table of the zone `Africa/Maseru`.
pub open spec fn maseru_row(i: int) -> (i64, FixedTimespan) {
    if i < 1 {
     Table::row(-2109289800, 7200, 0, "SAST")
    } else {
     if i < 2 {
      Table::row(-829526400, 7200, 3600, "SAST")
     } else {
      Table::row(-813805200, 7200, 0, "SAST")
     }
    }
}

/// The rows of the table of the zone `Africa/Maseru`.
pub open spec fn maseru_rows() -> spec_fn(int) -> (i64, FixedTimespan) {
    |i: int| maseru_row(i)
}

/// The table of the zone `Africa/Maseru`.
pub open spec fn maseru() -> Table {
    Table::listed(Table::row(0, 6600, 0, "LMT").1, 3, maseru_rows())
}

/// Row `i` of the table of the zone `Africa/Mbabane`.
pub open spec fn mbabane_row(i: int) -> (i64, FixedTimespan) {
    Table::row(-2109290664, 7200, 0, "SAST")
}

/// The rows of the table of the zone `Africa/Mbabane`.
pub open spec fn mbabane_rows() -> spec_fn(int) -> (i64, FixedTimespan) {
    |i: int| mbabane_row(i)
}

/// The table of the zone `Africa/Mbabane`.
pub open spec fn mbabane() -> Table {
    Table::listed(Table::row(0, 7464, 0, "LMT").1, 1, mbabane_rows())
}

/// Row `i` of the table of the zone `Africa/Mogadishu`.
pub open spec fn mogadishu_row(i: int) -> (i64, FixedTimespan) {
    if i < 1 {
     Table::row(-2403572488, 10800, 0, "EAT")
    } else {
     if i < 2 {
      Table::row(-1230778800, 9000, 0, "+0230")
     } else {
      Table::row(-410236200, 10800, 0, "EAT")
     }
    }
}

/// The rows of the table of the zone `Africa/Mogadishu`.
pub open spec fn mogadishu_rows() -> spec_fn(int) -> (i64, FixedTimespan) {
    |i: int| mogadishu_row(i)
}

/// The table of the zone `Africa/Mogadishu`.
pub open spec fn mogadishu() -> Table {
    Table::listed(Table::row(0, 10888, 0, "LMT").1, 3, mogadishu_rows())
}

/// Row `i` of the table of the zone `Africa/Monrovia`.
pub open spec fn monrovia_row(i: int) -> (i64, FixedTimespan) {
    if i < 1 {
     Table::row(-2776979812, -2588, 0, "MMT")
    } else {
     if i < 2 {
      Table::row(-1604359012, -2670, 0, "MMT")
     } else {
      Table::row(63593070, 0, 0, "GMT")
     }
    }
}

/// The rows of the table of the zone `Africa/Monrovia`.
pub open spec fn monrovia_rows() -> spec_fn(int) -> (i64, FixedTimespan) {
    |i: int| monrovia_row(i)
}

/// The table of the zone `Africa/Monrovia`.
pub open spec fn monrovia() -> Table {
    Table::listed(Table::row(0, -2588, 0, "LMT").1, 3, monrovia_rows())
}

/// Row `i` of the table of the zone `Africa/Nairobi`.
pub open spec fn nairobi_row(i: int) -> (i64, FixedTimespan) {
    if i < 2 {
     if i < 1 {
      Table::row(-1946168836, 9000, 0, "+0230")
     } else {
      Table::row(-1309746600, 10800, 0, "EAT")
     }
    } else {
     if i < 3 {
      Table::row(-1261969200, 9000, 0, "+0230")
     } else {
      if i < 4 {
       Table::row(-1041388200, 9900, 0, "+0245")
      } else {
       Table::row(-865305900, 10800, 0, "EAT")
      }
     }
    }
}

/// The rows of the table of the zone `Africa/Nairobi`.
pub open spec fn nairobi_rows() -> spec_fn(int) -> (i64, FixedTimespan) {
    |i: int| nairobi_row(i)
}

/// The table of the zone `Africa/Nairobi`.
pub open spec fn nairobi() -> Table {
    Table::listed(Table::row(0, 8836, 0, "LMT").1, 5, nairobi_rows())
}

/// Row `i` of the table of the zone `Africa/Ndjamena`.
pub open spec fn ndjamena_row(i: int) -> (i64, FixedTimespan) {
    if i < 1 {
     Table::row(-1830387612, 3600, 0, "WAT")
    } else {
     if i < 2 {
      Table::row(308703600, 3600, 3600, "WAST")
     } else {
      Table::row(321314400, 3600, 0, "WAT")
     }
    }
}

/// The rows of the table of the zone `Africa/Ndjamena`.
pub open spec fn ndjamena_rows() -> spec_fn(int) -> (i64, FixedTimespan) {
    |i: int| ndjamena_row(i)
}

/// The table of the zone `Africa/Ndjamena`.
pub open spec fn ndjamena() -> Table {
    Table::listed(Table::row(0, 3612, 0, "LMT").1, 3, ndjamena_rows())
}

/// Row `i` of the table of the zone `Africa/Niamey`.
pub open spec fn niamey_row(i: int) -> (i64, FixedTimespan) {
    if i < 1 {
     Table::row(-1830384508, -3600, 0, "-01")
    } else {
     if i < 2 {
      Table::row(-1131231600, 0, 0, "GMT")
     } else {
      Table::row(-315619200, 3600, 0, "WAT")
     }
    }
}

/// The rows of the table of the zone `Africa/Niamey`.
pub open spec fn niamey_rows() -> spec_fn(int) -> (i64, FixedTimespan) {
    |i: int| niamey_row(i)
}

/// The table of the zone `Africa/Niamey`.
pub open spec fn niamey() -> Table {
    Table::listed(Table::row(0, 508, 0, "LMT").1, 3, niamey_rows())
}

/// Row `i` of the table of the zone `Africa/Nouakchott`.
pub open spec fn nouakchott_row(i: int) -> (i64, FixedTimespan) {
    if i < 1 {
     Table::row(-1830380172, 0, 0, "GMT")
    } else {
     if i < 2 {
      Table::row(-1131235200, -3600, 0, "-01")
     } else {
      Table::row(-286930800, 0, 0, "GMT")
     }
    }
}

/// The rows of the table of the zone `Africa/Nouakchott`.
pub open spec fn nouakchott_rows() -> spec_fn(int) -> (i64, FixedTimespan) {
    |i: int| nouakchott_row(i)
}

/// The table of the zone `Africa/Nouakchott`.
pub open spec fn nouakchott() -> Table {
    Table::listed(Table::row(0, -3828, 0, "LMT").1, 3, nouakchott_rows())
}

/// Row `i` of the table of the zone `Africa/Ouagadougou`.
pub open spec fn ouagadougou_row(i: int) -> (i64, FixedTimespan) {
    Table::row(-1830383636, 0, 0, "GMT")
}

/// The rows of the table of the zone `Africa/Ouagadougou`.
pub open spec fn ouagadougou_rows() -> spec_fn(int) -> (i64, FixedTimespan) {
    |i: int| ouagadougou_row(i)
}

/// The table of the zone `Africa/Ouagadougou`.
pub open spec fn ouagadougou() -> Table {
    Table::listed(Table::row(0, -364, 0, "LMT").1, 1, ouagadougou_rows())
}

/// Row `i` of the table of the zone `Africa/Porto-Novo`.
pub open spec fn porto_novo_row(i: int) -> (i64, FixedTimespan) {
    if i < 1 {
     Table::row(-1830384628, 0, 0, "GMT")
    } else {
     Table::row(-1131235200, 3600, 0, "WAT")
    }
}

/// The rows of the table of the zone `Africa/Porto-Novo`.
pub open spec fn porto_novo_rows() -> spec_fn(int) -> (i64, FixedTimespan) {
    |i: int| porto_novo_row(i)
}

/// The table of the zone `Africa/Porto-Novo`.
pub open spec fn porto_novo() -> Table {
    Table::listed(Table::row(0, 628, 0, "LMT").1, 2, porto_novo_rows())
}

/// Row `i` of the table of the zone `Africa/Sao_Tome`.
pub open spec fn sao_tome_row(i: int) -> (i64, FixedTimespan) {
    if i < 2 {
     if i < 1 {
      Table::row(-2713912016, -2205, 0, "LMT")
     } else {
      Table::row(-1830384000, 0, 0, "GMT")
     }
    } else {
     if i < 3 {
      Table::row(1514768400, 3600, 0, "WAT")
     } else {
      Table::row(1546304400, 0, 0, "GMT")
     }
    }
}

/// The rows of the table of the zone `Africa/Sao_Tome`.
pub open spec fn sao_tome_rows() -> spec_fn(int) -> (i64, FixedTimespan) {
    |i: int| sao_tome_row(i)
}

/// The table of the zone `Africa/Sao_Tome`.
pub open spec fn sao_tome() -> Table {
    Table::listed(Table::row(0, 1616, 0, "LMT").1, 4, sao_tome_rows())
}

/// Row `i` of the table of the zone `Africa/Timbuktu`.
pub open spec fn timbuktu_row(i: int) -> (i64, FixedTimespan) {
    Table::row(-1830383032, 0, 0, "GMT")
}

/// The rows of the table of the zone `Africa/Timbuktu`.
pub open spec fn timbuktu_rows() -> spec_fn(int) -> (i64, FixedTimespan) {
    |i: int| timbuktu_row(i)
}

/// The table of the zone `Africa/Timbuktu`.
pub open spec fn timbuktu() -> Table {
    Table::listed(Table::row(0, -968, 0, "LMT").1, 1, timbuktu_rows())
}

/// Row `i` of the table of the zone `Africa/Tripoli`.
pub open spec fn tripoli_row(i: int) -> (i64, FixedTimespan) {
    if i < 16 {
     if i < 8 {
      if i < 4 {
       if i < 2 {
        if i < 1 {
         Table::row(-1577926364, 3600, 0, "CET")
        } else {
         Table::row(-574902000, 3600, 3600, "CEST")
        }
       } else {
        if i < 3 {
         Table::row(-568087200, 3600, 0, "CET")
        } else {
         Table::row(-512175600, 3600, 3600, "CEST")
        }
       }
      } else {
       if i < 6 {
        if i < 5 {
         Table::row(-504928800, 3600, 0, "CET")
        } else {
         Table::row(-449888400, 3600, 3600, "CEST")
        }
       } else {
        if i < 7 {
         Table::row(-441856800, 3600, 0, "CET")
        } else {
         Table::row(-347158800, 7200, 0, "EET")
        }
       }
      }
     } else {
      if i < 12 {
       if i < 10 {
        if i < 9 {
         Table::row(378684000, 3600, 0, "CET")
        } else {
         Table::row(386463600, 3600, 3600, "CEST")
        }
       } else {
        if i < 11 {
         Table::row(402271200, 3600, 0, "CET")
        } else {
         Table::row(417999600, 3600, 3600, "CEST")
        }
       }
      } else {
       if i < 14 {
        if i < 13 {
         Table::row(433807200, 3600, 0, "CET")
        } else {
         Table::row(449622000, 3600, 3600, "CEST")
        }
       } else {
        if i < 15 {
         Table::row(465429600, 3600, 0, "CET")
        } else {
         Table::row(481590000, 3600, 3600, "CEST")
        }
       }
      }
     }
    } else {
     if i < 24 {
      if i < 20 {
       if i < 18 {
        if i < 17 {
         Table::row(496965600, 3600, 0, "CET")
        } else {
         Table::row(512953200, 3600, 3600, "CEST")
        }
       } else {
        if i < 19 {
         Table::row(528674400, 3600, 0, "CET")
        } else {
         Table::row(544230000, 3600, 3600, "CEST")
        }
       }
      } else {
       if i < 22 {
        if i < 21 {
         Table::row(560037600, 3600, 0, "CET")
        } else {
         Table::row(575852400, 3600, 3600, "CEST")
        }
       } else {
        if i < 23 {
         Table::row(591660000, 3600, 0, "CET")
        } else {
         Table::row(607388400, 3600, 3600, "CEST")
        }
       }
      }
     } else {
      if i < 28 {
       if i < 26 {
        if i < 25 {
         Table::row(623196000, 3600, 0, "CET")
        } else {
         Table::row(641775600, 7200, 0, "EET")
        }
       } else {
        if i < 27 {
         Table::row(844034400, 3600, 0, "CET")
        } else {
         Table::row(860108400, 3600, 3600, "CEST")
        }
       }
      } else {
       if i < 30 {
        if i < 29 {
         Table::row(875916000, 7200, 0, "EET")
        } else {
         Table::row(1352505600, 3600, 0, "CET")
        }
       } else {
        if i < 31 {
         Table::row(1364515200, 3600, 3600, "CEST")
        } else {
         Table::row(1382659200, 7200, 0, "EET")
        }
       }
      }
     }
    }
}

/// The rows of the table of the zone `Africa/Tripoli`.
pub open spec fn tripoli_rows() -> spec_fn(int) -> (i64, FixedTimespan) {
    |i: int| tripoli_row(i)
}

/// The table of the zone `Africa/Tripoli`.
pub open spec fn tripoli() -> Table {
    Table::listed(Table::row(0, 3164, 0, "LMT").1, 32, tripoli_rows())
}

/// Row `i` of the table of the zone `Africa/Tunis`.
pub open spec fn tunis_row(i: int) -> (i64, FixedTimespan) {
    if i < 17 {
     if i < 8 {
      if i < 4 {
       if i < 2 {
        if i < 1 {
         Table::row(-2797202444, 561, 0, "PMT")
        } else {
         Table::row(-1855958961, 3600, 0, "CET")
        }
       } else {
        if i < 3 {
         Table::row(-969242400, 3600, 3600, "CEST")
        } else {
         Table::row(-950493600, 3600, 0, "CET")
        }
       }
      } else {
       if i < 6 {
        if i < 5 {
         Table::row(-941940000, 3600, 3600, "CEST")
        } else {
         Table::row(-891136800, 3600, 0, "CET")
        }
       } else {
        if i < 7 {
         Table::row(-877827600, 3600, 3600, "CEST")
        } else {
         Table::row(-857257200, 3600, 0, "CET")
        }
       }
      }
     } else {
      if i < 12 {
       if i < 10 {
        if i < 9 {
         Table::row(-844556400, 3600, 3600, "CEST")
        } else {
         Table::row(-842918400, 3600, 0, "CET")
        }
       } else {
        if i < 11 {
         Table::row(-842223600, 3600, 3600, "CEST")
        } else {
         Table::row(-828230400, 3600, 0, "CET")
        }
       }
      } else {
       if i < 14 {
        if i < 13 {
         Table::row(-812502000, 3600, 3600, "CEST")
        } else {
         Table::row(-796269600, 3600, 0, "CET")
        }
       } else {
        if i < 15 {
         Table::row(-781052400, 3600, 3600, "CEST")
        } else {
         if i < 16 {
          Table::row(-766634400, 3600, 0, "CET")
         } else {
          Table::row(231202800, 3600, 3600, "CEST")
         }
        }
       }
      }
     }
    } else {
     if i < 25 {
      if i < 21 {
       if i < 19 {
        if i < 18 {
         Table::row(243903600, 3600, 0, "CET")
        } else {
         Table::row(262825200, 3600, 3600, "CEST")
        }
       } else {
        if i < 20 {
         Table::row(276044400, 3600, 0, "CET")
        } else {
         Table::row(581122800, 3600, 3600, "CEST")
        }
       }
      } else {
       if i < 23 {
        if i < 22 {
         Table::row(591145200, 3600, 0, "CET")
        } else {
         Table::row(606870000, 3600, 3600, "CEST")
        }
       } else {
        if i < 24 {
         Table::row(622594800, 3600, 0, "CET")
        } else {
         Table::row(641516400, 3600, 3600, "CEST")
        }
       }
      }
     } else {
      if i < 29 {
       if i < 27 {
        if i < 26 {
         Table::row(654649200, 3600, 0, "CET")
        } else {
         Table::row(1114902000, 3600, 3600, "CEST")
        }
       } else {
        if i < 28 {
         Table::row(1128038400, 3600, 0, "CET")
        } else {
         Table::row(1143334800, 3600, 3600, "CEST")
        }
       }
      } else {
       if i < 31 {
        if i < 30 {
         Table::row(1162083600, 3600, 0, "CET")
        } else {
         Table::row(1174784400, 3600, 3600, "CEST")
        }
       } else {
        if i < 32 {
         Table::row(1193533200, 3600, 0, "CET")
        } else {
         if i < 33 {
          Table::row(1206838800, 3600, 3600, "CEST")
         } else {
          Table::row(1224982800, 3600, 0, "CET")
         }
        }
       }
      }
     }
    }
}

/// The rows of the table of the zone `Africa/Tunis`.
pub open spec fn tunis_rows() -> spec_fn(int) -> (i64, FixedTimespan) {
    |i: int| tunis_row(i)
}

/// The table of the zone `Africa/Tunis`.
pub open spec fn tunis() -> Table {
    Table::listed(Table::row(0, 2444, 0, "LMT").1, 34, tunis_rows())
}

/// Row `i` of the table of the zone `Africa/Windhoek`.
pub open spec fn windhoek_row(i: int) -> (i64, FixedTimespan) {
    if i < 26 {
     if i < 13 {
      if i < 6 {
       if i < 3 {
        if i < 1 {
         Table::row(-2458170504, 5400, 0, "+0130")
        } else {
         if i < 2 {
          Table::row(-2109288600, 7200, 0, "SAST")
         } else {
          Table::row(-860976000, 7200, 3600, "SAST")
         }
        }
       } else {
        if i < 4 {
         Table::row(-845254800, 7200, 0, "SAST")
        } else {
         if i < 5 {
          Table::row(637970400, 7200, 0, "CAT")
         } else {
          Table::row(764200800, 0, 3600, "WAT")
         }
        }
       }
      } else {
       if i < 9 {
        if i < 7 {
         Table::row(778640400, 7200, 0, "CAT")
        } else {
         if i < 8 {
          Table::row(796780800, 0, 3600, "WAT")
         } else {
          Table::row(810090000, 7200, 0, "CAT")
         }
        }
       } else {
        if i < 11 {
         if i < 10 {
          Table::row(828835200, 0, 3600, "WAT")
         } else {
          Table::row(841539600, 7200, 0, "CAT")
         }
        } else {
         if i < 12 {
          Table::row(860284800, 0, 3600, "WAT")
         } else {
          Table::row(873594000, 7200, 0, "CAT")
         }
        }
       }
      }
     } else {
      if i < 19 {
       if i < 16 {
        if i < 14 {
         Table::row(891734400, 0, 3600, "WAT")
        } else {
         if i < 15 {
          Table::row(905043600, 7200, 0, "CAT")
         } else {
          Table::row(923184000, 0, 3600, "WAT")
         }
        }
       } else {
        if i < 17 {
         Table::row(936493200, 7200, 0, "CAT")
        } else {
         if i < 18 {
          Table::row(954633600, 0, 3600, "WAT")
         } else {
          Table::row(967942800, 7200, 0, "CAT")
         }
        }
       }
      } else {
       if i < 22 {
        if i < 20 {
         Table::row(986083200, 0, 3600, "WAT")
        } else {
         if i < 21 {
          Table::row(999392400, 7200, 0, "CAT")
         } else {
          Table::row(1018137600, 0, 3600, "WAT")
         }
        }
       } else {
        if i < 24 {
         if i < 23 {
          Table::row(1030842000, 7200, 0, "CAT")
         } else {
          Table::row(1049587200, 0, 3600, "WAT")
         }
        } else {
         if i < 25 {
          Table::row(1062896400, 7200, 0, "CAT")
         } else {
          Table::row(1081036800, 0, 3600, "WAT")
         }
        }
       }
      }
     }
    } else {
     if i < 39 {
      if i < 32 {
       if i < 29 {
        if i < 27 {
         Table::row(1094346000, 7200, 0, "CAT")
        } else {
         if i < 28 {
          Table::row(1112486400, 0, 3600, "WAT")
         } else {
          Table::row(1125795600, 7200, 0, "CAT")
         }
        }
       } else {
        if i < 30 {
         Table::row(1143936000, 0, 3600, "WAT")
        } else {
         if i < 31 {
          Table::row(1157245200, 7200, 0, "CAT")
         } else {
          Table::row(1175385600, 0, 3600, "WAT")
         }
        }
       }
      } else {
       if i < 35 {
        if i < 33 {
         Table::row(1188694800, 7200, 0, "CAT")
        } else {
         if i < 34 {
          Table::row(1207440000, 0, 3600, "WAT")
         } else {
          Table::row(1220749200, 7200, 0, "CAT")
         }
        }
       } else {
        if i < 37 {
         if i < 36 {
          Table::row(1238889600, 0, 3600, "WAT")
         } else {
          Table::row(1252198800, 7200, 0, "CAT")
         }
        } else {
         if i < 38 {
          Table::row(1270339200, 0, 3600, "WAT")
         } else {
          Table::row(1283648400, 7200, 0, "CAT")
         }
        }
       }
      }
     } else {
      if i < 46 {
       if i < 42 {
        if i < 40 {
         Table::row(1301788800, 0, 3600, "WAT")
        } else {
         if i < 41 {
          Table::row(1315098000, 7200, 0, "CAT")
         } else {
          Table::row(1333238400, 0, 3600, "WAT")
         }
        }
       } else {
        if i < 44 {
         if i < 43 {
          Table::row(1346547600, 7200, 0, "CAT")
         } else {
          Table::row(1365292800, 0, 3600, "WAT")
         }
        } else {
         if i < 45 {
          Table::row(1377997200, 7200, 0, "CAT")
         } else {
          Table::row(1396742400, 0, 3600, "WAT")
         }
        }
       }
      } else {
       if i < 49 {
        if i < 47 {
         Table::row(1410051600, 7200, 0, "CAT")
        } else {
         if i < 48 {
          Table::row(1428192000, 0, 3600, "WAT")
         } else {
          Table::row(1441501200, 7200, 0, "CAT")
         }
        }
       } else {
        if i < 51 {
         if i < 50 {
          Table::row(1459641600, 0, 3600, "WAT")
         } else {
          Table::row(1472950800, 7200, 0, "CAT")
         }
        } else {
         if i < 52 {
          Table::row(1491091200, 0, 3600, "WAT")
         } else {
          Table::row(1504400400, 7200, 0, "CAT")
         }
        }
       }
      }
     }
    }
}

/// The rows of the table of the zone `Africa/Windhoek`.
pub open spec fn windhoek_rows() -> spec_fn(int) -> (i64, FixedTimespan) {
    |i: int| windhoek_row(i)
}

/// The table of the zone `Africa/Windhoek`.
pub open spec fn windhoek() -> Table {
    Table::listed(Table::row(0, 4104, 0, "LMT").1, 53, windhoek_rows())
}

} // verus!
