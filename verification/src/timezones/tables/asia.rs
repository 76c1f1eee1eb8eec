//! The tables of the zones of Asia.

use crate::timezone_impl::{FixedTimespan, Table};
use vstd::prelude::*;

verus! {

/// Row `i` of the table of the zone `Asia/Aden`.
pub open spec fn aden_row(i: int) -> (i64, FixedTimespan) {
    if i < 1 {
     Table::row(-631162794, 10800, 0, "+03")
    } else {
     Table::row(2147483647, 10800, 0, "+03")
    }
}

/// The rows of the table of the zone `Asia/Aden`.
pub open spec fn aden_rows() -> spec_fn(int) -> (i64, FixedTimespan) {
    |i: int| aden_row(i)
}

/// The table of the zone `Asia/Aden`.
pub open spec fn aden() -> Table {
    Table::listed(Table::row(0, 10794, 0, "LMT").1, 2, aden_rows())
}

/// Row `i` of the table of the zone `Asia/Almaty`.
pub open spec fn almaty_row(i: int) -> (i64, FixedTimespan) {
    if i < 26 {
     if i < 13 {
      if i < 6 {
       if i < 3 {
        if i < 1 {
         Table::row(-1441170468, 18000, 0, "+05")
        } else {
         if i < 2 {
          Table::row(-1247547600, 21600, 0, "+06")
         } else {
          Table::row(354909600, 21600, 3600, "+07")
         }
        }
       } else {
        if i < 4 {
         Table::row(370717200, 21600, 0, "+06")
        } else {
         if i < 5 {
          Table::row(386445600, 21600, 3600, "+07")
         } else {
          Table::row(402253200, 21600, 0, "+06")
         }
        }
       }
      } else {
       if i < 9 {
        if i < 7 {
         Table::row(417981600, 21600, 3600, "+07")
        } else {
         if i < 8 {
          Table::row(433789200, 21600, 0, "+06")
         } else {
          Table::row(449604000, 21600, 3600, "+07")
         }
        }
       } else {
        if i < 11 {
         if i < 10 {
          Table::row(465336000, 21600, 0, "+06")
         } else {
          Table::row(481060800, 21600, 3600, "+07")
         }
        } else {
         if i < 12 {
          Table::row(496785600, 21600, 0, "+06")
         } else {
          Table::row(512510400, 21600, 3600, "+07")
         }
        }
       }
      }
     } else {
      if i < 19 {
       if i < 16 {
        if i < 14 {
         Table::row(528235200, 21600, 0, "+06")
        } else {
         if i < 15 {
          Table::row(543960000, 21600, 3600, "+07")
         } else {
          Table::row(559684800, 21600, 0, "+06")
         }
        }
       } else {
        if i < 17 {
         Table::row(575409600, 21600, 3600, "+07")
        } else {
         if i < 18 {
          Table::row(591134400, 21600, 0, "+06")
         } else {
          Table::row(606859200, 21600, 3600, "+07")
         }
        }
       }
      } else {
       if i < 22 {
        if i < 20 {
         Table::row(622584000, 21600, 0, "+06")
        } else {
         if i < 21 {
          Table::row(638308800, 21600, 3600, "+07")
         } else {
          Table::row(654638400, 21600, 0, "+06")
         }
        }
       } else {
        if i < 24 {
         if i < 23 {
          Table::row(670363200, 18000, 3600, "+06")
         } else {
          Table::row(686091600, 18000, 0, "+05")
         }
        } else {
         if i < 25 {
          Table::row(695768400, 21600, 0, "+06")
         } else {
          Table::row(701812800, 21600, 3600, "+07")
         }
        }
       }
      }
     }
    } else {
     if i < 39 {
      if i < 32 {
       if i < 29 {
        if i < 27 {
         Table::row(717537600, 21600, 0, "+06")
        } else {
         if i < 28 {
          Table::row(733262400, 21600, 3600, "+07")
         } else {
          Table::row(748987200, 21600, 0, "+06")
         }
        }
       } else {
        if i < 30 {
         Table::row(764712000, 21600, 3600, "+07")
        } else {
         if i < 31 {
          Table::row(780436800, 21600, 0, "+06")
         } else {
          Table::row(796161600, 21600, 3600, "+07")
         }
        }
       }
      } else {
       if i < 35 {
        if i < 33 {
         Table::row(811886400, 21600, 0, "+06")
        } else {
         if i < 34 {
          Table::row(828216000, 21600, 3600, "+07")
         } else {
          Table::row(846360000, 21600, 0, "+06")
         }
        }
       } else {
        if i < 37 {
         if i < 36 {
          Table::row(859665600, 21600, 3600, "+07")
         } else {
          Table::row(877809600, 21600, 0, "+06")
         }
        } else {
         if i < 38 {
          Table::row(891115200, 21600, 3600, "+07")
         } else {
          Table::row(909259200, 21600, 0, "+06")
         }
        }
       }
      }
     } else {
      if i < 46 {
       if i < 42 {
        if i < 40 {
         Table::row(922564800, 21600, 3600, "+07")
        } else {
         if i < 41 {
          Table::row(941313600, 21600, 0, "+06")
         } else {
          Table::row(954014400, 21600, 3600, "+07")
         }
        }
       } else {
        if i < 44 {
         if i < 43 {
          Table::row(972763200, 21600, 0, "+06")
         } else {
          Table::row(985464000, 21600, 3600, "+07")
         }
        } else {
         if i < 45 {
          Table::row(1004212800, 21600, 0, "+06")
         } else {
          Table::row(1017518400, 21600, 3600, "+07")
         }
        }
       }
      } else {
       if i < 49 {
        if i < 47 {
         Table::row(1035662400, 21600, 0, "+06")
        } else {
         if i < 48 {
          Table::row(1048968000, 21600, 3600, "+07")
         } else {
          Table::row(1067112000, 21600, 0, "+06")
         }
        }
       } else {
        if i < 51 {
         if i < 50 {
          Table::row(1080417600, 21600, 3600, "+07")
         } else {
          Table::row(1099166400, 21600, 0, "+06")
         }
        } else {
         if i < 52 {
          Table::row(1709229600, 18000, 0, "+05")
         } else {
          Table::row(2147483647, 18000, 0, "+05")
         }
        }
       }
      }
     }
    }
}

/// The rows of the table of the zone `Asia/Almaty`.
pub open spec fn almaty_rows() -> spec_fn(int) -> (i64, FixedTimespan) {
    |i: int| almaty_row(i)
}

/// The table of the zone `Asia/Almaty`.
pub open spec fn almaty() -> Table {
    Table::listed(Table::row(0, 18468, 0, "LMT").1, 53, almaty_rows())
}

/// Row `i` of the table of the zone `Asia/Amman`.
pub open spec fn amman_row(i: int) -> (i64, FixedTimespan) {
    if i < 44 {
     if i < 22 {
      if i < 11 {
       if i < 5 {
        if i < 2 {
         if i < 1 {
          Table::row(-1230776624, 7200, 0, "EET")
         } else {
          Table::row(108165600, 7200, 3600, "EEST")
         }
        } else {
         if i < 3 {
          Table::row(118270800, 7200, 0, "EET")
         } else {
          if i < 4 {
           Table::row(136591200, 7200, 3600, "EEST")
          } else {
           Table::row(149806800, 7200, 0, "EET")
          }
         }
        }
       } else {
        if i < 8 {
         if i < 6 {
          Table::row(168127200, 7200, 3600, "EEST")
         } else {
          if i < 7 {
           Table::row(181342800, 7200, 0, "EET")
          } else {
           Table::row(199749600, 7200, 3600, "EEST")
          }
         }
        } else {
         if i < 9 {
          Table::row(215643600, 7200, 0, "EET")
         } else {
          if i < 10 {
           Table::row(231285600, 7200, 3600, "EEST")
          } else {
           Table::row(244501200, 7200, 0, "EET")
          }
         }
        }
       }
      } else {
       if i < 16 {
        if i < 13 {
         if i < 12 {
          Table::row(262735200, 7200, 3600, "EEST")
         } else {
          Table::row(275950800, 7200, 0, "EET")
         }
        } else {
         if i < 14 {
          Table::row(481154400, 7200, 3600, "EEST")
         } else {
          if i < 15 {
           Table::row(496962000, 7200, 0, "EET")
          } else {
           Table::row(512949600, 7200, 3600, "EEST")
          }
         }
        }
       } else {
        if i < 19 {
         if i < 17 {
          Table::row(528670800, 7200, 0, "EET")
         } else {
          if i < 18 {
           Table::row(544399200, 7200, 3600, "EEST")
          } else {
           Table::row(560120400, 7200, 0, "EET")
          }
         }
        } else {
         if i < 20 {
          Table::row(575848800, 7200, 3600, "EEST")
         } else {
          if i < 21 {
           Table::row(592174800, 7200, 0, "EET")
          } else {
           Table::row(610581600, 7200, 3600, "EEST")
          }
         }
        }
       }
      }
     } else {
      if i < 33 {
       if i < 27 {
        if i < 24 {
         if i < 23 {
          Table::row(623624400, 7200, 0, "EET")
         } else {
          Table::row(641167200, 7200, 3600, "EEST")
         }
        } else {
         if i < 25 {
          Table::row(655074000, 7200, 0, "EET")
         } else {
          if i < 26 {
           Table::row(671839200, 7200, 3600, "EEST")
          } else {
           Table::row(685918800, 7200, 0, "EET")
          }
         }
        }
       } else {
        if i < 30 {
         if i < 28 {
          Table::row(702856800, 7200, 3600, "EEST")
         } else {
          if i < 29 {
           Table::row(717973200, 7200, 0, "EET")
          } else {
           Table::row(733701600, 7200, 3600, "EEST")
          }
         }
        } else {
         if i < 31 {
          Table::row(749422800, 7200, 0, "EET")
         } else {
          if i < 32 {
           Table::row(765151200, 7200, 3600, "EEST")
          } else {
           Table::row(779662800, 7200, 0, "EET")
          }
         }
        }
       }
      } else {
       if i < 38 {
        if i < 35 {
         if i < 34 {
          Table::row(797205600, 7200, 3600, "EEST")
         } else {
          Table::row(811116000, 7200, 0, "EET")
         }
        } else {
         if i < 36 {
          Table::row(828655200, 7200, 3600, "EEST")
         } else {
          if i < 37 {
           Table::row(843170400, 7200, 0, "EET")
          } else {
           Table::row(860104800, 7200, 3600, "EEST")
          }
         }
        }
       } else {
        if i < 41 {
         if i < 39 {
          Table::row(874620000, 7200, 0, "EET")
         } else {
          if i < 40 {
           Table::row(891554400, 7200, 3600, "EEST")
          } else {
           Table::row(906069600, 7200, 0, "EET")
          }
         }
        } else {
         if i < 42 {
          Table::row(930780000, 7200, 3600, "EEST")
         } else {
          if i < 43 {
           Table::row(938124000, 7200, 0, "EET")
          } else {
           Table::row(954367200, 7200, 3600, "EEST")
          }
         }
        }
       }
      }
     }
    } else {
     if i < 66 {
      if i < 55 {
       if i < 49 {
        if i < 46 {
         if i < 45 {
          Table::row(970178400, 7200, 0, "EET")
         } else {
          Table::row(985816800, 7200, 3600, "EEST")
         }
        } else {
         if i < 47 {
          Table::row(1001628000, 7200, 0, "EET")
         } else {
          if i < 48 {
           Table::row(1017352800, 7200, 3600, "EEST")
          } else {
           Table::row(1033077600, 7200, 0, "EET")
          }
         }
        }
       } else {
        if i < 52 {
         if i < 50 {
          Table::row(1048802400, 7200, 3600, "EEST")
         } else {
          if i < 51 {
           Table::row(1066946400, 7200, 0, "EET")
          } else {
           Table::row(1080252000, 7200, 3600, "EEST")
          }
         }
        } else {
         if i < 53 {
          Table::row(1097791200, 7200, 0, "EET")
         } else {
          if i < 54 {
           Table::row(1112306400, 7200, 3600, "EEST")
          } else {
           Table::row(1128031200, 7200, 0, "EET")
          }
         }
        }
       }
      } else {
       if i < 60 {
        if i < 57 {
         if i < 56 {
          Table::row(1143756000, 7200, 3600, "EEST")
         } else {
          Table::row(1161900000, 7200, 0, "EET")
         }
        } else {
         if i < 58 {
          Table::row(1175205600, 7200, 3600, "EEST")
         } else {
          if i < 59 {
           Table::row(1193349600, 7200, 0, "EET")
          } else {
           Table::row(1206655200, 7200, 3600, "EEST")
          }
         }
        }
       } else {
        if i < 63 {
         if i < 61 {
          Table::row(1225404000, 7200, 0, "EET")
         } else {
          if i < 62 {
           Table::row(1238104800, 7200, 3600, "EEST")
          } else {
           Table::row(1256853600, 7200, 0, "EET")
          }
         }
        } else {
         if i < 64 {
          Table::row(1269554400, 7200, 3600, "EEST")
         } else {
          if i < 65 {
           Table::row(1288303200, 7200, 0, "EET")
          } else {
           Table::row(1301608800, 7200, 3600, "EEST")
          }
         }
        }
       }
      }
     } else {
      if i < 77 {
       if i < 71 {
        if i < 68 {
         if i < 67 {
          Table::row(1319752800, 7200, 0, "EET")
         } else {
          Table::row(1333058400, 7200, 3600, "EEST")
         }
        } else {
         if i < 69 {
          Table::row(1387486800, 7200, 0, "EET")
         } else {
          if i < 70 {
           Table::row(1395957600, 7200, 3600, "EEST")
          } else {
           Table::row(1414706400, 7200, 0, "EET")
          }
         }
        }
       } else {
        if i < 74 {
         if i < 72 {
          Table::row(1427407200, 7200, 3600, "EEST")
         } else {
          if i < 73 {
           Table::row(1446156000, 7200, 0, "EET")
          } else {
           Table::row(1459461600, 7200, 3600, "EEST")
          }
         }
        } else {
         if i < 75 {
          Table::row(1477605600, 7200, 0, "EET")
         } else {
          if i < 76 {
           Table::row(1490911200, 7200, 3600, "EEST")
          } else {
           Table::row(1509055200, 7200, 0, "EET")
          }
         }
        }
       }
      } else {
       if i < 82 {
        if i < 79 {
         if i < 78 {
          Table::row(1522360800, 7200, 3600, "EEST")
         } else {
          Table::row(1540504800, 7200, 0, "EET")
         }
        } else {
         if i < 80 {
          Table::row(1553810400, 7200, 3600, "EEST")
         } else {
          if i < 81 {
           Table::row(1571954400, 7200, 0, "EET")
          } else {
           Table::row(1585260000, 7200, 3600, "EEST")
          }
         }
        }
       } else {
        if i < 85 {
         if i < 83 {
          Table::row(1604008800, 7200, 0, "EET")
         } else {
          if i < 84 {
           Table::row(1616709600, 7200, 3600, "EEST")
          } else {
           Table::row(1635458400, 7200, 0, "EET")
          }
         }
        } else {
         if i < 86 {
          Table::row(1645740000, 7200, 3600, "EEST")
         } else {
          if i < 87 {
           Table::row(1666908000, 10800, 0, "+03")
          } else {
           Table::row(2147483647, 10800, 0, "+03")
          }
         }
        }
       }
      }
     }
    }
}

/// The rows of the table of the zone `Asia/Amman`.
pub open spec fn amman_rows() -> spec_fn(int) -> (i64, FixedTimespan) {
    |i: int| amman_row(i)
}

/// The table of the zone `Asia/Amman`.
pub open spec fn amman() -> Table {
    Table::listed(Table::row(0, 8624, 0, "LMT").1, 88, amman_rows())
}

/// Row `i` of the table of the zone `Asia/Anadyr`.
pub open spec fn anadyr_row(i: int) -> (i64, FixedTimespan) {
    if i < 32 {
     if i < 16 {
      if i < 8 {
       if i < 4 {
        if i < 2 {
         if i < 1 {
          Table::row(-1441194596, 43200, 0, "+12")
         } else {
          Table::row(-1247572800, 46800, 0, "+13")
         }
        } else {
         if i < 3 {
          Table::row(354884400, 46800, 3600, "+14")
         } else {
          Table::row(370692000, 46800, 0, "+13")
         }
        }
       } else {
        if i < 6 {
         if i < 5 {
          Table::row(386420400, 43200, 3600, "+13")
         } else {
          Table::row(402231600, 43200, 0, "+12")
         }
        } else {
         if i < 7 {
          Table::row(417960000, 43200, 3600, "+13")
         } else {
          Table::row(433767600, 43200, 0, "+12")
         }
        }
       }
      } else {
       if i < 12 {
        if i < 10 {
         if i < 9 {
          Table::row(449582400, 43200, 3600, "+13")
         } else {
          Table::row(465314400, 43200, 0, "+12")
         }
        } else {
         if i < 11 {
          Table::row(481039200, 43200, 3600, "+13")
         } else {
          Table::row(496764000, 43200, 0, "+12")
         }
        }
       } else {
        if i < 14 {
         if i < 13 {
          Table::row(512488800, 43200, 3600, "+13")
         } else {
          Table::row(528213600, 43200, 0, "+12")
         }
        } else {
         if i < 15 {
          Table::row(543938400, 43200, 3600, "+13")
         } else {
          Table::row(559663200, 43200, 0, "+12")
         }
        }
       }
      }
     } else {
      if i < 24 {
       if i < 20 {
        if i < 18 {
         if i < 17 {
          Table::row(575388000, 43200, 3600, "+13")
         } else {
          Table::row(591112800, 43200, 0, "+12")
         }
        } else {
         if i < 19 {
          Table::row(606837600, 43200, 3600, "+13")
         } else {
          Table::row(622562400, 43200, 0, "+12")
         }
        }
       } else {
        if i < 22 {
         if i < 21 {
          Table::row(638287200, 43200, 3600, "+13")
         } else {
          Table::row(654616800, 43200, 0, "+12")
         }
        } else {
         if i < 23 {
          Table::row(670341600, 39600, 3600, "+12")
         } else {
          Table::row(686070000, 39600, 0, "+11")
         }
        }
       }
      } else {
       if i < 28 {
        if i < 26 {
         if i < 25 {
          Table::row(695746800, 43200, 0, "+12")
         } else {
          Table::row(701791200, 43200, 3600, "+13")
         }
        } else {
         if i < 27 {
          Table::row(717516000, 43200, 0, "+12")
         } else {
          Table::row(733240800, 43200, 3600, "+13")
         }
        }
       } else {
        if i < 30 {
         if i < 29 {
          Table::row(748965600, 43200, 0, "+12")
         } else {
          Table::row(764690400, 43200, 3600, "+13")
         }
        } else {
         if i < 31 {
          Table::row(780415200, 43200, 0, "+12")
         } else {
          Table::row(796140000, 43200, 3600, "+13")
         }
        }
       }
      }
     }
    } else {
     if i < 48 {
      if i < 40 {
       if i < 36 {
        if i < 34 {
         if i < 33 {
          Table::row(811864800, 43200, 0, "+12")
         } else {
          Table::row(828194400, 43200, 3600, "+13")
         }
        } else {
         if i < 35 {
          Table::row(846338400, 43200, 0, "+12")
         } else {
          Table::row(859644000, 43200, 3600, "+13")
         }
        }
       } else {
        if i < 38 {
         if i < 37 {
          Table::row(877788000, 43200, 0, "+12")
         } else {
          Table::row(891093600, 43200, 3600, "+13")
         }
        } else {
         if i < 39 {
          Table::row(909237600, 43200, 0, "+12")
         } else {
          Table::row(922543200, 43200, 3600, "+13")
         }
        }
       }
      } else {
       if i < 44 {
        if i < 42 {
         if i < 41 {
          Table::row(941292000, 43200, 0, "+12")
         } else {
          Table::row(953992800, 43200, 3600, "+13")
         }
        } else {
         if i < 43 {
          Table::row(972741600, 43200, 0, "+12")
         } else {
          Table::row(985442400, 43200, 3600, "+13")
         }
        }
       } else {
        if i < 46 {
         if i < 45 {
          Table::row(1004191200, 43200, 0, "+12")
         } else {
          Table::row(1017496800, 43200, 3600, "+13")
         }
        } else {
         if i < 47 {
          Table::row(1035640800, 43200, 0, "+12")
         } else {
          Table::row(1048946400, 43200, 3600, "+13")
         }
        }
       }
      }
     } else {
      if i < 56 {
       if i < 52 {
        if i < 50 {
         if i < 49 {
          Table::row(1067090400, 43200, 0, "+12")
         } else {
          Table::row(1080396000, 43200, 3600, "+13")
         }
        } else {
         if i < 51 {
          Table::row(1099144800, 43200, 0, "+12")
         } else {
          Table::row(1111845600, 43200, 3600, "+13")
         }
        }
       } else {
        if i < 54 {
         if i < 53 {
          Table::row(1130594400, 43200, 0, "+12")
         } else {
          Table::row(1143295200, 43200, 3600, "+13")
         }
        } else {
         if i < 55 {
          Table::row(1162044000, 43200, 0, "+12")
         } else {
          Table::row(1174744800, 43200, 3600, "+13")
         }
        }
       }
      } else {
       if i < 60 {
        if i < 58 {
         if i < 57 {
          Table::row(1193493600, 43200, 0, "+12")
         } else {
          Table::row(1206799200, 43200, 3600, "+13")
         }
        } else {
         if i < 59 {
          Table::row(1224943200, 43200, 0, "+12")
         } else {
          Table::row(1238248800, 43200, 3600, "+13")
         }
        }
       } else {
        if i < 62 {
         if i < 61 {
          Table::row(1256392800, 43200, 0, "+12")
         } else {
          Table::row(1269698400, 39600, 3600, "+12")
         }
        } else {
         if i < 63 {
          Table::row(1288450800, 39600, 0, "+11")
         } else {
          if i < 64 {
           Table::row(1301151600, 43200, 0, "+12")
          } else {
           Table::row(2147483647, 43200, 0, "+12")
          }
         }
        }
       }
      }
     }
    }
}

/// The rows of the table of the zone `Asia/Anadyr`.
pub open spec fn anadyr_rows() -> spec_fn(int) -> (i64, FixedTimespan) {
    |i: int| anadyr_row(i)
}

/// The table of the zone `Asia/Anadyr`.
pub open spec fn anadyr() -> Table {
    Table::listed(Table::row(0, 42596, 0, "LMT").1, 65, anadyr_rows())
}

/// Row `i` of the table of the zone `Asia/Aqtau`.
pub open spec fn aqtau_row(i: int) -> (i64, FixedTimespan) {
    if i < 25 {
     if i < 12 {
      if i < 6 {
       if i < 3 {
        if i < 1 {
         Table::row(-1441164064, 14400, 0, "+04")
        } else {
         if i < 2 {
          Table::row(-1247544000, 18000, 0, "+05")
         } else {
          Table::row(370724400, 21600, 0, "+06")
         }
        }
       } else {
        if i < 4 {
         Table::row(386445600, 18000, 3600, "+06")
        } else {
         if i < 5 {
          Table::row(402256800, 18000, 0, "+05")
         } else {
          Table::row(417985200, 18000, 3600, "+06")
         }
        }
       }
      } else {
       if i < 9 {
        if i < 7 {
         Table::row(433792800, 18000, 0, "+05")
        } else {
         if i < 8 {
          Table::row(449607600, 18000, 3600, "+06")
         } else {
          Table::row(465339600, 18000, 0, "+05")
         }
        }
       } else {
        if i < 10 {
         Table::row(481064400, 18000, 3600, "+06")
        } else {
         if i < 11 {
          Table::row(496789200, 18000, 0, "+05")
         } else {
          Table::row(512514000, 18000, 3600, "+06")
         }
        }
       }
      }
     } else {
      if i < 18 {
       if i < 15 {
        if i < 13 {
         Table::row(528238800, 18000, 0, "+05")
        } else {
         if i < 14 {
          Table::row(543963600, 18000, 3600, "+06")
         } else {
          Table::row(559688400, 18000, 0, "+05")
         }
        }
       } else {
        if i < 16 {
         Table::row(575413200, 18000, 3600, "+06")
        } else {
         if i < 17 {
          Table::row(591138000, 18000, 0, "+05")
         } else {
          Table::row(606862800, 18000, 3600, "+06")
         }
        }
       }
      } else {
       if i < 21 {
        if i < 19 {
         Table::row(622587600, 18000, 0, "+05")
        } else {
         if i < 20 {
          Table::row(638312400, 18000, 3600, "+06")
         } else {
          Table::row(654642000, 18000, 0, "+05")
         }
        }
       } else {
        if i < 23 {
         if i < 22 {
          Table::row(670366800, 14400, 3600, "+05")
         } else {
          Table::row(686095200, 14400, 0, "+04")
         }
        } else {
         if i < 24 {
          Table::row(695772000, 18000, 0, "+05")
         } else {
          Table::row(701816400, 18000, 3600, "+06")
         }
        }
       }
      }
     }
    } else {
     if i < 38 {
      if i < 31 {
       if i < 28 {
        if i < 26 {
         Table::row(717541200, 18000, 0, "+05")
        } else {
         if i < 27 {
          Table::row(733266000, 18000, 3600, "+06")
         } else {
          Table::row(748990800, 18000, 0, "+05")
         }
        }
       } else {
        if i < 29 {
         Table::row(764715600, 18000, 3600, "+06")
        } else {
         if i < 30 {
          Table::row(780440400, 14400, 0, "+04")
         } else {
          Table::row(796168800, 14400, 3600, "+05")
         }
        }
       }
      } else {
       if i < 34 {
        if i < 32 {
         Table::row(811893600, 14400, 0, "+04")
        } else {
         if i < 33 {
          Table::row(828223200, 14400, 3600, "+05")
         } else {
          Table::row(846367200, 14400, 0, "+04")
         }
        }
       } else {
        if i < 36 {
         if i < 35 {
          Table::row(859672800, 14400, 3600, "+05")
         } else {
          Table::row(877816800, 14400, 0, "+04")
         }
        } else {
         if i < 37 {
          Table::row(891122400, 14400, 3600, "+05")
         } else {
          Table::row(909266400, 14400, 0, "+04")
         }
        }
       }
      }
     } else {
      if i < 44 {
       if i < 41 {
        if i < 39 {
         Table::row(922572000, 14400, 3600, "+05")
        } else {
         if i < 40 {
          Table::row(941320800, 14400, 0, "+04")
         } else {
          Table::row(954021600, 14400, 3600, "+05")
         }
        }
       } else {
        if i < 42 {
         Table::row(972770400, 14400, 0, "+04")
        } else {
         if i < 43 {
          Table::row(985471200, 14400, 3600, "+05")
         } else {
          Table::row(1004220000, 14400, 0, "+04")
         }
        }
       }
      } else {
       if i < 47 {
        if i < 45 {
         Table::row(1017525600, 14400, 3600, "+05")
        } else {
         if i < 46 {
          Table::row(1035669600, 14400, 0, "+04")
         } else {
          Table::row(1048975200, 14400, 3600, "+05")
         }
        }
       } else {
        if i < 49 {
         if i < 48 {
          Table::row(1067119200, 14400, 0, "+04")
         } else {
          Table::row(1080424800, 14400, 3600, "+05")
         }
        } else {
         if i < 50 {
          Table::row(1099173600, 18000, 0, "+05")
         } else {
          Table::row(2147483647, 18000, 0, "+05")
         }
        }
       }
      }
     }
    }
}

/// The rows of the table of the zone `Asia/Aqtau`.
pub open spec fn aqtau_rows() -> spec_fn(int) -> (i64, FixedTimespan) {
    |i: int| aqtau_row(i)
}

/// The table of the zone `Asia/Aqtau`.
pub open spec fn aqtau() -> Table {
    Table::listed(Table::row(0, 12064, 0, "LMT").1, 51, aqtau_rows())
}

/// Row `i` of the table of the zone `Asia/Aqtobe`.
pub open spec fn aqtobe_row(i: int) -> (i64, FixedTimespan) {
    if i < 26 {
     if i < 13 {
      if i < 6 {
       if i < 3 {
        if i < 1 {
         Table::row(-1441165720, 14400, 0, "+04")
        } else {
         if i < 2 {
          Table::row(-1247544000, 18000, 0, "+05")
         } else {
          Table::row(354913200, 18000, 3600, "+06")
         }
        }
       } else {
        if i < 4 {
         Table::row(370720800, 21600, 0, "+06")
        } else {
         if i < 5 {
          Table::row(386445600, 18000, 3600, "+06")
         } else {
          Table::row(402256800, 18000, 0, "+05")
         }
        }
       }
      } else {
       if i < 9 {
        if i < 7 {
         Table::row(417985200, 18000, 3600, "+06")
        } else {
         if i < 8 {
          Table::row(433792800, 18000, 0, "+05")
         } else {
          Table::row(449607600, 18000, 3600, "+06")
         }
        }
       } else {
        if i < 11 {
         if i < 10 {
          Table::row(465339600, 18000, 0, "+05")
         } else {
          Table::row(481064400, 18000, 3600, "+06")
         }
        } else {
         if i < 12 {
          Table::row(496789200, 18000, 0, "+05")
         } else {
          Table::row(512514000, 18000, 3600, "+06")
         }
        }
       }
      }
     } else {
      if i < 19 {
       if i < 16 {
        if i < 14 {
         Table::row(528238800, 18000, 0, "+05")
        } else {
         if i < 15 {
          Table::row(543963600, 18000, 3600, "+06")
         } else {
          Table::row(559688400, 18000, 0, "+05")
         }
        }
       } else {
        if i < 17 {
         Table::row(575413200, 18000, 3600, "+06")
        } else {
         if i < 18 {
          Table::row(591138000, 18000, 0, "+05")
         } else {
          Table::row(606862800, 18000, 3600, "+06")
         }
        }
       }
      } else {
       if i < 22 {
        if i < 20 {
         Table::row(622587600, 18000, 0, "+05")
        } else {
         if i < 21 {
          Table::row(638312400, 18000, 3600, "+06")
         } else {
          Table::row(654642000, 18000, 0, "+05")
         }
        }
       } else {
        if i < 24 {
         if i < 23 {
          Table::row(670366800, 14400, 3600, "+05")
         } else {
          Table::row(686095200, 14400, 0, "+04")
         }
        } else {
         if i < 25 {
          Table::row(695772000, 18000, 0, "+05")
         } else {
          Table::row(701816400, 18000, 3600, "+06")
         }
        }
       }
      }
     }
    } else {
     if i < 39 {
      if i < 32 {
       if i < 29 {
        if i < 27 {
         Table::row(717541200, 18000, 0, "+05")
        } else {
         if i < 28 {
          Table::row(733266000, 18000, 3600, "+06")
         } else {
          Table::row(748990800, 18000, 0, "+05")
         }
        }
       } else {
        if i < 30 {
         Table::row(764715600, 18000, 3600, "+06")
        } else {
         if i < 31 {
          Table::row(780440400, 18000, 0, "+05")
         } else {
          Table::row(796165200, 18000, 3600, "+06")
         }
        }
       }
      } else {
       if i < 35 {
        if i < 33 {
         Table::row(811890000, 18000, 0, "+05")
        } else {
         if i < 34 {
          Table::row(828219600, 18000, 3600, "+06")
         } else {
          Table::row(846363600, 18000, 0, "+05")
         }
        }
       } else {
        if i < 37 {
         if i < 36 {
          Table::row(859669200, 18000, 3600, "+06")
         } else {
          Table::row(877813200, 18000, 0, "+05")
         }
        } else {
         if i < 38 {
          Table::row(891118800, 18000, 3600, "+06")
         } else {
          Table::row(909262800, 18000, 0, "+05")
         }
        }
       }
      }
     } else {
      if i < 45 {
       if i < 42 {
        if i < 40 {
         Table::row(922568400, 18000, 3600, "+06")
        } else {
         if i < 41 {
          Table::row(941317200, 18000, 0, "+05")
         } else {
          Table::row(954018000, 18000, 3600, "+06")
         }
        }
       } else {
        if i < 43 {
         Table::row(972766800, 18000, 0, "+05")
        } else {
         if i < 44 {
          Table::row(985467600, 18000, 3600, "+06")
         } else {
          Table::row(1004216400, 18000, 0, "+05")
         }
        }
       }
      } else {
       if i < 48 {
        if i < 46 {
         Table::row(1017522000, 18000, 3600, "+06")
        } else {
         if i < 47 {
          Table::row(1035666000, 18000, 0, "+05")
         } else {
          Table::row(1048971600, 18000, 3600, "+06")
         }
        }
       } else {
        if i < 50 {
         if i < 49 {
          Table::row(1067115600, 18000, 0, "+05")
         } else {
          Table::row(1080421200, 18000, 3600, "+06")
         }
        } else {
         if i < 51 {
          Table::row(1099170000, 18000, 0, "+05")
         } else {
          Table::row(2147483647, 18000, 0, "+05")
         }
        }
       }
      }
     }
    }
}

/// The rows of the table of the zone `Asia/Aqtobe`.
pub open spec fn aqtobe_rows() -> spec_fn(int) -> (i64, FixedTimespan) {
    |i: int| aqtobe_row(i)
}

/// The table of the zone `Asia/Aqtobe`.
pub open spec fn aqtobe() -> Table {
    Table::listed(Table::row(0, 13720, 0, "LMT").1, 52, aqtobe_rows())
}

/// Row `i` of the table of the zone `Asia/Ashgabat`.
pub open spec fn ashgabat_row(i: int) -> (i64, FixedTimespan) {
    if i < 13 {
     if i < 6 {
      if i < 3 {
       if i < 1 {
        Table::row(-1441166012, 14400, 0, "+04")
       } else {
        if i < 2 {
         Table::row(-1247544000, 18000, 0, "+05")
        } else {
         Table::row(354913200, 18000, 3600, "+06")
        }
       }
      } else {
       if i < 4 {
        Table::row(370720800, 18000, 0, "+05")
       } else {
        if i < 5 {
         Table::row(386449200, 18000, 3600, "+06")
        } else {
         Table::row(402256800, 18000, 0, "+05")
        }
       }
      }
     } else {
      if i < 9 {
       if i < 7 {
        Table::row(417985200, 18000, 3600, "+06")
       } else {
        if i < 8 {
         Table::row(433792800, 18000, 0, "+05")
        } else {
         Table::row(449607600, 18000, 3600, "+06")
        }
       }
      } else {
       if i < 11 {
        if i < 10 {
         Table::row(465339600, 18000, 0, "+05")
        } else {
         Table::row(481064400, 18000, 3600, "+06")
        }
       } else {
        if i < 12 {
         Table::row(496789200, 18000, 0, "+05")
        } else {
         Table::row(512514000, 18000, 3600, "+06")
        }
       }
      }
     }
    } else {
     if i < 19 {
      if i < 16 {
       if i < 14 {
        Table::row(528238800, 18000, 0, "+05")
       } else {
        if i < 15 {
         Table::row(543963600, 18000, 3600, "+06")
        } else {
         Table::row(559688400, 18000, 0, "+05")
        }
       }
      } else {
       if i < 17 {
        Table::row(575413200, 18000, 3600, "+06")
       } else {
        if i < 18 {
         Table::row(591138000, 18000, 0, "+05")
        } else {
         Table::row(606862800, 18000, 3600, "+06")
        }
       }
      }
     } else {
      if i < 22 {
       if i < 20 {
        Table::row(622587600, 18000, 0, "+05")
       } else {
        if i < 21 {
         Table::row(638312400, 18000, 3600, "+06")
        } else {
         Table::row(654642000, 18000, 0, "+05")
        }
       }
      } else {
       if i < 24 {
        if i < 23 {
         Table::row(670366800, 14400, 3600, "+05")
        } else {
         Table::row(686095200, 14400, 0, "+04")
        }
       } else {
        if i < 25 {
         Table::row(695772000, 18000, 0, "+05")
        } else {
         Table::row(2147483647, 18000, 0, "+05")
        }
       }
      }
     }
    }
}

/// The rows of the table of the zone `Asia/Ashgabat`.
pub open spec fn ashgabat_rows() -> spec_fn(int) -> (i64, FixedTimespan) {
    |i: int| ashgabat_row(i)
}

/// The table of the zone `Asia/Ashgabat`.
pub open spec fn ashgabat() -> Table {
    Table::listed(Table::row(0, 14012, 0, "LMT").1, 26, ashgabat_rows())
}

/// Row `i` of the table of the zone `Asia/Ashkhabad`.
pub open spec fn ashkhabad_row(i: int) -> (i64, FixedTimespan) {
    if i < 13 {
     if i < 6 {
      if i < 3 {
       if i < 1 {
        Table::row(-1441166012, 14400, 0, "+04")
       } else {
        if i < 2 {
         Table::row(-1247544000, 18000, 0, "+05")
        } else {
         Table::row(354913200, 18000, 3600, "+06")
        }
       }
      } else {
       if i < 4 {
        Table::row(370720800, 18000, 0, "+05")
       } else {
        if i < 5 {
         Table::row(386449200, 18000, 3600, "+06")
        } else {
         Table::row(402256800, 18000, 0, "+05")
        }
       }
      }
     } else {
      if i < 9 {
       if i < 7 {
        Table::row(417985200, 18000, 3600, "+06")
       } else {
        if i < 8 {
         Table::row(433792800, 18000, 0, "+05")
        } else {
         Table::row(449607600, 18000, 3600, "+06")
        }
       }
      } else {
       if i < 11 {
        if i < 10 {
         Table::row(465339600, 18000, 0, "+05")
        } else {
         Table::row(481064400, 18000, 3600, "+06")
        }
       } else {
        if i < 12 {
         Table::row(496789200, 18000, 0, "+05")
        } else {
         Table::row(512514000, 18000, 3600, "+06")
        }
       }
      }
     }
    } else {
     if i < 19 {
      if i < 16 {
       if i < 14 {
        Table::row(528238800, 18000, 0, "+05")
       } else {
        if i < 15 {
         Table::row(543963600, 18000, 3600, "+06")
        } else {
         Table::row(559688400, 18000, 0, "+05")
        }
       }
      } else {
       if i < 17 {
        Table::row(575413200, 18000, 3600, "+06")
       } else {
        if i < 18 {
         Table::row(591138000, 18000, 0, "+05")
        } else {
         Table::row(606862800, 18000, 3600, "+06")
        }
       }
      }
     } else {
      if i < 22 {
       if i < 20 {
        Table::row(622587600, 18000, 0, "+05")
       } else {
        if i < 21 {
         Table::row(638312400, 18000, 3600, "+06")
        } else {
         Table::row(654642000, 18000, 0, "+05")
        }
       }
      } else {
       if i < 24 {
        if i < 23 {
         Table::row(670366800, 14400, 3600, "+05")
        } else {
         Table::row(686095200, 14400, 0, "+04")
        }
       } else {
        if i < 25 {
         Table::row(695772000, 18000, 0, "+05")
        } else {
         Table::row(2147483647, 18000, 0, "+05")
        }
       }
      }
     }
    }
}

/// The rows of the table of the zone `Asia/Ashkhabad`.
pub open spec fn ashkhabad_rows() -> spec_fn(int) -> (i64, FixedTimespan) {
    |i: int| ashkhabad_row(i)
}

/// The table of the zone `Asia/Ashkhabad`.
pub open spec fn ashkhabad() -> Table {
    Table::listed(Table::row(0, 14012, 0, "LMT").1, 26, ashkhabad_rows())
}

/// Row `i` of the table of the zone `Asia/Atyrau`.
pub open spec fn atyrau_row(i: int) -> (i64, FixedTimespan) {
    if i < 25 {
     if i < 12 {
      if i < 6 {
       if i < 3 {
        if i < 1 {
         Table::row(-1441164464, 10800, 0, "+03")
        } else {
         if i < 2 {
          Table::row(-1247540400, 18000, 0, "+05")
         } else {
          Table::row(370724400, 21600, 0, "+06")
         }
        }
       } else {
        if i < 4 {
         Table::row(386445600, 18000, 3600, "+06")
        } else {
         if i < 5 {
          Table::row(402256800, 18000, 0, "+05")
         } else {
          Table::row(417985200, 18000, 3600, "+06")
         }
        }
       }
      } else {
       if i < 9 {
        if i < 7 {
         Table::row(433792800, 18000, 0, "+05")
        } else {
         if i < 8 {
          Table::row(449607600, 18000, 3600, "+06")
         } else {
          Table::row(465339600, 18000, 0, "+05")
         }
        }
       } else {
        if i < 10 {
         Table::row(481064400, 18000, 3600, "+06")
        } else {
         if i < 11 {
          Table::row(496789200, 18000, 0, "+05")
         } else {
          Table::row(512514000, 18000, 3600, "+06")
         }
        }
       }
      }
     } else {
      if i < 18 {
       if i < 15 {
        if i < 13 {
         Table::row(528238800, 18000, 0, "+05")
        } else {
         if i < 14 {
          Table::row(543963600, 18000, 3600, "+06")
         } else {
          Table::row(559688400, 18000, 0, "+05")
         }
        }
       } else {
        if i < 16 {
         Table::row(575413200, 18000, 3600, "+06")
        } else {
         if i < 17 {
          Table::row(591138000, 18000, 0, "+05")
         } else {
          Table::row(606862800, 18000, 3600, "+06")
         }
        }
       }
      } else {
       if i < 21 {
        if i < 19 {
         Table::row(622587600, 18000, 0, "+05")
        } else {
         if i < 20 {
          Table::row(638312400, 18000, 3600, "+06")
         } else {
          Table::row(654642000, 18000, 0, "+05")
         }
        }
       } else {
        if i < 23 {
         if i < 22 {
          Table::row(670366800, 14400, 3600, "+05")
         } else {
          Table::row(686095200, 14400, 0, "+04")
         }
        } else {
         if i < 24 {
          Table::row(695772000, 18000, 0, "+05")
         } else {
          Table::row(701816400, 18000, 3600, "+06")
         }
        }
       }
      }
     }
    } else {
     if i < 38 {
      if i < 31 {
       if i < 28 {
        if i < 26 {
         Table::row(717541200, 18000, 0, "+05")
        } else {
         if i < 27 {
          Table::row(733266000, 18000, 3600, "+06")
         } else {
          Table::row(748990800, 18000, 0, "+05")
         }
        }
       } else {
        if i < 29 {
         Table::row(764715600, 18000, 3600, "+06")
        } else {
         if i < 30 {
          Table::row(780440400, 18000, 0, "+05")
         } else {
          Table::row(796165200, 18000, 3600, "+06")
         }
        }
       }
      } else {
       if i < 34 {
        if i < 32 {
         Table::row(811890000, 18000, 0, "+05")
        } else {
         if i < 33 {
          Table::row(828219600, 18000, 3600, "+06")
         } else {
          Table::row(846363600, 18000, 0, "+05")
         }
        }
       } else {
        if i < 36 {
         if i < 35 {
          Table::row(859669200, 18000, 3600, "+06")
         } else {
          Table::row(877813200, 18000, 0, "+05")
         }
        } else {
         if i < 37 {
          Table::row(891118800, 18000, 3600, "+06")
         } else {
          Table::row(909262800, 18000, 0, "+05")
         }
        }
       }
      }
     } else {
      if i < 44 {
       if i < 41 {
        if i < 39 {
         Table::row(922568400, 14400, 3600, "+05")
        } else {
         if i < 40 {
          Table::row(941320800, 14400, 0, "+04")
         } else {
          Table::row(954021600, 14400, 3600, "+05")
         }
        }
       } else {
        if i < 42 {
         Table::row(972770400, 14400, 0, "+04")
        } else {
         if i < 43 {
          Table::row(985471200, 14400, 3600, "+05")
         } else {
          Table::row(1004220000, 14400, 0, "+04")
         }
        }
       }
      } else {
       if i < 47 {
        if i < 45 {
         Table::row(1017525600, 14400, 3600, "+05")
        } else {
         if i < 46 {
          Table::row(1035669600, 14400, 0, "+04")
         } else {
          Table::row(1048975200, 14400, 3600, "+05")
         }
        }
       } else {
        if i < 49 {
         if i < 48 {
          Table::row(1067119200, 14400, 0, "+04")
         } else {
          Table::row(1080424800, 14400, 3600, "+05")
         }
        } else {
         if i < 50 {
          Table::row(1099173600, 18000, 0, "+05")
         } else {
          Table::row(2147483647, 18000, 0, "+05")
         }
        }
       }
      }
     }
    }
}

/// The rows of the table of the zone `Asia/Atyrau`.
pub open spec fn atyrau_rows() -> spec_fn(int) -> (i64, FixedTimespan) {
    |i: int| atyrau_row(i)
}

/// The table of the zone `Asia/Atyrau`.
pub open spec fn atyrau() -> Table {
    Table::listed(Table::row(0, 12464, 0, "LMT").1, 51, atyrau_rows())
}

/// Row `i` of the table of the zone `Asia/Baghdad`.
pub open spec fn baghdad_row(i: int) -> (i64, FixedTimespan) {
    if i < 27 {
     if i < 13 {
      if i < 6 {
       if i < 3 {
        if i < 1 {
         Table::row(-2524532260, 10656, 0, "BMT")
        } else {
         if i < 2 {
          Table::row(-1641005856, 10800, 0, "+03")
         } else {
          Table::row(389048400, 10800, 3600, "+04")
         }
        }
       } else {
        if i < 4 {
         Table::row(402264000, 10800, 0, "+03")
        } else {
         if i < 5 {
          Table::row(417906000, 10800, 3600, "+04")
         } else {
          Table::row(433800000, 10800, 0, "+03")
         }
        }
       }
      } else {
       if i < 9 {
        if i < 7 {
         Table::row(449614800, 10800, 3600, "+04")
        } else {
         if i < 8 {
          Table::row(465422400, 10800, 0, "+03")
         } else {
          Table::row(481150800, 10800, 3600, "+04")
         }
        }
       } else {
        if i < 11 {
         if i < 10 {
          Table::row(496792800, 10800, 0, "+03")
         } else {
          Table::row(512517600, 10800, 3600, "+04")
         }
        } else {
         if i < 12 {
          Table::row(528242400, 10800, 0, "+03")
         } else {
          Table::row(543967200, 10800, 3600, "+04")
         }
        }
       }
      }
     } else {
      if i < 20 {
       if i < 16 {
        if i < 14 {
         Table::row(559692000, 10800, 0, "+03")
        } else {
         if i < 15 {
          Table::row(575416800, 10800, 3600, "+04")
         } else {
          Table::row(591141600, 10800, 0, "+03")
         }
        }
       } else {
        if i < 18 {
         if i < 17 {
          Table::row(606866400, 10800, 3600, "+04")
         } else {
          Table::row(622591200, 10800, 0, "+03")
         }
        } else {
         if i < 19 {
          Table::row(638316000, 10800, 3600, "+04")
         } else {
          Table::row(654645600, 10800, 0, "+03")
         }
        }
       }
      } else {
       if i < 23 {
        if i < 21 {
         Table::row(670464000, 10800, 3600, "+04")
        } else {
         if i < 22 {
          Table::row(686275200, 10800, 0, "+03")
         } else {
          Table::row(702086400, 10800, 3600, "+04")
         }
        }
       } else {
        if i < 25 {
         if i < 24 {
          Table::row(717897600, 10800, 0, "+03")
         } else {
          Table::row(733622400, 10800, 3600, "+04")
         }
        } else {
         if i < 26 {
          Table::row(749433600, 10800, 0, "+03")
         } else {
          Table::row(765158400, 10800, 3600, "+04")
         }
        }
       }
      }
     }
    } else {
     if i < 41 {
      if i < 34 {
       if i < 30 {
        if i < 28 {
         Table::row(780969600, 10800, 0, "+03")
        } else {
         if i < 29 {
          Table::row(796694400, 10800, 3600, "+04")
         } else {
          Table::row(812505600, 10800, 0, "+03")
         }
        }
       } else {
        if i < 32 {
         if i < 31 {
          Table::row(828316800, 10800, 3600, "+04")
         } else {
          Table::row(844128000, 10800, 0, "+03")
         }
        } else {
         if i < 33 {
          Table::row(859852800, 10800, 3600, "+04")
         } else {
          Table::row(875664000, 10800, 0, "+03")
         }
        }
       }
      } else {
       if i < 37 {
        if i < 35 {
         Table::row(891388800, 10800, 3600, "+04")
        } else {
         if i < 36 {
          Table::row(907200000, 10800, 0, "+03")
         } else {
          Table::row(922924800, 10800, 3600, "+04")
         }
        }
       } else {
        if i < 39 {
         if i < 38 {
          Table::row(938736000, 10800, 0, "+03")
         } else {
          Table::row(954547200, 10800, 3600, "+04")
         }
        } else {
         if i < 40 {
          Table::row(970358400, 10800, 0, "+03")
         } else {
          Table::row(986083200, 10800, 3600, "+04")
         }
        }
       }
      }
     } else {
      if i < 48 {
       if i < 44 {
        if i < 42 {
         Table::row(1001894400, 10800, 0, "+03")
        } else {
         if i < 43 {
          Table::row(1017619200, 10800, 3600, "+04")
         } else {
          Table::row(1033430400, 10800, 0, "+03")
         }
        }
       } else {
        if i < 46 {
         if i < 45 {
          Table::row(1049155200, 10800, 3600, "+04")
         } else {
          Table::row(1064966400, 10800, 0, "+03")
         }
        } else {
         if i < 47 {
          Table::row(1080777600, 10800, 3600, "+04")
         } else {
          Table::row(1096588800, 10800, 0, "+03")
         }
        }
       }
      } else {
       if i < 51 {
        if i < 49 {
         Table::row(1112313600, 10800, 3600, "+04")
        } else {
         if i < 50 {
          Table::row(1128124800, 10800, 0, "+03")
         } else {
          Table::row(1143849600, 10800, 3600, "+04")
         }
        }
       } else {
        if i < 53 {
         if i < 52 {
          Table::row(1159660800, 10800, 0, "+03")
         } else {
          Table::row(1175385600, 10800, 3600, "+04")
         }
        } else {
         if i < 54 {
          Table::row(1191196800, 10800, 0, "+03")
         } else {
          Table::row(2147483647, 10800, 0, "+03")
         }
        }
       }
      }
     }
    }
}

/// The rows of the table of the zone `Asia/Baghdad`.
pub open spec fn baghdad_rows() -> spec_fn(int) -> (i64, FixedTimespan) {
    |i: int| baghdad_row(i)
}

/// The table of the zone `Asia/Baghdad`.
pub open spec fn baghdad() -> Table {
    Table::listed(Table::row(0, 10660, 0, "LMT").1, 55, baghdad_rows())
}

/// Row `i` of the table of the zone `Asia/Bahrain`.
pub open spec fn bahrain_row(i: int) -> (i64, FixedTimespan) {
    if i < 2 {
     if i < 1 {
      Table::row(-897880940, 12600, 0, "+0330")
     } else {
      Table::row(-820553400, 14400, 0, "+04")
     }
    } else {
     if i < 3 {
      Table::row(76190400, 10800, 0, "+03")
     } else {
      Table::row(2147483647, 10800, 0, "+03")
     }
    }
}

/// The rows of the table of the zone `Asia/Bahrain`.
pub open spec fn bahrain_rows() -> spec_fn(int) -> (i64, FixedTimespan) {
    |i: int| bahrain_row(i)
}

/// The table of the zone `Asia/Bahrain`.
pub open spec fn bahrain() -> Table {
    Table::listed(Table::row(0, 12140, 0, "LMT").1, 4, bahrain_rows())
}

/// Row `i` of the table of the zone `Asia/Baku`.
pub open spec fn baku_row(i: int) -> (i64, FixedTimespan) {
    if i < 33 {
     if i < 16 {
      if i < 8 {
       if i < 4 {
        if i < 2 {
         if i < 1 {
          Table::row(-1441163964, 10800, 0, "+03")
         } else {
          Table::row(-405140400, 14400, 0, "+04")
         }
        } else {
         if i < 3 {
          Table::row(354916800, 14400, 3600, "+05")
         } else {
          Table::row(370724400, 14400, 0, "+04")
         }
        }
       } else {
        if i < 6 {
         if i < 5 {
          Table::row(386452800, 14400, 3600, "+05")
         } else {
          Table::row(402260400, 14400, 0, "+04")
         }
        } else {
         if i < 7 {
          Table::row(417988800, 14400, 3600, "+05")
         } else {
          Table::row(433796400, 14400, 0, "+04")
         }
        }
       }
      } else {
       if i < 12 {
        if i < 10 {
         if i < 9 {
          Table::row(449611200, 14400, 3600, "+05")
         } else {
          Table::row(465343200, 14400, 0, "+04")
         }
        } else {
         if i < 11 {
          Table::row(481068000, 14400, 3600, "+05")
         } else {
          Table::row(496792800, 14400, 0, "+04")
         }
        }
       } else {
        if i < 14 {
         if i < 13 {
          Table::row(512517600, 14400, 3600, "+05")
         } else {
          Table::row(528242400, 14400, 0, "+04")
         }
        } else {
         if i < 15 {
          Table::row(543967200, 14400, 3600, "+05")
         } else {
          Table::row(559692000, 14400, 0, "+04")
         }
        }
       }
      }
     } else {
      if i < 24 {
       if i < 20 {
        if i < 18 {
         if i < 17 {
          Table::row(575416800, 14400, 3600, "+05")
         } else {
          Table::row(591141600, 14400, 0, "+04")
         }
        } else {
         if i < 19 {
          Table::row(606866400, 14400, 3600, "+05")
         } else {
          Table::row(622591200, 14400, 0, "+04")
         }
        }
       } else {
        if i < 22 {
         if i < 21 {
          Table::row(638316000, 14400, 3600, "+05")
         } else {
          Table::row(654645600, 14400, 0, "+04")
         }
        } else {
         if i < 23 {
          Table::row(670370400, 10800, 3600, "+04")
         } else {
          Table::row(686098800, 10800, 0, "+03")
         }
        }
       }
      } else {
       if i < 28 {
        if i < 26 {
         if i < 25 {
          Table::row(701823600, 10800, 3600, "+04")
         } else {
          Table::row(717548400, 14400, 0, "+04")
         }
        } else {
         if i < 27 {
          Table::row(828234000, 14400, 3600, "+05")
         } else {
          Table::row(846378000, 14400, 0, "+04")
         }
        }
       } else {
        if i < 30 {
         if i < 29 {
          Table::row(859680000, 14400, 3600, "+05")
         } else {
          Table::row(877824000, 14400, 0, "+04")
         }
        } else {
         if i < 31 {
          Table::row(891129600, 14400, 3600, "+05")
         } else {
          if i < 32 {
           Table::row(909273600, 14400, 0, "+04")
          } else {
           Table::row(922579200, 14400, 3600, "+05")
          }
         }
        }
       }
      }
     }
    } else {
     if i < 50 {
      if i < 41 {
       if i < 37 {
        if i < 35 {
         if i < 34 {
          Table::row(941328000, 14400, 0, "+04")
         } else {
          Table::row(954028800, 14400, 3600, "+05")
         }
        } else {
         if i < 36 {
          Table::row(972777600, 14400, 0, "+04")
         } else {
          Table::row(985478400, 14400, 3600, "+05")
         }
        }
       } else {
        if i < 39 {
         if i < 38 {
          Table::row(1004227200, 14400, 0, "+04")
         } else {
          Table::row(1017532800, 14400, 3600, "+05")
         }
        } else {
         if i < 40 {
          Table::row(1035676800, 14400, 0, "+04")
         } else {
          Table::row(1048982400, 14400, 3600, "+05")
         }
        }
       }
      } else {
       if i < 45 {
        if i < 43 {
         if i < 42 {
          Table::row(1067126400, 14400, 0, "+04")
         } else {
          Table::row(1080432000, 14400, 3600, "+05")
         }
        } else {
         if i < 44 {
          Table::row(1099180800, 14400, 0, "+04")
         } else {
          Table::row(1111881600, 14400, 3600, "+05")
         }
        }
       } else {
        if i < 47 {
         if i < 46 {
          Table::row(1130630400, 14400, 0, "+04")
         } else {
          Table::row(1143331200, 14400, 3600, "+05")
         }
        } else {
         if i < 48 {
          Table::row(1162080000, 14400, 0, "+04")
         } else {
          if i < 49 {
           Table::row(1174780800, 14400, 3600, "+05")
          } else {
           Table::row(1193529600, 14400, 0, "+04")
          }
         }
        }
       }
      }
     } else {
      if i < 58 {
       if i < 54 {
        if i < 52 {
         if i < 51 {
          Table::row(1206835200, 14400, 3600, "+05")
         } else {
          Table::row(1224979200, 14400, 0, "+04")
         }
        } else {
         if i < 53 {
          Table::row(1238284800, 14400, 3600, "+05")
         } else {
          Table::row(1256428800, 14400, 0, "+04")
         }
        }
       } else {
        if i < 56 {
         if i < 55 {
          Table::row(1269734400, 14400, 3600, "+05")
         } else {
          Table::row(1288483200, 14400, 0, "+04")
         }
        } else {
         if i < 57 {
          Table::row(1301184000, 14400, 3600, "+05")
         } else {
          Table::row(1319932800, 14400, 0, "+04")
         }
        }
       }
      } else {
       if i < 62 {
        if i < 60 {
         if i < 59 {
          Table::row(1332633600, 14400, 3600, "+05")
         } else {
          Table::row(1351382400, 14400, 0, "+04")
         }
        } else {
         if i < 61 {
          Table::row(1364688000, 14400, 3600, "+05")
         } else {
          Table::row(1382832000, 14400, 0, "+04")
         }
        }
       } else {
        if i < 64 {
         if i < 63 {
          Table::row(1396137600, 14400, 3600, "+05")
         } else {
          Table::row(1414281600, 14400, 0, "+04")
         }
        } else {
         if i < 65 {
          Table::row(1427587200, 14400, 3600, "+05")
         } else {
          if i < 66 {
           Table::row(1445731200, 14400, 0, "+04")
          } else {
           Table::row(2147483647, 14400, 0, "+04")
          }
         }
        }
       }
      }
     }
    }
}

/// The rows of the table of the zone `Asia/Baku`.
pub open spec fn baku_rows() -> spec_fn(int) -> (i64, FixedTimespan) {
    |i: int| baku_row(i)
}

/// The table of the zone `Asia/Baku`.
pub open spec fn baku() -> Table {
    Table::listed(Table::row(0, 11964, 0, "LMT").1, 67, baku_rows())
}

/// Row `i` of the table of the zone `Asia/Bangkok`.
pub open spec fn bangkok_row(i: int) -> (i64, FixedTimespan) {
    if i < 1 {
     Table::row(-2840164924, 24124, 0, "BMT")
    } else {
     if i < 2 {
      Table::row(-1570084924, 25200, 0, "+07")
     } else {
      Table::row(2147483647, 25200, 0, "+07")
     }
    }
}

/// The rows of the table of the zone `Asia/Bangkok`.
pub open spec fn bangkok_rows() -> spec_fn(int) -> (i64, FixedTimespan) {
    |i: int| bangkok_row(i)
}

/// The table of the zone `Asia/Bangkok`.
pub open spec fn bangkok() -> Table {
    Table::listed(Table::row(0, 24124, 0, "LMT").1, 3, bangkok_rows())
}

/// Row `i` of the table of the zone `Asia/Barnaul`.
pub open spec fn barnaul_row(i: int) -> (i64, FixedTimespan) {
    if i < 34 {
     if i < 17 {
      if i < 8 {
       if i < 4 {
        if i < 2 {
         if i < 1 {
          Table::row(-1579844100, 21600, 0, "+06")
         } else {
          Table::row(-1247551200, 25200, 0, "+07")
         }
        } else {
         if i < 3 {
          Table::row(354906000, 25200, 3600, "+08")
         } else {
          Table::row(370713600, 25200, 0, "+07")
         }
        }
       } else {
        if i < 6 {
         if i < 5 {
          Table::row(386442000, 25200, 3600, "+08")
         } else {
          Table::row(402249600, 25200, 0, "+07")
         }
        } else {
         if i < 7 {
          Table::row(417978000, 25200, 3600, "+08")
         } else {
          Table::row(433785600, 25200, 0, "+07")
         }
        }
       }
      } else {
       if i < 12 {
        if i < 10 {
         if i < 9 {
          Table::row(449600400, 25200, 3600, "+08")
         } else {
          Table::row(465332400, 25200, 0, "+07")
         }
        } else {
         if i < 11 {
          Table::row(481057200, 25200, 3600, "+08")
         } else {
          Table::row(496782000, 25200, 0, "+07")
         }
        }
       } else {
        if i < 14 {
         if i < 13 {
          Table::row(512506800, 25200, 3600, "+08")
         } else {
          Table::row(528231600, 25200, 0, "+07")
         }
        } else {
         if i < 15 {
          Table::row(543956400, 25200, 3600, "+08")
         } else {
          if i < 16 {
           Table::row(559681200, 25200, 0, "+07")
          } else {
           Table::row(575406000, 25200, 3600, "+08")
          }
         }
        }
       }
      }
     } else {
      if i < 25 {
       if i < 21 {
        if i < 19 {
         if i < 18 {
          Table::row(591130800, 25200, 0, "+07")
         } else {
          Table::row(606855600, 25200, 3600, "+08")
         }
        } else {
         if i < 20 {
          Table::row(622580400, 25200, 0, "+07")
         } else {
          Table::row(638305200, 25200, 3600, "+08")
         }
        }
       } else {
        if i < 23 {
         if i < 22 {
          Table::row(654634800, 25200, 0, "+07")
         } else {
          Table::row(670359600, 21600, 3600, "+07")
         }
        } else {
         if i < 24 {
          Table::row(686088000, 21600, 0, "+06")
         } else {
          Table::row(695764800, 25200, 0, "+07")
         }
        }
       }
      } else {
       if i < 29 {
        if i < 27 {
         if i < 26 {
          Table::row(701809200, 25200, 3600, "+08")
         } else {
          Table::row(717534000, 25200, 0, "+07")
         }
        } else {
         if i < 28 {
          Table::row(733258800, 25200, 3600, "+08")
         } else {
          Table::row(748983600, 25200, 0, "+07")
         }
        }
       } else {
        if i < 31 {
         if i < 30 {
          Table::row(764708400, 25200, 3600, "+08")
         } else {
          Table::row(780433200, 25200, 0, "+07")
         }
        } else {
         if i < 32 {
          Table::row(796158000, 25200, 3600, "+08")
         } else {
          if i < 33 {
           Table::row(801590400, 21600, 3600, "+07")
          } else {
           Table::row(811886400, 21600, 0, "+06")
          }
         }
        }
       }
      }
     }
    } else {
     if i < 51 {
      if i < 42 {
       if i < 38 {
        if i < 36 {
         if i < 35 {
          Table::row(828216000, 21600, 3600, "+07")
         } else {
          Table::row(846360000, 21600, 0, "+06")
         }
        } else {
         if i < 37 {
          Table::row(859665600, 21600, 3600, "+07")
         } else {
          Table::row(877809600, 21600, 0, "+06")
         }
        }
       } else {
        if i < 40 {
         if i < 39 {
          Table::row(891115200, 21600, 3600, "+07")
         } else {
          Table::row(909259200, 21600, 0, "+06")
         }
        } else {
         if i < 41 {
          Table::row(922564800, 21600, 3600, "+07")
         } else {
          Table::row(941313600, 21600, 0, "+06")
         }
        }
       }
      } else {
       if i < 46 {
        if i < 44 {
         if i < 43 {
          Table::row(954014400, 21600, 3600, "+07")
         } else {
          Table::row(972763200, 21600, 0, "+06")
         }
        } else {
         if i < 45 {
          Table::row(985464000, 21600, 3600, "+07")
         } else {
          Table::row(1004212800, 21600, 0, "+06")
         }
        }
       } else {
        if i < 48 {
         if i < 47 {
          Table::row(1017518400, 21600, 3600, "+07")
         } else {
          Table::row(1035662400, 21600, 0, "+06")
         }
        } else {
         if i < 49 {
          Table::row(1048968000, 21600, 3600, "+07")
         } else {
          if i < 50 {
           Table::row(1067112000, 21600, 0, "+06")
          } else {
           Table::row(1080417600, 21600, 3600, "+07")
          }
         }
        }
       }
      }
     } else {
      if i < 59 {
       if i < 55 {
        if i < 53 {
         if i < 52 {
          Table::row(1099166400, 21600, 0, "+06")
         } else {
          Table::row(1111867200, 21600, 3600, "+07")
         }
        } else {
         if i < 54 {
          Table::row(1130616000, 21600, 0, "+06")
         } else {
          Table::row(1143316800, 21600, 3600, "+07")
         }
        }
       } else {
        if i < 57 {
         if i < 56 {
          Table::row(1162065600, 21600, 0, "+06")
         } else {
          Table::row(1174766400, 21600, 3600, "+07")
         }
        } else {
         if i < 58 {
          Table::row(1193515200, 21600, 0, "+06")
         } else {
          Table::row(1206820800, 21600, 3600, "+07")
         }
        }
       }
      } else {
       if i < 63 {
        if i < 61 {
         if i < 60 {
          Table::row(1224964800, 21600, 0, "+06")
         } else {
          Table::row(1238270400, 21600, 3600, "+07")
         }
        } else {
         if i < 62 {
          Table::row(1256414400, 21600, 0, "+06")
         } else {
          Table::row(1269720000, 21600, 3600, "+07")
         }
        }
       } else {
        if i < 65 {
         if i < 64 {
          Table::row(1288468800, 21600, 0, "+06")
         } else {
          Table::row(1301169600, 25200, 0, "+07")
         }
        } else {
         if i < 66 {
          Table::row(1414263600, 21600, 0, "+06")
         } else {
          if i < 67 {
           Table::row(1459022400, 25200, 0, "+07")
          } else {
           Table::row(2147483647, 25200, 0, "+07")
          }
         }
        }
       }
      }
     }
    }
}

/// The rows of the table of the zone `Asia/Barnaul`.
pub open spec fn barnaul_rows() -> spec_fn(int) -> (i64, FixedTimespan) {
    |i: int| barnaul_row(i)
}

/// The table of the zone `Asia/Barnaul`.
pub open spec fn barnaul() -> Table {
    Table::listed(Table::row(0, 20100, 0, "LMT").1, 68, barnaul_rows())
}

/// Row `i` of the table of the zone `Asia/Beirut`.
pub open spec fn beirut_row(i: int) -> (i64, FixedTimespan) {
    if i < 70 {
     if i < 35 {
      if i < 17 {
       if i < 8 {
        if i < 4 {
         if i < 2 {
          if i < 1 {
           Table::row(-2840149320, 7200, 0, "EET")
          } else {
           Table::row(-1570413600, 7200, 3600, "EEST")
          }
         } else {
          if i < 3 {
           Table::row(-1552186800, 7200, 0, "EET")
          } else {
           Table::row(-1538359200, 7200, 3600, "EEST")
          }
         }
        } else {
         if i < 6 {
          if i < 5 {
           Table::row(-1522551600, 7200, 0, "EET")
          } else {
           Table::row(-1507514400, 7200, 3600, "EEST")
          }
         } else {
          if i < 7 {
           Table::row(-1490583600, 7200, 0, "EET")
          } else {
           Table::row(-1473645600, 7200, 3600, "EEST")
          }
         }
        }
       } else {
        if i < 12 {
         if i < 10 {
          if i < 9 {
           Table::row(-1460948400, 7200, 0, "EET")
          } else {
           Table::row(-399866400, 7200, 3600, "EEST")
          }
         } else {
          if i < 11 {
           Table::row(-386650800, 7200, 0, "EET")
          } else {
           Table::row(-368330400, 7200, 3600, "EEST")
          }
         }
        } else {
         if i < 14 {
          if i < 13 {
           Table::row(-355114800, 7200, 0, "EET")
          } else {
           Table::row(-336794400, 7200, 3600, "EEST")
          }
         } else {
          if i < 15 {
           Table::row(-323578800, 7200, 0, "EET")
          } else {
           if i < 16 {
            Table::row(-305172000, 7200, 3600, "EEST")
           } else {
            Table::row(-291956400, 7200, 0, "EET")
           }
          }
         }
        }
       }
      } else {
       if i < 26 {
        if i < 21 {
         if i < 19 {
          if i < 18 {
           Table::row(-273636000, 7200, 3600, "EEST")
          } else {
           Table::row(-260420400, 7200, 0, "EET")
          }
         } else {
          if i < 20 {
           Table::row(78012000, 7200, 3600, "EEST")
          } else {
           Table::row(86734800, 7200, 0, "EET")
          }
         }
        } else {
         if i < 23 {
          if i < 22 {
           Table::row(105055200, 7200, 3600, "EEST")
          } else {
           Table::row(118270800, 7200, 0, "EET")
          }
         } else {
          if i < 24 {
           Table::row(136591200, 7200, 3600, "EEST")
          } else {
           if i < 25 {
            Table::row(149806800, 7200, 0, "EET")
           } else {
            Table::row(168127200, 7200, 3600, "EEST")
           }
          }
         }
        }
       } else {
        if i < 30 {
         if i < 28 {
          if i < 27 {
           Table::row(181342800, 7200, 0, "EET")
          } else {
           Table::row(199749600, 7200, 3600, "EEST")
          }
         } else {
          if i < 29 {
           Table::row(212965200, 7200, 0, "EET")
          } else {
           Table::row(231285600, 7200, 3600, "EEST")
          }
         }
        } else {
         if i < 32 {
          if i < 31 {
           Table::row(244501200, 7200, 0, "EET")
          } else {
           Table::row(262735200, 7200, 3600, "EEST")
          }
         } else {
          if i < 33 {
           Table::row(275950800, 7200, 0, "EET")
          } else {
           if i < 34 {
            Table::row(452210400, 7200, 3600, "EEST")
           } else {
            Table::row(466722000, 7200, 0, "EET")
           }
          }
         }
        }
       }
      }
     } else {
      if i < 52 {
       if i < 43 {
        if i < 39 {
         if i < 37 {
          if i < 36 {
           Table::row(483746400, 7200, 3600, "EEST")
          } else {
           Table::row(498258000, 7200, 0, "EET")
          }
         } else {
          if i < 38 {
           Table::row(515282400, 7200, 3600, "EEST")
          } else {
           Table::row(529794000, 7200, 0, "EET")
          }
         }
        } else {
         if i < 41 {
          if i < 40 {
           Table::row(546818400, 7200, 3600, "EEST")
          } else {
           Table::row(561330000, 7200, 0, "EET")
          }
         } else {
          if i < 42 {
           Table::row(581119200, 7200, 3600, "EEST")
          } else {
           Table::row(592952400, 7200, 0, "EET")
          }
         }
        }
       } else {
        if i < 47 {
         if i < 45 {
          if i < 44 {
           Table::row(610754400, 7200, 3600, "EEST")
          } else {
           Table::row(624488400, 7200, 0, "EET")
          }
         } else {
          if i < 46 {
           Table::row(641512800, 7200, 3600, "EEST")
          } else {
           Table::row(656024400, 7200, 0, "EET")
          }
         }
        } else {
         if i < 49 {
          if i < 48 {
           Table::row(673048800, 7200, 3600, "EEST")
          } else {
           Table::row(687560400, 7200, 0, "EET")
          }
         } else {
          if i < 50 {
           Table::row(704671200, 7200, 3600, "EEST")
          } else {
           if i < 51 {
            Table::row(718146000, 7200, 0, "EET")
           } else {
            Table::row(733269600, 7200, 3600, "EEST")
           }
          }
         }
        }
       }
      } else {
       if i < 61 {
        if i < 56 {
         if i < 54 {
          if i < 53 {
           Table::row(748990800, 7200, 0, "EET")
          } else {
           Table::row(764719200, 7200, 3600, "EEST")
          }
         } else {
          if i < 55 {
           Table::row(780440400, 7200, 0, "EET")
          } else {
           Table::row(796168800, 7200, 3600, "EEST")
          }
         }
        } else {
         if i < 58 {
          if i < 57 {
           Table::row(811890000, 7200, 0, "EET")
          } else {
           Table::row(828223200, 7200, 3600, "EEST")
          }
         } else {
          if i < 59 {
           Table::row(843944400, 7200, 0, "EET")
          } else {
           if i < 60 {
            Table::row(859672800, 7200, 3600, "EEST")
           } else {
            Table::row(875394000, 7200, 0, "EET")
           }
          }
         }
        }
       } else {
        if i < 65 {
         if i < 63 {
          if i < 62 {
           Table::row(891122400, 7200, 3600, "EEST")
          } else {
           Table::row(906843600, 7200, 0, "EET")
          }
         } else {
          if i < 64 {
           Table::row(922572000, 7200, 3600, "EEST")
          } else {
           Table::row(941317200, 7200, 0, "EET")
          }
         }
        } else {
         if i < 67 {
          if i < 66 {
           Table::row(954021600, 7200, 3600, "EEST")
          } else {
           Table::row(972766800, 7200, 0, "EET")
          }
         } else {
          if i < 68 {
           Table::row(985471200, 7200, 3600, "EEST")
          } else {
           if i < 69 {
            Table::row(1004216400, 7200, 0, "EET")
           } else {
            Table::row(1017525600, 7200, 3600, "EEST")
           }
          }
         }
        }
       }
      }
     }
    } else {
     if i < 105 {
      if i < 87 {
       if i < 78 {
        if i < 74 {
         if i < 72 {
          if i < 71 {
           Table::row(1035666000, 7200, 0, "EET")
          } else {
           Table::row(1048975200, 7200, 3600, "EEST")
          }
         } else {
          if i < 73 {
           Table::row(1067115600, 7200, 0, "EET")
          } else {
           Table::row(1080424800, 7200, 3600, "EEST")
          }
         }
        } else {
         if i < 76 {
          if i < 75 {
           Table::row(1099170000, 7200, 0, "EET")
          } else {
           Table::row(1111874400, 7200, 3600, "EEST")
          }
         } else {
          if i < 77 {
           Table::row(1130619600, 7200, 0, "EET")
          } else {
           Table::row(1143324000, 7200, 3600, "EEST")
          }
         }
        }
       } else {
        if i < 82 {
         if i < 80 {
          if i < 79 {
           Table::row(1162069200, 7200, 0, "EET")
          } else {
           Table::row(1174773600, 7200, 3600, "EEST")
          }
         } else {
          if i < 81 {
           Table::row(1193518800, 7200, 0, "EET")
          } else {
           Table::row(1206828000, 7200, 3600, "EEST")
          }
         }
        } else {
         if i < 84 {
          if i < 83 {
           Table::row(1224968400, 7200, 0, "EET")
          } else {
           Table::row(1238277600, 7200, 3600, "EEST")
          }
         } else {
          if i < 85 {
           Table::row(1256418000, 7200, 0, "EET")
          } else {
           if i < 86 {
            Table::row(1269727200, 7200, 3600, "EEST")
           } else {
            Table::row(1288472400, 7200, 0, "EET")
           }
          }
         }
        }
       }
      } else {
       if i < 96 {
        if i < 91 {
         if i < 89 {
          if i < 88 {
           Table::row(1301176800, 7200, 3600, "EEST")
          } else {
           Table::row(1319922000, 7200, 0, "EET")
          }
         } else {
          if i < 90 {
           Table::row(1332626400, 7200, 3600, "EEST")
          } else {
           Table::row(1351371600, 7200, 0, "EET")
          }
         }
        } else {
         if i < 93 {
          if i < 92 {
           Table::row(1364680800, 7200, 3600, "EEST")
          } else {
           Table::row(1382821200, 7200, 0, "EET")
          }
         } else {
          if i < 94 {
           Table::row(1396130400, 7200, 3600, "EEST")
          } else {
           if i < 95 {
            Table::row(1414270800, 7200, 0, "EET")
           } else {
            Table::row(1427580000, 7200, 3600, "EEST")
           }
          }
         }
        }
       } else {
        if i < 100 {
         if i < 98 {
          if i < 97 {
           Table::row(1445720400, 7200, 0, "EET")
          } else {
           Table::row(1459029600, 7200, 3600, "EEST")
          }
         } else {
          if i < 99 {
           Table::row(1477774800, 7200, 0, "EET")
          } else {
           Table::row(1490479200, 7200, 3600, "EEST")
          }
         }
        } else {
         if i < 102 {
          if i < 101 {
           Table::row(1509224400, 7200, 0, "EET")
          } else {
           Table::row(1521928800, 7200, 3600, "EEST")
          }
         } else {
          if i < 103 {
           Table::row(1540674000, 7200, 0, "EET")
          } else {
           if i < 104 {
            Table::row(1553983200, 7200, 3600, "EEST")
           } else {
            Table::row(1572123600, 7200, 0, "EET")
           }
          }
         }
        }
       }
      }
     } else {
      if i < 123 {
       if i < 114 {
        if i < 109 {
         if i < 107 {
          if i < 106 {
           Table::row(1585432800, 7200, 3600, "EEST")
          } else {
           Table::row(1603573200, 7200, 0, "EET")
          }
         } else {
          if i < 108 {
           Table::row(1616882400, 7200, 3600, "EEST")
          } else {
           Table::row(1635627600, 7200, 0, "EET")
          }
         }
        } else {
         if i < 111 {
          if i < 110 {
           Table::row(1648332000, 7200, 3600, "EEST")
          } else {
           Table::row(1667077200, 7200, 0, "EET")
          }
         } else {
          if i < 112 {
           Table::row(1679781600, 7200, 3600, "EEST")
          } else {
           if i < 113 {
            Table::row(1698526800, 7200, 0, "EET")
           } else {
            Table::row(1711836000, 7200, 3600, "EEST")
           }
          }
         }
        }
       } else {
        if i < 118 {
         if i < 116 {
          if i < 115 {
           Table::row(1729976400, 7200, 0, "EET")
          } else {
           Table::row(1743285600, 7200, 3600, "EEST")
          }
         } else {
          if i < 117 {
           Table::row(1761426000, 7200, 0, "EET")
          } else {
           Table::row(1774735200, 7200, 3600, "EEST")
          }
         }
        } else {
         if i < 120 {
          if i < 119 {
           Table::row(1792875600, 7200, 0, "EET")
          } else {
           Table::row(1806184800, 7200, 3600, "EEST")
          }
         } else {
          if i < 121 {
           Table::row(1824930000, 7200, 0, "EET")
          } else {
           if i < 122 {
            Table::row(1837634400, 7200, 3600, "EEST")
           } else {
            Table::row(1856379600, 7200, 0, "EET")
           }
          }
         }
        }
       }
      } else {
       if i < 132 {
        if i < 127 {
         if i < 125 {
          if i < 124 {
           Table::row(1869084000, 7200, 3600, "EEST")
          } else {
           Table::row(1887829200, 7200, 0, "EET")
          }
         } else {
          if i < 126 {
           Table::row(1901138400, 7200, 3600, "EEST")
          } else {
           Table::row(1919278800, 7200, 0, "EET")
          }
         }
        } else {
         if i < 129 {
          if i < 128 {
           Table::row(1932588000, 7200, 3600, "EEST")
          } else {
           Table::row(1950728400, 7200, 0, "EET")
          }
         } else {
          if i < 130 {
           Table::row(1964037600, 7200, 3600, "EEST")
          } else {
           if i < 131 {
            Table::row(1982782800, 7200, 0, "EET")
           } else {
            Table::row(1995487200, 7200, 3600, "EEST")
           }
          }
         }
        }
       } else {
        if i < 136 {
         if i < 134 {
          if i < 133 {
           Table::row(2014232400, 7200, 0, "EET")
          } else {
           Table::row(2026936800, 7200, 3600, "EEST")
          }
         } else {
          if i < 135 {
           Table::row(2045682000, 7200, 0, "EET")
          } else {
           Table::row(2058386400, 7200, 3600, "EEST")
          }
         }
        } else {
         if i < 138 {
          if i < 137 {
           Table::row(2077131600, 7200, 0, "EET")
          } else {
           Table::row(2090440800, 7200, 3600, "EEST")
          }
         } else {
          if i < 139 {
           Table::row(2108581200, 7200, 0, "EET")
          } else {
           if i < 140 {
            Table::row(2121890400, 7200, 3600, "EEST")
           } else {
            Table::row(2140030800, 7200, 0, "EET")
           }
          }
         }
        }
       }
      }
     }
    }
}

/// The rows of the table of the zone `Asia/Beirut`.
pub open spec fn beirut_rows() -> spec_fn(int) -> (i64, FixedTimespan) {
    |i: int| beirut_row(i)
}

/// The table of the zone `Asia/Beirut`.
pub open spec fn beirut() -> Table {
    Table::listed(Table::row(0, 8520, 0, "LMT").1, 141, beirut_rows())
}

/// Row `i` of the table of the zone `Asia/Bishkek`.
pub open spec fn bishkek_row(i: int) -> (i64, FixedTimespan) {
    if i < 26 {
     if i < 13 {
      if i < 6 {
       if i < 3 {
        if i < 1 {
         Table::row(-1441169904, 18000, 0, "+05")
        } else {
         if i < 2 {
          Table::row(-1247547600, 21600, 0, "+06")
         } else {
          Table::row(354909600, 21600, 3600, "+07")
         }
        }
       } else {
        if i < 4 {
         Table::row(370717200, 21600, 0, "+06")
        } else {
         if i < 5 {
          Table::row(386445600, 21600, 3600, "+07")
         } else {
          Table::row(402253200, 21600, 0, "+06")
         }
        }
       }
      } else {
       if i < 9 {
        if i < 7 {
         Table::row(417981600, 21600, 3600, "+07")
        } else {
         if i < 8 {
          Table::row(433789200, 21600, 0, "+06")
         } else {
          Table::row(449604000, 21600, 3600, "+07")
         }
        }
       } else {
        if i < 11 {
         if i < 10 {
          Table::row(465336000, 21600, 0, "+06")
         } else {
          Table::row(481060800, 21600, 3600, "+07")
         }
        } else {
         if i < 12 {
          Table::row(496785600, 21600, 0, "+06")
         } else {
          Table::row(512510400, 21600, 3600, "+07")
         }
        }
       }
      }
     } else {
      if i < 19 {
       if i < 16 {
        if i < 14 {
         Table::row(528235200, 21600, 0, "+06")
        } else {
         if i < 15 {
          Table::row(543960000, 21600, 3600, "+07")
         } else {
          Table::row(559684800, 21600, 0, "+06")
         }
        }
       } else {
        if i < 17 {
         Table::row(575409600, 21600, 3600, "+07")
        } else {
         if i < 18 {
          Table::row(591134400, 21600, 0, "+06")
         } else {
          Table::row(606859200, 21600, 3600, "+07")
         }
        }
       }
      } else {
       if i < 22 {
        if i < 20 {
         Table::row(622584000, 21600, 0, "+06")
        } else {
         if i < 21 {
          Table::row(638308800, 21600, 3600, "+07")
         } else {
          Table::row(654638400, 21600, 0, "+06")
         }
        }
       } else {
        if i < 24 {
         if i < 23 {
          Table::row(670363200, 18000, 3600, "+06")
         } else {
          Table::row(683582400, 18000, 0, "+05")
         }
        } else {
         if i < 25 {
          Table::row(703018800, 18000, 3600, "+06")
         } else {
          Table::row(717530400, 18000, 0, "+05")
         }
        }
       }
      }
     }
    } else {
     if i < 39 {
      if i < 32 {
       if i < 29 {
        if i < 27 {
         Table::row(734468400, 18000, 3600, "+06")
        } else {
         if i < 28 {
          Table::row(748980000, 18000, 0, "+05")
         } else {
          Table::row(765918000, 18000, 3600, "+06")
         }
        }
       } else {
        if i < 30 {
         Table::row(780429600, 18000, 0, "+05")
        } else {
         if i < 31 {
          Table::row(797367600, 18000, 3600, "+06")
         } else {
          Table::row(811879200, 18000, 0, "+05")
         }
        }
       }
      } else {
       if i < 35 {
        if i < 33 {
         Table::row(828817200, 18000, 3600, "+06")
        } else {
         if i < 34 {
          Table::row(843933600, 18000, 0, "+05")
         } else {
          Table::row(859671000, 18000, 3600, "+06")
         }
        }
       } else {
        if i < 37 {
         if i < 36 {
          Table::row(877811400, 18000, 0, "+05")
         } else {
          Table::row(891120600, 18000, 3600, "+06")
         }
        } else {
         if i < 38 {
          Table::row(909261000, 18000, 0, "+05")
         } else {
          Table::row(922570200, 18000, 3600, "+06")
         }
        }
       }
      }
     } else {
      if i < 46 {
       if i < 42 {
        if i < 40 {
         Table::row(941315400, 18000, 0, "+05")
        } else {
         if i < 41 {
          Table::row(954019800, 18000, 3600, "+06")
         } else {
          Table::row(972765000, 18000, 0, "+05")
         }
        }
       } else {
        if i < 44 {
         if i < 43 {
          Table::row(985469400, 18000, 3600, "+06")
         } else {
          Table::row(1004214600, 18000, 0, "+05")
         }
        } else {
         if i < 45 {
          Table::row(1017523800, 18000, 3600, "+06")
         } else {
          Table::row(1035664200, 18000, 0, "+05")
         }
        }
       }
      } else {
       if i < 49 {
        if i < 47 {
         Table::row(1048973400, 18000, 3600, "+06")
        } else {
         if i < 48 {
          Table::row(1067113800, 18000, 0, "+05")
         } else {
          Table::row(1080423000, 18000, 3600, "+06")
         }
        }
       } else {
        if i < 51 {
         if i < 50 {
          Table::row(1099168200, 18000, 0, "+05")
         } else {
          Table::row(1111872600, 18000, 3600, "+06")
         }
        } else {
         if i < 52 {
          Table::row(1123783200, 21600, 0, "+06")
         } else {
          Table::row(2147483647, 21600, 0, "+06")
         }
        }
       }
      }
     }
    }
}

/// The rows of the table of the zone `Asia/Bishkek`.
pub open spec fn bishkek_rows() -> spec_fn(int) -> (i64, FixedTimespan) {
    |i: int| bishkek_row(i)
}

/// The table of the zone `Asia/Bishkek`.
pub open spec fn bishkek() -> Table {
    Table::listed(Table::row(0, 17904, 0, "LMT").1, 53, bishkek_rows())
}

/// Row `i` of the table of the zone `Asia/Brunei`.
pub open spec fn brunei_row(i: int) -> (i64, FixedTimespan) {
    if i < 1 {
     Table::row(-1383464380, 27000, 0, "+0730")
    } else {
     if i < 2 {
      Table::row(-1167636600, 28800, 0, "+08")
     } else {
      Table::row(2147483647, 28800, 0, "+08")
     }
    }
}

/// The rows of the table of the zone `Asia/Brunei`.
pub open spec fn brunei_rows() -> spec_fn(int) -> (i64, FixedTimespan) {
    |i: int| brunei_row(i)
}

/// The table of the zone `Asia/Brunei`.
pub open spec fn brunei() -> Table {
    Table::listed(Table::row(0, 27580, 0, "LMT").1, 3, brunei_rows())
}

/// Row `i` of the table of the zone `Asia/Calcutta`.
pub open spec fn calcutta_row(i: int) -> (i64, FixedTimespan) {
    if i < 3 {
     if i < 1 {
      Table::row(-3645237208, 21200, 0, "HMT")
     } else {
      if i < 2 {
       Table::row(-3155694800, 19270, 0, "MMT")
      } else {
       Table::row(-2019705670, 19800, 0, "IST")
      }
     }
    } else {
     if i < 5 {
      if i < 4 {
       Table::row(-891581400, 19800, 3600, "+0630")
      } else {
       Table::row(-872058600, 19800, 0, "IST")
      }
     } else {
      if i < 6 {
       Table::row(-862637400, 19800, 3600, "+0630")
      } else {
       Table::row(-764145000, 19800, 0, "IST")
      }
     }
    }
}

/// The rows of the table of the zone `Asia/Calcutta`.
pub open spec fn calcutta_rows() -> spec_fn(int) -> (i64, FixedTimespan) {
    |i: int| calcutta_row(i)
}

/// The table of the zone `Asia/Calcutta`.
pub open spec fn calcutta() -> Table {
    Table::listed(Table::row(0, 21208, 0, "LMT").1, 7, calcutta_rows())
}

/// Row `i` of the table of the zone `Asia/Chita`.
pub open spec fn chita_row(i: int) -> (i64, FixedTimespan) {
    if i < 33 {
     if i < 16 {
      if i < 8 {
       if i < 4 {
        if i < 2 {
         if i < 1 {
          Table::row(-1579419232, 28800, 0, "+08")
         } else {
          Table::row(-1247558400, 32400, 0, "+09")
         }
        } else {
         if i < 3 {
          Table::row(354898800, 32400, 3600, "+10")
         } else {
          Table::row(370706400, 32400, 0, "+09")
         }
        }
       } else {
        if i < 6 {
         if i < 5 {
          Table::row(386434800, 32400, 3600, "+10")
         } else {
          Table::row(402242400, 32400, 0, "+09")
         }
        } else {
         if i < 7 {
          Table::row(417970800, 32400, 3600, "+10")
         } else {
          Table::row(433778400, 32400, 0, "+09")
         }
        }
       }
      } else {
       if i < 12 {
        if i < 10 {
         if i < 9 {
          Table::row(449593200, 32400, 3600, "+10")
         } else {
          Table::row(465325200, 32400, 0, "+09")
         }
        } else {
         if i < 11 {
          Table::row(481050000, 32400, 3600, "+10")
         } else {
          Table::row(496774800, 32400, 0, "+09")
         }
        }
       } else {
        if i < 14 {
         if i < 13 {
          Table::row(512499600, 32400, 3600, "+10")
         } else {
          Table::row(528224400, 32400, 0, "+09")
         }
        } else {
         if i < 15 {
          Table::row(543949200, 32400, 3600, "+10")
         } else {
          Table::row(559674000, 32400, 0, "+09")
         }
        }
       }
      }
     } else {
      if i < 24 {
       if i < 20 {
        if i < 18 {
         if i < 17 {
          Table::row(575398800, 32400, 3600, "+10")
         } else {
          Table::row(591123600, 32400, 0, "+09")
         }
        } else {
         if i < 19 {
          Table::row(606848400, 32400, 3600, "+10")
         } else {
          Table::row(622573200, 32400, 0, "+09")
         }
        }
       } else {
        if i < 22 {
         if i < 21 {
          Table::row(638298000, 32400, 3600, "+10")
         } else {
          Table::row(654627600, 32400, 0, "+09")
         }
        } else {
         if i < 23 {
          Table::row(670352400, 28800, 3600, "+09")
         } else {
          Table::row(686080800, 28800, 0, "+08")
         }
        }
       }
      } else {
       if i < 28 {
        if i < 26 {
         if i < 25 {
          Table::row(695757600, 32400, 0, "+09")
         } else {
          Table::row(701802000, 32400, 3600, "+10")
         }
        } else {
         if i < 27 {
          Table::row(717526800, 32400, 0, "+09")
         } else {
          Table::row(733251600, 32400, 3600, "+10")
         }
        }
       } else {
        if i < 30 {
         if i < 29 {
          Table::row(748976400, 32400, 0, "+09")
         } else {
          Table::row(764701200, 32400, 3600, "+10")
         }
        } else {
         if i < 31 {
          Table::row(780426000, 32400, 0, "+09")
         } else {
          if i < 32 {
           Table::row(796150800, 32400, 3600, "+10")
          } else {
           Table::row(811875600, 32400, 0, "+09")
          }
         }
        }
       }
      }
     }
    } else {
     if i < 50 {
      if i < 41 {
       if i < 37 {
        if i < 35 {
         if i < 34 {
          Table::row(828205200, 32400, 3600, "+10")
         } else {
          Table::row(846349200, 32400, 0, "+09")
         }
        } else {
         if i < 36 {
          Table::row(859654800, 32400, 3600, "+10")
         } else {
          Table::row(877798800, 32400, 0, "+09")
         }
        }
       } else {
        if i < 39 {
         if i < 38 {
          Table::row(891104400, 32400, 3600, "+10")
         } else {
          Table::row(909248400, 32400, 0, "+09")
         }
        } else {
         if i < 40 {
          Table::row(922554000, 32400, 3600, "+10")
         } else {
          Table::row(941302800, 32400, 0, "+09")
         }
        }
       }
      } else {
       if i < 45 {
        if i < 43 {
         if i < 42 {
          Table::row(954003600, 32400, 3600, "+10")
         } else {
          Table::row(972752400, 32400, 0, "+09")
         }
        } else {
         if i < 44 {
          Table::row(985453200, 32400, 3600, "+10")
         } else {
          Table::row(1004202000, 32400, 0, "+09")
         }
        }
       } else {
        if i < 47 {
         if i < 46 {
          Table::row(1017507600, 32400, 3600, "+10")
         } else {
          Table::row(1035651600, 32400, 0, "+09")
         }
        } else {
         if i < 48 {
          Table::row(1048957200, 32400, 3600, "+10")
         } else {
          if i < 49 {
           Table::row(1067101200, 32400, 0, "+09")
          } else {
           Table::row(1080406800, 32400, 3600, "+10")
          }
         }
        }
       }
      }
     } else {
      if i < 58 {
       if i < 54 {
        if i < 52 {
         if i < 51 {
          Table::row(1099155600, 32400, 0, "+09")
         } else {
          Table::row(1111856400, 32400, 3600, "+10")
         }
        } else {
         if i < 53 {
          Table::row(1130605200, 32400, 0, "+09")
         } else {
          Table::row(1143306000, 32400, 3600, "+10")
         }
        }
       } else {
        if i < 56 {
         if i < 55 {
          Table::row(1162054800, 32400, 0, "+09")
         } else {
          Table::row(1174755600, 32400, 3600, "+10")
         }
        } else {
         if i < 57 {
          Table::row(1193504400, 32400, 0, "+09")
         } else {
          Table::row(1206810000, 32400, 3600, "+10")
         }
        }
       }
      } else {
       if i < 62 {
        if i < 60 {
         if i < 59 {
          Table::row(1224954000, 32400, 0, "+09")
         } else {
          Table::row(1238259600, 32400, 3600, "+10")
         }
        } else {
         if i < 61 {
          Table::row(1256403600, 32400, 0, "+09")
         } else {
          Table::row(1269709200, 32400, 3600, "+10")
         }
        }
       } else {
        if i < 64 {
         if i < 63 {
          Table::row(1288458000, 32400, 0, "+09")
         } else {
          Table::row(1301158800, 36000, 0, "+10")
         }
        } else {
         if i < 65 {
          Table::row(1414252800, 28800, 0, "+08")
         } else {
          if i < 66 {
           Table::row(1459015200, 32400, 0, "+09")
          } else {
           Table::row(2147483647, 32400, 0, "+09")
          }
         }
        }
       }
      }
     }
    }
}

/// The rows of the table of the zone `Asia/Chita`.
pub open spec fn chita_rows() -> spec_fn(int) -> (i64, FixedTimespan) {
    |i: int| chita_row(i)
}

/// The table of the zone `Asia/Chita`.
pub open spec fn chita() -> Table {
    Table::listed(Table::row(0, 27232, 0, "LMT").1, 67, chita_rows())
}

/// Row `i` of the table of the zone `Asia/Choibalsan`.
pub open spec fn choibalsan_row(i: int) -> (i64, FixedTimespan) {
    if i < 25 {
     if i < 12 {
      if i < 6 {
       if i < 3 {
        if i < 1 {
         Table::row(-2032931252, 25200, 0, "+07")
        } else {
         if i < 2 {
          Table::row(252435600, 28800, 0, "+08")
         } else {
          Table::row(417974400, 28800, 3600, "+09")
         }
        }
       } else {
        if i < 4 {
         Table::row(433782000, 28800, 0, "+08")
        } else {
         if i < 5 {
          Table::row(449596800, 28800, 3600, "+09")
         } else {
          Table::row(465318000, 28800, 0, "+08")
         }
        }
       }
      } else {
       if i < 9 {
        if i < 7 {
         Table::row(481046400, 28800, 3600, "+09")
        } else {
         if i < 8 {
          Table::row(496767600, 28800, 0, "+08")
         } else {
          Table::row(512496000, 28800, 3600, "+09")
         }
        }
       } else {
        if i < 10 {
         Table::row(528217200, 28800, 0, "+08")
        } else {
         if i < 11 {
          Table::row(543945600, 28800, 3600, "+09")
         } else {
          Table::row(559666800, 28800, 0, "+08")
         }
        }
       }
      }
     } else {
      if i < 18 {
       if i < 15 {
        if i < 13 {
         Table::row(575395200, 28800, 3600, "+09")
        } else {
         if i < 14 {
          Table::row(591116400, 28800, 0, "+08")
         } else {
          Table::row(606844800, 28800, 3600, "+09")
         }
        }
       } else {
        if i < 16 {
         Table::row(622566000, 28800, 0, "+08")
        } else {
         if i < 17 {
          Table::row(638294400, 28800, 3600, "+09")
         } else {
          Table::row(654620400, 28800, 0, "+08")
         }
        }
       }
      } else {
       if i < 21 {
        if i < 19 {
         Table::row(670348800, 28800, 3600, "+09")
        } else {
         if i < 20 {
          Table::row(686070000, 28800, 0, "+08")
         } else {
          Table::row(701798400, 28800, 3600, "+09")
         }
        }
       } else {
        if i < 23 {
         if i < 22 {
          Table::row(717519600, 28800, 0, "+08")
         } else {
          Table::row(733248000, 28800, 3600, "+09")
         }
        } else {
         if i < 24 {
          Table::row(748969200, 28800, 0, "+08")
         } else {
          Table::row(764697600, 28800, 3600, "+09")
         }
        }
       }
      }
     }
    } else {
     if i < 38 {
      if i < 31 {
       if i < 28 {
        if i < 26 {
         Table::row(780418800, 28800, 0, "+08")
        } else {
         if i < 27 {
          Table::row(796147200, 28800, 3600, "+09")
         } else {
          Table::row(811868400, 28800, 0, "+08")
         }
        }
       } else {
        if i < 29 {
         Table::row(828201600, 28800, 3600, "+09")
        } else {
         if i < 30 {
          Table::row(843922800, 28800, 0, "+08")
         } else {
          Table::row(859651200, 28800, 3600, "+09")
         }
        }
       }
      } else {
       if i < 34 {
        if i < 32 {
         Table::row(875372400, 28800, 0, "+08")
        } else {
         if i < 33 {
          Table::row(891100800, 28800, 3600, "+09")
         } else {
          Table::row(906822000, 28800, 0, "+08")
         }
        }
       } else {
        if i < 36 {
         if i < 35 {
          Table::row(988394400, 28800, 3600, "+09")
         } else {
          Table::row(1001696400, 28800, 0, "+08")
         }
        } else {
         if i < 37 {
          Table::row(1017424800, 28800, 3600, "+09")
         } else {
          Table::row(1033146000, 28800, 0, "+08")
         }
        }
       }
      }
     } else {
      if i < 44 {
       if i < 41 {
        if i < 39 {
         Table::row(1048874400, 28800, 3600, "+09")
        } else {
         if i < 40 {
          Table::row(1064595600, 28800, 0, "+08")
         } else {
          Table::row(1080324000, 28800, 3600, "+09")
         }
        }
       } else {
        if i < 42 {
         Table::row(1096045200, 28800, 0, "+08")
        } else {
         if i < 43 {
          Table::row(1111773600, 28800, 3600, "+09")
         } else {
          Table::row(1127494800, 28800, 0, "+08")
         }
        }
       }
      } else {
       if i < 47 {
        if i < 45 {
         Table::row(1143223200, 28800, 3600, "+09")
        } else {
         if i < 46 {
          Table::row(1159549200, 28800, 0, "+08")
         } else {
          Table::row(1427479200, 28800, 3600, "+09")
         }
        }
       } else {
        if i < 49 {
         if i < 48 {
          Table::row(1443193200, 28800, 0, "+08")
         } else {
          Table::row(1458928800, 28800, 3600, "+09")
         }
        } else {
         if i < 50 {
          Table::row(1474642800, 28800, 0, "+08")
         } else {
          Table::row(2147483647, 28800, 0, "+08")
         }
        }
       }
      }
     }
    }
}

/// The rows of the table of the zone `Asia/Choibalsan`.
pub open spec fn choibalsan_rows() -> spec_fn(int) -> (i64, FixedTimespan) {
    |i: int| choibalsan_row(i)
}

/// The table of the zone `Asia/Choibalsan`.
pub open spec fn choibalsan() -> Table {
    Table::listed(Table::row(0, 25652, 0, "LMT").1, 51, choibalsan_rows())
}

/// Row `i` of the table of the zone `Asia/Chongqing`.
pub open spec fn chongqing_row(i: int) -> (i64, FixedTimespan) {
    if i < 14 {
     if i < 7 {
      if i < 3 {
       if i < 1 {
        Table::row(-2177481943, 28800, 0, "CST")
       } else {
        if i < 2 {
         Table::row(-1600675200, 28800, 3600, "CDT")
        } else {
         Table::row(-1585904400, 28800, 0, "CST")
        }
       }
      } else {
       if i < 5 {
        if i < 4 {
         Table::row(-933667200, 28800, 3600, "CDT")
        } else {
         Table::row(-922093200, 28800, 0, "CST")
        }
       } else {
        if i < 6 {
         Table::row(-908870400, 28800, 3600, "CDT")
        } else {
         Table::row(-888829200, 28800, 0, "CST")
        }
       }
      }
     } else {
      if i < 10 {
       if i < 8 {
        Table::row(-881049600, 28800, 3600, "CDT")
       } else {
        if i < 9 {
         Table::row(-767869200, 28800, 0, "CST")
        } else {
         Table::row(-745833600, 28800, 3600, "CDT")
        }
       }
      } else {
       if i < 12 {
        if i < 11 {
         Table::row(-733827600, 28800, 0, "CST")
        } else {
         Table::row(-716889600, 28800, 3600, "CDT")
        }
       } else {
        if i < 13 {
         Table::row(-699613200, 28800, 0, "CST")
        } else {
         Table::row(-683884800, 28800, 3600, "CDT")
        }
       }
      }
     }
    } else {
     if i < 21 {
      if i < 17 {
       if i < 15 {
        Table::row(-670669200, 28800, 0, "CST")
       } else {
        if i < 16 {
         Table::row(-652348800, 28800, 3600, "CDT")
        } else {
         Table::row(-650019600, 28800, 0, "CST")
        }
       }
      } else {
       if i < 19 {
        if i < 18 {
         Table::row(515527200, 28800, 3600, "CDT")
        } else {
         Table::row(527014800, 28800, 0, "CST")
        }
       } else {
        if i < 20 {
         Table::row(545162400, 28800, 3600, "CDT")
        } else {
         Table::row(558464400, 28800, 0, "CST")
        }
       }
      }
     } else {
      if i < 25 {
       if i < 23 {
        if i < 22 {
         Table::row(577216800, 28800, 3600, "CDT")
        } else {
         Table::row(589914000, 28800, 0, "CST")
        }
       } else {
        if i < 24 {
         Table::row(608666400, 28800, 3600, "CDT")
        } else {
         Table::row(621968400, 28800, 0, "CST")
        }
       }
      } else {
       if i < 27 {
        if i < 26 {
         Table::row(640116000, 28800, 3600, "CDT")
        } else {
         Table::row(653418000, 28800, 0, "CST")
        }
       } else {
        if i < 28 {
         Table::row(671565600, 28800, 3600, "CDT")
        } else {
         Table::row(684867600, 28800, 0, "CST")
        }
       }
      }
     }
    }
}

/// The rows of the table of the zone `Asia/Chongqing`.
pub open spec fn chongqing_rows() -> spec_fn(int) -> (i64, FixedTimespan) {
    |i: int| chongqing_row(i)
}

/// The table of the zone `Asia/Chongqing`.
pub open spec fn chongqing() -> Table {
    Table::listed(Table::row(0, 29143, 0, "LMT").1, 29, chongqing_rows())
}

/// Row `i` of the table of the zone `Asia/Chungking`.
pub open spec fn chungking_row(i: int) -> (i64, FixedTimespan) {
    if i < 14 {
     if i < 7 {
      if i < 3 {
       if i < 1 {
        Table::row(-2177481943, 28800, 0, "CST")
       } else {
        if i < 2 {
         Table::row(-1600675200, 28800, 3600, "CDT")
        } else {
         Table::row(-1585904400, 28800, 0, "CST")
        }
       }
      } else {
       if i < 5 {
        if i < 4 {
         Table::row(-933667200, 28800, 3600, "CDT")
        } else {
         Table::row(-922093200, 28800, 0, "CST")
        }
       } else {
        if i < 6 {
         Table::row(-908870400, 28800, 3600, "CDT")
        } else {
         Table::row(-888829200, 28800, 0, "CST")
        }
       }
      }
     } else {
      if i < 10 {
       if i < 8 {
        Table::row(-881049600, 28800, 3600, "CDT")
       } else {
        if i < 9 {
         Table::row(-767869200, 28800, 0, "CST")
        } else {
         Table::row(-745833600, 28800, 3600, "CDT")
        }
       }
      } else {
       if i < 12 {
        if i < 11 {
         Table::row(-733827600, 28800, 0, "CST")
        } else {
         Table::row(-716889600, 28800, 3600, "CDT")
        }
       } else {
        if i < 13 {
         Table::row(-699613200, 28800, 0, "CST")
        } else {
         Table::row(-683884800, 28800, 3600, "CDT")
        }
       }
      }
     }
    } else {
     if i < 21 {
      if i < 17 {
       if i < 15 {
        Table::row(-670669200, 28800, 0, "CST")
       } else {
        if i < 16 {
         Table::row(-652348800, 28800, 3600, "CDT")
        } else {
         Table::row(-650019600, 28800, 0, "CST")
        }
       }
      } else {
       if i < 19 {
        if i < 18 {
         Table::row(515527200, 28800, 3600, "CDT")
        } else {
         Table::row(527014800, 28800, 0, "CST")
        }
       } else {
        if i < 20 {
         Table::row(545162400, 28800, 3600, "CDT")
        } else {
         Table::row(558464400, 28800, 0, "CST")
        }
       }
      }
     } else {
      if i < 25 {
       if i < 23 {
        if i < 22 {
         Table::row(577216800, 28800, 3600, "CDT")
        } else {
         Table::row(589914000, 28800, 0, "CST")
        }
       } else {
        if i < 24 {
         Table::row(608666400, 28800, 3600, "CDT")
        } else {
         Table::row(621968400, 28800, 0, "CST")
        }
       }
      } else {
       if i < 27 {
        if i < 26 {
         Table::row(640116000, 28800, 3600, "CDT")
        } else {
         Table::row(653418000, 28800, 0, "CST")
        }
       } else {
        if i < 28 {
         Table::row(671565600, 28800, 3600, "CDT")
        } else {
         Table::row(684867600, 28800, 0, "CST")
        }
       }
      }
     }
    }
}

/// The rows of the table of the zone `Asia/Chungking`.
pub open spec fn chungking_rows() -> spec_fn(int) -> (i64, FixedTimespan) {
    |i: int| chungking_row(i)
}

/// The table of the zone `Asia/Chungking`.
pub open spec fn chungking() -> Table {
    Table::listed(Table::row(0, 29143, 0, "LMT").1, 29, chungking_rows())
}

/// Row `i` of the table of the zone `Asia/Colombo`.
pub open spec fn colombo_row(i: int) -> (i64, FixedTimespan) {
    if i < 4 {
     if i < 2 {
      if i < 1 {
       Table::row(-2840159964, 19172, 0, "MMT")
      } else {
       Table::row(-2019705572, 19800, 0, "+0530")
      }
     } else {
      if i < 3 {
       Table::row(-883287000, 19800, 1800, "+06")
      } else {
       Table::row(-862639200, 19800, 3600, "+0630")
      }
     }
    } else {
     if i < 6 {
      if i < 5 {
       Table::row(-764051400, 19800, 0, "+0530")
      } else {
       Table::row(832962600, 23400, 0, "+0630")
      }
     } else {
      if i < 7 {
       Table::row(846266400, 21600, 0, "+06")
      } else {
       if i < 8 {
        Table::row(1145039400, 19800, 0, "+0530")
       } else {
        Table::row(2147483647, 19800, 0, "+0530")
       }
      }
     }
    }
}

/// The rows of the table of the zone `Asia/Colombo`.
pub open spec fn colombo_rows() -> spec_fn(int) -> (i64, FixedTimespan) {
    |i: int| colombo_row(i)
}

/// The table of the zone `Asia/Colombo`.
pub open spec fn colombo() -> Table {
    Table::listed(Table::row(0, 19164, 0, "LMT").1, 9, colombo_rows())
}

/// Row `i` of the table of the zone `Asia/Dacca`.
pub open spec fn dacca_row(i: int) -> (i64, FixedTimespan) {
    if i < 4 {
     if i < 2 {
      if i < 1 {
       Table::row(-2524543300, 21200, 0, "HMT")
      } else {
       Table::row(-891582800, 23400, 0, "+0630")
      }
     } else {
      if i < 3 {
       Table::row(-872058600, 19800, 0, "+0530")
      } else {
       Table::row(-862637400, 23400, 0, "+0630")
      }
     }
    } else {
     if i < 6 {
      if i < 5 {
       Table::row(-576138600, 21600, 0, "+06")
      } else {
       Table::row(1245430800, 21600, 3600, "+07")
      }
     } else {
      if i < 7 {
       Table::row(1262278800, 21600, 0, "+06")
      } else {
       Table::row(2147483647, 21600, 0, "+06")
      }
     }
    }
}

/// The rows of the table of the zone `Asia/Dacca`.
pub open spec fn dacca_rows() -> spec_fn(int) -> (i64, FixedTimespan) {
    |i: int| dacca_row(i)
}

/// The table of the zone `Asia/Dacca`.
pub open spec fn dacca() -> Table {
    Table::listed(Table::row(0, 21700, 0, "LMT").1, 8, dacca_rows())
}

/// Row `i` of the table of the zone `Asia/Damascus`.
pub open spec fn damascus_row(i: int) -> (i64, FixedTimespan) {
    if i < 61 {
     if i < 30 {
      if i < 15 {
       if i < 7 {
        if i < 3 {
         if i < 1 {
          Table::row(-1577931912, 7200, 0, "EET")
         } else {
          if i < 2 {
           Table::row(-1568592000, 7200, 3600, "EEST")
          } else {
           Table::row(-1554080400, 7200, 0, "EET")
          }
         }
        } else {
         if i < 5 {
          if i < 4 {
           Table::row(-1537142400, 7200, 3600, "EEST")
          } else {
           Table::row(-1522630800, 7200, 0, "EET")
          }
         } else {
          if i < 6 {
           Table::row(-1505692800, 7200, 3600, "EEST")
          } else {
           Table::row(-1491181200, 7200, 0, "EET")
          }
         }
        }
       } else {
        if i < 11 {
         if i < 9 {
          if i < 8 {
           Table::row(-1474243200, 7200, 3600, "EEST")
          } else {
           Table::row(-1459126800, 7200, 0, "EET")
          }
         } else {
          if i < 10 {
           Table::row(-242265600, 7200, 3600, "EEST")
          } else {
           Table::row(-228877200, 7200, 0, "EET")
          }
         }
        } else {
         if i < 13 {
          if i < 12 {
           Table::row(-210556800, 7200, 3600, "EEST")
          } else {
           Table::row(-197427600, 7200, 0, "EET")
          }
         } else {
          if i < 14 {
           Table::row(-178934400, 7200, 3600, "EEST")
          } else {
           Table::row(-165718800, 7200, 0, "EET")
          }
         }
        }
       }
      } else {
       if i < 22 {
        if i < 18 {
         if i < 16 {
          Table::row(-147398400, 7200, 3600, "EEST")
         } else {
          if i < 17 {
           Table::row(-134269200, 7200, 0, "EET")
          } else {
           Table::row(-116467200, 7200, 3600, "EEST")
          }
         }
        } else {
         if i < 20 {
          if i < 19 {
           Table::row(-102646800, 7200, 0, "EET")
          } else {
           Table::row(-84326400, 7200, 3600, "EEST")
          }
         } else {
          if i < 21 {
           Table::row(-71110800, 7200, 0, "EET")
          } else {
           Table::row(-52704000, 7200, 3600, "EEST")
          }
         }
        }
       } else {
        if i < 26 {
         if i < 24 {
          if i < 23 {
           Table::row(-39488400, 7200, 0, "EET")
          } else {
           Table::row(-21168000, 7200, 3600, "EEST")
          }
         } else {
          if i < 25 {
           Table::row(-7952400, 7200, 0, "EET")
          } else {
           Table::row(10368000, 7200, 3600, "EEST")
          }
         }
        } else {
         if i < 28 {
          if i < 27 {
           Table::row(23583600, 7200, 0, "EET")
          } else {
           Table::row(41904000, 7200, 3600, "EEST")
          }
         } else {
          if i < 29 {
           Table::row(55119600, 7200, 0, "EET")
          } else {
           Table::row(73526400, 7200, 3600, "EEST")
          }
         }
        }
       }
      }
     } else {
      if i < 45 {
       if i < 37 {
        if i < 33 {
         if i < 31 {
          Table::row(86742000, 7200, 0, "EET")
         } else {
          if i < 32 {
           Table::row(105062400, 7200, 3600, "EEST")
          } else {
           Table::row(118278000, 7200, 0, "EET")
          }
         }
        } else {
         if i < 35 {
          if i < 34 {
           Table::row(136598400, 7200, 3600, "EEST")
          } else {
           Table::row(149814000, 7200, 0, "EET")
          }
         } else {
          if i < 36 {
           Table::row(168134400, 7200, 3600, "EEST")
          } else {
           Table::row(181350000, 7200, 0, "EET")
          }
         }
        }
       } else {
        if i < 41 {
         if i < 39 {
          if i < 38 {
           Table::row(199756800, 7200, 3600, "EEST")
          } else {
           Table::row(212972400, 7200, 0, "EET")
          }
         } else {
          if i < 40 {
           Table::row(231292800, 7200, 3600, "EEST")
          } else {
           Table::row(241916400, 7200, 0, "EET")
          }
         }
        } else {
         if i < 43 {
          if i < 42 {
           Table::row(262828800, 7200, 3600, "EEST")
          } else {
           Table::row(273452400, 7200, 0, "EET")
          }
         } else {
          if i < 44 {
           Table::row(418694400, 7200, 3600, "EEST")
          } else {
           Table::row(433810800, 7200, 0, "EET")
          }
         }
        }
       }
      } else {
       if i < 53 {
        if i < 49 {
         if i < 47 {
          if i < 46 {
           Table::row(450316800, 7200, 3600, "EEST")
          } else {
           Table::row(465433200, 7200, 0, "EET")
          }
         } else {
          if i < 48 {
           Table::row(508896000, 7200, 3600, "EEST")
          } else {
           Table::row(529196400, 7200, 0, "EET")
          }
         }
        } else {
         if i < 51 {
          if i < 50 {
           Table::row(541555200, 7200, 3600, "EEST")
          } else {
           Table::row(562633200, 7200, 0, "EET")
          }
         } else {
          if i < 52 {
           Table::row(574387200, 7200, 3600, "EEST")
          } else {
           Table::row(594255600, 7200, 0, "EET")
          }
         }
        }
       } else {
        if i < 57 {
         if i < 55 {
          if i < 54 {
           Table::row(607305600, 7200, 3600, "EEST")
          } else {
           Table::row(623199600, 7200, 0, "EET")
          }
         } else {
          if i < 56 {
           Table::row(638928000, 7200, 3600, "EEST")
          } else {
           Table::row(654649200, 7200, 0, "EET")
          }
         }
        } else {
         if i < 59 {
          if i < 58 {
           Table::row(670456800, 7200, 3600, "EEST")
          } else {
           Table::row(686264400, 7200, 0, "EET")
          }
         } else {
          if i < 60 {
           Table::row(702684000, 7200, 3600, "EEST")
          } else {
           Table::row(717886800, 7200, 0, "EET")
          }
         }
        }
       }
      }
     }
    } else {
     if i < 91 {
      if i < 76 {
       if i < 68 {
        if i < 64 {
         if i < 62 {
          Table::row(733096800, 7200, 3600, "EEST")
         } else {
          if i < 63 {
           Table::row(748904400, 7200, 0, "EET")
          } else {
           Table::row(765151200, 7200, 3600, "EEST")
          }
         }
        } else {
         if i < 66 {
          if i < 65 {
           Table::row(780958800, 7200, 0, "EET")
          } else {
           Table::row(796687200, 7200, 3600, "EEST")
          }
         } else {
          if i < 67 {
           Table::row(812494800, 7200, 0, "EET")
          } else {
           Table::row(828309600, 7200, 3600, "EEST")
          }
         }
        }
       } else {
        if i < 72 {
         if i < 70 {
          if i < 69 {
           Table::row(844117200, 7200, 0, "EET")
          } else {
           Table::row(859759200, 7200, 3600, "EEST")
          }
         } else {
          if i < 71 {
           Table::row(875653200, 7200, 0, "EET")
          } else {
           Table::row(891208800, 7200, 3600, "EEST")
          }
         }
        } else {
         if i < 74 {
          if i < 73 {
           Table::row(907189200, 7200, 0, "EET")
          } else {
           Table::row(922917600, 7200, 3600, "EEST")
          }
         } else {
          if i < 75 {
           Table::row(938725200, 7200, 0, "EET")
          } else {
           Table::row(954540000, 7200, 3600, "EEST")
          }
         }
        }
       }
      } else {
       if i < 83 {
        if i < 79 {
         if i < 77 {
          Table::row(970347600, 7200, 0, "EET")
         } else {
          if i < 78 {
           Table::row(986076000, 7200, 3600, "EEST")
          } else {
           Table::row(1001883600, 7200, 0, "EET")
          }
         }
        } else {
         if i < 81 {
          if i < 80 {
           Table::row(1017612000, 7200, 3600, "EEST")
          } else {
           Table::row(1033419600, 7200, 0, "EET")
          }
         } else {
          if i < 82 {
           Table::row(1049148000, 7200, 3600, "EEST")
          } else {
           Table::row(1064955600, 7200, 0, "EET")
          }
         }
        }
       } else {
        if i < 87 {
         if i < 85 {
          if i < 84 {
           Table::row(1080770400, 7200, 3600, "EEST")
          } else {
           Table::row(1096578000, 7200, 0, "EET")
          }
         } else {
          if i < 86 {
           Table::row(1112306400, 7200, 3600, "EEST")
          } else {
           Table::row(1128114000, 7200, 0, "EET")
          }
         }
        } else {
         if i < 89 {
          if i < 88 {
           Table::row(1143842400, 7200, 3600, "EEST")
          } else {
           Table::row(1158872400, 7200, 0, "EET")
          }
         } else {
          if i < 90 {
           Table::row(1175205600, 7200, 3600, "EEST")
          } else {
           Table::row(1193950800, 7200, 0, "EET")
          }
         }
        }
       }
      }
     } else {
      if i < 106 {
       if i < 98 {
        if i < 94 {
         if i < 92 {
          Table::row(1207260000, 7200, 3600, "EEST")
         } else {
          if i < 93 {
           Table::row(1225486800, 7200, 0, "EET")
          } else {
           Table::row(1238104800, 7200, 3600, "EEST")
          }
         }
        } else {
         if i < 96 {
          if i < 95 {
           Table::row(1256850000, 7200, 0, "EET")
          } else {
           Table::row(1270159200, 7200, 3600, "EEST")
          }
         } else {
          if i < 97 {
           Table::row(1288299600, 7200, 0, "EET")
          } else {
           Table::row(1301608800, 7200, 3600, "EEST")
          }
         }
        }
       } else {
        if i < 102 {
         if i < 100 {
          if i < 99 {
           Table::row(1319749200, 7200, 0, "EET")
          } else {
           Table::row(1333058400, 7200, 3600, "EEST")
          }
         } else {
          if i < 101 {
           Table::row(1351198800, 7200, 0, "EET")
          } else {
           Table::row(1364508000, 7200, 3600, "EEST")
          }
         }
        } else {
         if i < 104 {
          if i < 103 {
           Table::row(1382648400, 7200, 0, "EET")
          } else {
           Table::row(1395957600, 7200, 3600, "EEST")
          }
         } else {
          if i < 105 {
           Table::row(1414702800, 7200, 0, "EET")
          } else {
           Table::row(1427407200, 7200, 3600, "EEST")
          }
         }
        }
       }
      } else {
       if i < 114 {
        if i < 110 {
         if i < 108 {
          if i < 107 {
           Table::row(1446152400, 7200, 0, "EET")
          } else {
           Table::row(1458856800, 7200, 3600, "EEST")
          }
         } else {
          if i < 109 {
           Table::row(1477602000, 7200, 0, "EET")
          } else {
           Table::row(1490911200, 7200, 3600, "EEST")
          }
         }
        } else {
         if i < 112 {
          if i < 111 {
           Table::row(1509051600, 7200, 0, "EET")
          } else {
           Table::row(1522360800, 7200, 3600, "EEST")
          }
         } else {
          if i < 113 {
           Table::row(1540501200, 7200, 0, "EET")
          } else {
           Table::row(1553810400, 7200, 3600, "EEST")
          }
         }
        }
       } else {
        if i < 118 {
         if i < 116 {
          if i < 115 {
           Table::row(1571950800, 7200, 0, "EET")
          } else {
           Table::row(1585260000, 7200, 3600, "EEST")
          }
         } else {
          if i < 117 {
           Table::row(1604005200, 7200, 0, "EET")
          } else {
           Table::row(1616709600, 7200, 3600, "EEST")
          }
         }
        } else {
         if i < 120 {
          if i < 119 {
           Table::row(1635454800, 7200, 0, "EET")
          } else {
           Table::row(1648159200, 7200, 3600, "EEST")
          }
         } else {
          if i < 121 {
           Table::row(1666904400, 10800, 0, "+03")
          } else {
           Table::row(2147483647, 10800, 0, "+03")
          }
         }
        }
       }
      }
     }
    }
}

/// The rows of the table of the zone `Asia/Damascus`.
pub open spec fn damascus_rows() -> spec_fn(int) -> (i64, FixedTimespan) {
    |i: int| damascus_row(i)
}

/// The table of the zone `Asia/Damascus`.
pub open spec fn damascus() -> Table {
    Table::listed(Table::row(0, 8712, 0, "LMT").1, 122, damascus_rows())
}

/// Row `i` of the table of the zone `Asia/Dhaka`.
pub open spec fn dhaka_row(i: int) -> (i64, FixedTimespan) {
    if i < 4 {
     if i < 2 {
      if i < 1 {
       Table::row(-2524543300, 21200, 0, "HMT")
      } else {
       Table::row(-891582800, 23400, 0, "+0630")
      }
     } else {
      if i < 3 {
       Table::row(-872058600, 19800, 0, "+0530")
      } else {
       Table::row(-862637400, 23400, 0, "+0630")
      }
     }
    } else {
     if i < 6 {
      if i < 5 {
       Table::row(-576138600, 21600, 0, "+06")
      } else {
       Table::row(1245430800, 21600, 3600, "+07")
      }
     } else {
      if i < 7 {
       Table::row(1262278800, 21600, 0, "+06")
      } else {
       Table::row(2147483647, 21600, 0, "+06")
      }
     }
    }
}

/// The rows of the table of the zone `Asia/Dhaka`.
pub open spec fn dhaka_rows() -> spec_fn(int) -> (i64, FixedTimespan) {
    |i: int| dhaka_row(i)
}

/// The table of the zone `Asia/Dhaka`.
pub open spec fn dhaka() -> Table {
    Table::listed(Table::row(0, 21700, 0, "LMT").1, 8, dhaka_rows())
}

/// Row `i` of the table of the zone `Asia/Dili`.
pub open spec fn dili_row(i: int) -> (i64, FixedTimespan) {
    if i < 2 {
     if i < 1 {
      Table::row(-1830412800, 28800, 0, "+08")
     } else {
      Table::row(-879152400, 32400, 0, "+09")
     }
    } else {
     if i < 3 {
      Table::row(199897200, 28800, 0, "+08")
     } else {
      if i < 4 {
       Table::row(969120000, 32400, 0, "+09")
      } else {
       Table::row(2147483647, 32400, 0, "+09")
      }
     }
    }
}

/// The rows of the table of the zone `Asia/Dili`.
pub open spec fn dili_rows() -> spec_fn(int) -> (i64, FixedTimespan) {
    |i: int| dili_row(i)
}

/// The table of the zone `Asia/Dili`.
pub open spec fn dili() -> Table {
    Table::listed(Table::row(0, 30140, 0, "LMT").1, 5, dili_rows())
}

/// Row `i` of the table of the zone `Asia/Dubai`.
pub open spec fn dubai_row(i: int) -> (i64, FixedTimespan) {
    if i < 1 {
     Table::row(-1577936472, 14400, 0, "+04")
    } else {
     Table::row(2147483647, 14400, 0, "+04")
    }
}

/// The rows of the table of the zone `Asia/Dubai`.
pub open spec fn dubai_rows() -> spec_fn(int) -> (i64, FixedTimespan) {
    |i: int| dubai_row(i)
}

/// The table of the zone `Asia/Dubai`.
pub open spec fn dubai() -> Table {
    Table::listed(Table::row(0, 13272, 0, "LMT").1, 2, dubai_rows())
}

/// Row `i` of the table of the zone `Asia/Dushanbe`.
pub open spec fn dushanbe_row(i: int) -> (i64, FixedTimespan) {
    if i < 12 {
     if i < 6 {
      if i < 3 {
       if i < 1 {
        Table::row(-1441168512, 18000, 0, "+05")
       } else {
        if i < 2 {
         Table::row(-1247547600, 21600, 0, "+06")
        } else {
         Table::row(354909600, 21600, 3600, "+07")
        }
       }
      } else {
       if i < 4 {
        Table::row(370717200, 21600, 0, "+06")
       } else {
        if i < 5 {
         Table::row(386445600, 21600, 3600, "+07")
        } else {
         Table::row(402253200, 21600, 0, "+06")
        }
       }
      }
     } else {
      if i < 9 {
       if i < 7 {
        Table::row(417981600, 21600, 3600, "+07")
       } else {
        if i < 8 {
         Table::row(433789200, 21600, 0, "+06")
        } else {
         Table::row(449604000, 21600, 3600, "+07")
        }
       }
      } else {
       if i < 10 {
        Table::row(465336000, 21600, 0, "+06")
       } else {
        if i < 11 {
         Table::row(481060800, 21600, 3600, "+07")
        } else {
         Table::row(496785600, 21600, 0, "+06")
        }
       }
      }
     }
    } else {
     if i < 18 {
      if i < 15 {
       if i < 13 {
        Table::row(512510400, 21600, 3600, "+07")
       } else {
        if i < 14 {
         Table::row(528235200, 21600, 0, "+06")
        } else {
         Table::row(543960000, 21600, 3600, "+07")
        }
       }
      } else {
       if i < 16 {
        Table::row(559684800, 21600, 0, "+06")
       } else {
        if i < 17 {
         Table::row(575409600, 21600, 3600, "+07")
        } else {
         Table::row(591134400, 21600, 0, "+06")
        }
       }
      }
     } else {
      if i < 21 {
       if i < 19 {
        Table::row(606859200, 21600, 3600, "+07")
       } else {
        if i < 20 {
         Table::row(622584000, 21600, 0, "+06")
        } else {
         Table::row(638308800, 21600, 3600, "+07")
        }
       }
      } else {
       if i < 23 {
        if i < 22 {
         Table::row(654638400, 21600, 0, "+06")
        } else {
         Table::row(670363200, 18000, 3600, "+06")
        }
       } else {
        if i < 24 {
         Table::row(684363600, 18000, 0, "+05")
        } else {
         Table::row(2147483647, 18000, 0, "+05")
        }
       }
      }
     }
    }
}

/// The rows of the table of the zone `Asia/Dushanbe`.
pub open spec fn dushanbe_rows() -> spec_fn(int) -> (i64, FixedTimespan) {
    |i: int| dushanbe_row(i)
}

/// The table of the zone `Asia/Dushanbe`.
pub open spec fn dushanbe() -> Table {
    Table::listed(Table::row(0, 16512, 0, "LMT").1, 25, dushanbe_rows())
}

/// Row `i` of the table of the zone `Asia/Famagusta`.
pub open spec fn famagusta_row(i: int) -> (i64, FixedTimespan) {
    if i < 63 {
     if i < 31 {
      if i < 15 {
       if i < 7 {
        if i < 3 {
         if i < 1 {
          Table::row(-1518920148, 7200, 0, "EET")
         } else {
          if i < 2 {
           Table::row(166572000, 7200, 3600, "EEST")
          } else {
           Table::row(182293200, 7200, 0, "EET")
          }
         }
        } else {
         if i < 5 {
          if i < 4 {
           Table::row(200959200, 7200, 3600, "EEST")
          } else {
           Table::row(213829200, 7200, 0, "EET")
          }
         } else {
          if i < 6 {
           Table::row(228866400, 7200, 3600, "EEST")
          } else {
           Table::row(243982800, 7200, 0, "EET")
          }
         }
        }
       } else {
        if i < 11 {
         if i < 9 {
          if i < 8 {
           Table::row(260316000, 7200, 3600, "EEST")
          } else {
           Table::row(276123600, 7200, 0, "EET")
          }
         } else {
          if i < 10 {
           Table::row(291765600, 7200, 3600, "EEST")
          } else {
           Table::row(307486800, 7200, 0, "EET")
          }
         }
        } else {
         if i < 13 {
          if i < 12 {
           Table::row(323820000, 7200, 3600, "EEST")
          } else {
           Table::row(338936400, 7200, 0, "EET")
          }
         } else {
          if i < 14 {
           Table::row(354664800, 7200, 3600, "EEST")
          } else {
           Table::row(370386000, 7200, 0, "EET")
          }
         }
        }
       }
      } else {
       if i < 23 {
        if i < 19 {
         if i < 17 {
          if i < 16 {
           Table::row(386114400, 7200, 3600, "EEST")
          } else {
           Table::row(401835600, 7200, 0, "EET")
          }
         } else {
          if i < 18 {
           Table::row(417564000, 7200, 3600, "EEST")
          } else {
           Table::row(433285200, 7200, 0, "EET")
          }
         }
        } else {
         if i < 21 {
          if i < 20 {
           Table::row(449013600, 7200, 3600, "EEST")
          } else {
           Table::row(465339600, 7200, 0, "EET")
          }
         } else {
          if i < 22 {
           Table::row(481068000, 7200, 3600, "EEST")
          } else {
           Table::row(496789200, 7200, 0, "EET")
          }
         }
        }
       } else {
        if i < 27 {
         if i < 25 {
          if i < 24 {
           Table::row(512517600, 7200, 3600, "EEST")
          } else {
           Table::row(528238800, 7200, 0, "EET")
          }
         } else {
          if i < 26 {
           Table::row(543967200, 7200, 3600, "EEST")
          } else {
           Table::row(559688400, 7200, 0, "EET")
          }
         }
        } else {
         if i < 29 {
          if i < 28 {
           Table::row(575416800, 7200, 3600, "EEST")
          } else {
           Table::row(591138000, 7200, 0, "EET")
          }
         } else {
          if i < 30 {
           Table::row(606866400, 7200, 3600, "EEST")
          } else {
           Table::row(622587600, 7200, 0, "EET")
          }
         }
        }
       }
      }
     } else {
      if i < 47 {
       if i < 39 {
        if i < 35 {
         if i < 33 {
          if i < 32 {
           Table::row(638316000, 7200, 3600, "EEST")
          } else {
           Table::row(654642000, 7200, 0, "EET")
          }
         } else {
          if i < 34 {
           Table::row(670370400, 7200, 3600, "EEST")
          } else {
           Table::row(686091600, 7200, 0, "EET")
          }
         }
        } else {
         if i < 37 {
          if i < 36 {
           Table::row(701820000, 7200, 3600, "EEST")
          } else {
           Table::row(717541200, 7200, 0, "EET")
          }
         } else {
          if i < 38 {
           Table::row(733269600, 7200, 3600, "EEST")
          } else {
           Table::row(748990800, 7200, 0, "EET")
          }
         }
        }
       } else {
        if i < 43 {
         if i < 41 {
          if i < 40 {
           Table::row(764719200, 7200, 3600, "EEST")
          } else {
           Table::row(780440400, 7200, 0, "EET")
          }
         } else {
          if i < 42 {
           Table::row(796168800, 7200, 3600, "EEST")
          } else {
           Table::row(811890000, 7200, 0, "EET")
          }
         }
        } else {
         if i < 45 {
          if i < 44 {
           Table::row(828223200, 7200, 3600, "EEST")
          } else {
           Table::row(843944400, 7200, 0, "EET")
          }
         } else {
          if i < 46 {
           Table::row(859672800, 7200, 3600, "EEST")
          } else {
           Table::row(875394000, 7200, 0, "EET")
          }
         }
        }
       }
      } else {
       if i < 55 {
        if i < 51 {
         if i < 49 {
          if i < 48 {
           Table::row(891122400, 7200, 3600, "EEST")
          } else {
           Table::row(909277200, 7200, 0, "EET")
          }
         } else {
          if i < 50 {
           Table::row(922582800, 7200, 3600, "EEST")
          } else {
           Table::row(941331600, 7200, 0, "EET")
          }
         }
        } else {
         if i < 53 {
          if i < 52 {
           Table::row(954032400, 7200, 3600, "EEST")
          } else {
           Table::row(972781200, 7200, 0, "EET")
          }
         } else {
          if i < 54 {
           Table::row(985482000, 7200, 3600, "EEST")
          } else {
           Table::row(1004230800, 7200, 0, "EET")
          }
         }
        }
       } else {
        if i < 59 {
         if i < 57 {
          if i < 56 {
           Table::row(1017536400, 7200, 3600, "EEST")
          } else {
           Table::row(1035680400, 7200, 0, "EET")
          }
         } else {
          if i < 58 {
           Table::row(1048986000, 7200, 3600, "EEST")
          } else {
           Table::row(1067130000, 7200, 0, "EET")
          }
         }
        } else {
         if i < 61 {
          if i < 60 {
           Table::row(1080435600, 7200, 3600, "EEST")
          } else {
           Table::row(1099184400, 7200, 0, "EET")
          }
         } else {
          if i < 62 {
           Table::row(1111885200, 7200, 3600, "EEST")
          } else {
           Table::row(1130634000, 7200, 0, "EET")
          }
         }
        }
       }
      }
     }
    } else {
     if i < 94 {
      if i < 78 {
       if i < 70 {
        if i < 66 {
         if i < 64 {
          Table::row(1143334800, 7200, 3600, "EEST")
         } else {
          if i < 65 {
           Table::row(1162083600, 7200, 0, "EET")
          } else {
           Table::row(1174784400, 7200, 3600, "EEST")
          }
         }
        } else {
         if i < 68 {
          if i < 67 {
           Table::row(1193533200, 7200, 0, "EET")
          } else {
           Table::row(1206838800, 7200, 3600, "EEST")
          }
         } else {
          if i < 69 {
           Table::row(1224982800, 7200, 0, "EET")
          } else {
           Table::row(1238288400, 7200, 3600, "EEST")
          }
         }
        }
       } else {
        if i < 74 {
         if i < 72 {
          if i < 71 {
           Table::row(1256432400, 7200, 0, "EET")
          } else {
           Table::row(1269738000, 7200, 3600, "EEST")
          }
         } else {
          if i < 73 {
           Table::row(1288486800, 7200, 0, "EET")
          } else {
           Table::row(1301187600, 7200, 3600, "EEST")
          }
         }
        } else {
         if i < 76 {
          if i < 75 {
           Table::row(1319936400, 7200, 0, "EET")
          } else {
           Table::row(1332637200, 7200, 3600, "EEST")
          }
         } else {
          if i < 77 {
           Table::row(1351386000, 7200, 0, "EET")
          } else {
           Table::row(1364691600, 7200, 3600, "EEST")
          }
         }
        }
       }
      } else {
       if i < 86 {
        if i < 82 {
         if i < 80 {
          if i < 79 {
           Table::row(1382835600, 7200, 0, "EET")
          } else {
           Table::row(1396141200, 7200, 3600, "EEST")
          }
         } else {
          if i < 81 {
           Table::row(1414285200, 7200, 0, "EET")
          } else {
           Table::row(1427590800, 7200, 3600, "EEST")
          }
         }
        } else {
         if i < 84 {
          if i < 83 {
           Table::row(1445734800, 7200, 0, "EET")
          } else {
           Table::row(1459040400, 7200, 3600, "EEST")
          }
         } else {
          if i < 85 {
           Table::row(1473282000, 10800, 0, "+03")
          } else {
           Table::row(1509238800, 7200, 0, "EET")
          }
         }
        }
       } else {
        if i < 90 {
         if i < 88 {
          if i < 87 {
           Table::row(1521939600, 7200, 3600, "EEST")
          } else {
           Table::row(1540688400, 7200, 0, "EET")
          }
         } else {
          if i < 89 {
           Table::row(1553994000, 7200, 3600, "EEST")
          } else {
           Table::row(1572138000, 7200, 0, "EET")
          }
         }
        } else {
         if i < 92 {
          if i < 91 {
           Table::row(1585443600, 7200, 3600, "EEST")
          } else {
           Table::row(1603587600, 7200, 0, "EET")
          }
         } else {
          if i < 93 {
           Table::row(1616893200, 7200, 3600, "EEST")
          } else {
           Table::row(1635642000, 7200, 0, "EET")
          }
         }
        }
       }
      }
     } else {
      if i < 110 {
       if i < 102 {
        if i < 98 {
         if i < 96 {
          if i < 95 {
           Table::row(1648342800, 7200, 3600, "EEST")
          } else {
           Table::row(1667091600, 7200, 0, "EET")
          }
         } else {
          if i < 97 {
           Table::row(1679792400, 7200, 3600, "EEST")
          } else {
           Table::row(1698541200, 7200, 0, "EET")
          }
         }
        } else {
         if i < 100 {
          if i < 99 {
           Table::row(1711846800, 7200, 3600, "EEST")
          } else {
           Table::row(1729990800, 7200, 0, "EET")
          }
         } else {
          if i < 101 {
           Table::row(1743296400, 7200, 3600, "EEST")
          } else {
           Table::row(1761440400, 7200, 0, "EET")
          }
         }
        }
       } else {
        if i < 106 {
         if i < 104 {
          if i < 103 {
           Table::row(1774746000, 7200, 3600, "EEST")
          } else {
           Table::row(1792890000, 7200, 0, "EET")
          }
         } else {
          if i < 105 {
           Table::row(1806195600, 7200, 3600, "EEST")
          } else {
           Table::row(1824944400, 7200, 0, "EET")
          }
         }
        } else {
         if i < 108 {
          if i < 107 {
           Table::row(1837645200, 7200, 3600, "EEST")
          } else {
           Table::row(1856394000, 7200, 0, "EET")
          }
         } else {
          if i < 109 {
           Table::row(1869094800, 7200, 3600, "EEST")
          } else {
           Table::row(1887843600, 7200, 0, "EET")
          }
         }
        }
       }
      } else {
       if i < 118 {
        if i < 114 {
         if i < 112 {
          if i < 111 {
           Table::row(1901149200, 7200, 3600, "EEST")
          } else {
           Table::row(1919293200, 7200, 0, "EET")
          }
         } else {
          if i < 113 {
           Table::row(1932598800, 7200, 3600, "EEST")
          } else {
           Table::row(1950742800, 7200, 0, "EET")
          }
         }
        } else {
         if i < 116 {
          if i < 115 {
           Table::row(1964048400, 7200, 3600, "EEST")
          } else {
           Table::row(1982797200, 7200, 0, "EET")
          }
         } else {
          if i < 117 {
           Table::row(1995498000, 7200, 3600, "EEST")
          } else {
           Table::row(2014246800, 7200, 0, "EET")
          }
         }
        }
       } else {
        if i < 122 {
         if i < 120 {
          if i < 119 {
           Table::row(2026947600, 7200, 3600, "EEST")
          } else {
           Table::row(2045696400, 7200, 0, "EET")
          }
         } else {
          if i < 121 {
           Table::row(2058397200, 7200, 3600, "EEST")
          } else {
           Table::row(2077146000, 7200, 0, "EET")
          }
         }
        } else {
         if i < 124 {
          if i < 123 {
           Table::row(2090451600, 7200, 3600, "EEST")
          } else {
           Table::row(2108595600, 7200, 0, "EET")
          }
         } else {
          if i < 125 {
           Table::row(2121901200, 7200, 3600, "EEST")
          } else {
           Table::row(2140045200, 7200, 0, "EET")
          }
         }
        }
       }
      }
     }
    }
}

/// The rows of the table of the zone `Asia/Famagusta`.
pub open spec fn famagusta_rows() -> spec_fn(int) -> (i64, FixedTimespan) {
    |i: int| famagusta_row(i)
}

/// The table of the zone `Asia/Famagusta`.
pub open spec fn famagusta() -> Table {
    Table::listed(Table::row(0, 8148, 0, "LMT").1, 126, famagusta_rows())
}

/// Row `i` of the table of the zone `Asia/Gaza`.
pub open spec fn gaza_row(i: int) -> (i64, FixedTimespan) {
    if i < 154 {
     if i < 77 {
      if i < 38 {
       if i < 19 {
        if i < 9 {
         if i < 4 {
          if i < 2 {
           if i < 1 {
            Table::row(-2185409872, 7200, 0, "EET")
           } else {
            Table::row(-933638400, 7200, 3600, "EEST")
           }
          } else {
           if i < 3 {
            Table::row(-923097600, 7200, 0, "EET")
           } else {
            Table::row(-919036800, 7200, 3600, "EEST")
           }
          }
         } else {
          if i < 6 {
           if i < 5 {
            Table::row(-857347200, 7200, 0, "EET")
           } else {
            Table::row(-844300800, 7200, 3600, "EEST")
           }
          } else {
           if i < 7 {
            Table::row(-825811200, 7200, 0, "EET")
           } else {
            if i < 8 {
             Table::row(-812678400, 7200, 3600, "EEST")
            } else {
             Table::row(-794188800, 7200, 0, "EET")
            }
           }
          }
         }
        } else {
         if i < 14 {
          if i < 11 {
           if i < 10 {
            Table::row(-779846400, 7200, 3600, "EEST")
           } else {
            Table::row(-762652800, 7200, 0, "EET")
           }
          } else {
           if i < 12 {
            Table::row(-748310400, 7200, 3600, "EEST")
           } else {
            if i < 13 {
             Table::row(-731116800, 7200, 0, "EET")
            } else {
             Table::row(-399088800, 7200, 3600, "EEST")
            }
           }
          }
         } else {
          if i < 16 {
           if i < 15 {
            Table::row(-386650800, 7200, 0, "EET")
           } else {
            Table::row(-368330400, 7200, 3600, "EEST")
           }
          } else {
           if i < 17 {
            Table::row(-355114800, 7200, 0, "EET")
           } else {
            if i < 18 {
             Table::row(-336790800, 7200, 3600, "EEST")
            } else {
             Table::row(-323654400, 7200, 0, "EET")
            }
           }
          }
         }
        }
       } else {
        if i < 28 {
         if i < 23 {
          if i < 21 {
           if i < 20 {
            Table::row(-305168400, 7200, 3600, "EEST")
           } else {
            Table::row(-292032000, 7200, 0, "EET")
           }
          } else {
           if i < 22 {
            Table::row(-273632400, 7200, 3600, "EEST")
           } else {
            Table::row(-260496000, 7200, 0, "EET")
           }
          }
         } else {
          if i < 25 {
           if i < 24 {
            Table::row(-242096400, 7200, 3600, "EEST")
           } else {
            Table::row(-228960000, 7200, 0, "EET")
           }
          } else {
           if i < 26 {
            Table::row(-210560400, 7200, 3600, "EEST")
           } else {
            if i < 27 {
             Table::row(-197424000, 7200, 0, "EET")
            } else {
             Table::row(-178938000, 7200, 3600, "EEST")
            }
           }
          }
         }
        } else {
         if i < 33 {
          if i < 30 {
           if i < 29 {
            Table::row(-165801600, 7200, 0, "EET")
           } else {
            Table::row(-147402000, 7200, 3600, "EEST")
           }
          } else {
           if i < 31 {
            Table::row(-134265600, 7200, 0, "EET")
           } else {
            if i < 32 {
             Table::row(-115866000, 7200, 3600, "EEST")
            } else {
             Table::row(-102643200, 7200, 0, "EET")
            }
           }
          }
         } else {
          if i < 35 {
           if i < 34 {
            Table::row(-84330000, 7200, 3600, "EEST")
           } else {
            Table::row(-81313200, 7200, 0, "IST")
           }
          } else {
           if i < 36 {
            Table::row(142380000, 7200, 3600, "IDT")
           } else {
            if i < 37 {
             Table::row(150843600, 7200, 0, "IST")
            } else {
             Table::row(167176800, 7200, 3600, "IDT")
            }
           }
          }
         }
        }
       }
      } else {
       if i < 57 {
        if i < 47 {
         if i < 42 {
          if i < 40 {
           if i < 39 {
            Table::row(178664400, 7200, 0, "IST")
           } else {
            Table::row(334101600, 7200, 3600, "IDT")
           }
          } else {
           if i < 41 {
            Table::row(337730400, 7200, 0, "IST")
           } else {
            Table::row(452642400, 7200, 3600, "IDT")
           }
          }
         } else {
          if i < 44 {
           if i < 43 {
            Table::row(462319200, 7200, 0, "IST")
           } else {
            Table::row(482277600, 7200, 3600, "IDT")
           }
          } else {
           if i < 45 {
            Table::row(494370000, 7200, 0, "IST")
           } else {
            if i < 46 {
             Table::row(516751200, 7200, 3600, "IDT")
            } else {
             Table::row(526424400, 7200, 0, "IST")
            }
           }
          }
         }
        } else {
         if i < 52 {
          if i < 49 {
           if i < 48 {
            Table::row(545436000, 7200, 3600, "IDT")
           } else {
            Table::row(558478800, 7200, 0, "IST")
           }
          } else {
           if i < 50 {
            Table::row(576626400, 7200, 3600, "IDT")
           } else {
            if i < 51 {
             Table::row(589323600, 7200, 0, "IST")
            } else {
             Table::row(609890400, 7200, 3600, "IDT")
            }
           }
          }
         } else {
          if i < 54 {
           if i < 53 {
            Table::row(620773200, 7200, 0, "IST")
           } else {
            Table::row(638316000, 7200, 3600, "IDT")
           }
          } else {
           if i < 55 {
            Table::row(651618000, 7200, 0, "IST")
           } else {
            if i < 56 {
             Table::row(669765600, 7200, 3600, "IDT")
            } else {
             Table::row(683672400, 7200, 0, "IST")
            }
           }
          }
         }
        }
       } else {
        if i < 67 {
         if i < 62 {
          if i < 59 {
           if i < 58 {
            Table::row(701820000, 7200, 3600, "IDT")
           } else {
            Table::row(715726800, 7200, 0, "IST")
           }
          } else {
           if i < 60 {
            Table::row(733701600, 7200, 3600, "IDT")
           } else {
            if i < 61 {
             Table::row(747176400, 7200, 0, "IST")
            } else {
             Table::row(765151200, 7200, 3600, "IDT")
            }
           }
          }
         } else {
          if i < 64 {
           if i < 63 {
            Table::row(778021200, 7200, 0, "IST")
           } else {
            Table::row(796600800, 7200, 3600, "IDT")
           }
          } else {
           if i < 65 {
            Table::row(810075600, 7200, 0, "IST")
           } else {
            if i < 66 {
             Table::row(820447200, 7200, 0, "EET")
            } else {
             Table::row(828655200, 7200, 3600, "EEST")
            }
           }
          }
         }
        } else {
         if i < 72 {
          if i < 69 {
           if i < 68 {
            Table::row(843170400, 7200, 0, "EET")
           } else {
            Table::row(860104800, 7200, 3600, "EEST")
           }
          } else {
           if i < 70 {
            Table::row(874620000, 7200, 0, "EET")
           } else {
            if i < 71 {
             Table::row(891554400, 7200, 3600, "EEST")
            } else {
             Table::row(906069600, 7200, 0, "EET")
            }
           }
          }
         } else {
          if i < 74 {
           if i < 73 {
            Table::row(924213600, 7200, 3600, "EEST")
           } else {
            Table::row(939934800, 7200, 0, "EET")
           }
          } else {
           if i < 75 {
            Table::row(956268000, 7200, 3600, "EEST")
           } else {
            if i < 76 {
             Table::row(971989200, 7200, 0, "EET")
            } else {
             Table::row(987717600, 7200, 3600, "EEST")
            }
           }
          }
         }
        }
       }
      }
     } else {
      if i < 115 {
       if i < 96 {
        if i < 86 {
         if i < 81 {
          if i < 79 {
           if i < 78 {
            Table::row(1003438800, 7200, 0, "EET")
           } else {
            Table::row(1019167200, 7200, 3600, "EEST")
           }
          } else {
           if i < 80 {
            Table::row(1034888400, 7200, 0, "EET")
           } else {
            Table::row(1050616800, 7200, 3600, "EEST")
           }
          }
         } else {
          if i < 83 {
           if i < 82 {
            Table::row(1066338000, 7200, 0, "EET")
           } else {
            Table::row(1082066400, 7200, 3600, "EEST")
           }
          } else {
           if i < 84 {
            Table::row(1096581600, 7200, 0, "EET")
           } else {
            if i < 85 {
             Table::row(1113516000, 7200, 3600, "EEST")
            } else {
             Table::row(1128380400, 7200, 0, "EET")
            }
           }
          }
         }
        } else {
         if i < 91 {
          if i < 88 {
           if i < 87 {
            Table::row(1143842400, 7200, 3600, "EEST")
           } else {
            Table::row(1158872400, 7200, 0, "EET")
           }
          } else {
           if i < 89 {
            Table::row(1175378400, 7200, 3600, "EEST")
           } else {
            if i < 90 {
             Table::row(1189638000, 7200, 0, "EET")
            } else {
             Table::row(1206655200, 7200, 3600, "EEST")
            }
           }
          }
         } else {
          if i < 93 {
           if i < 92 {
            Table::row(1219957200, 7200, 0, "EET")
           } else {
            Table::row(1238104800, 7200, 3600, "EEST")
           }
          } else {
           if i < 94 {
            Table::row(1252015200, 7200, 0, "EET")
           } else {
            if i < 95 {
             Table::row(1269640860, 7200, 3600, "EEST")
            } else {
             Table::row(1281474000, 7200, 0, "EET")
            }
           }
          }
         }
        }
       } else {
        if i < 105 {
         if i < 100 {
          if i < 98 {
           if i < 97 {
            Table::row(1301608860, 7200, 3600, "EEST")
           } else {
            Table::row(1312146000, 7200, 0, "EET")
           }
          } else {
           if i < 99 {
            Table::row(1333058400, 7200, 3600, "EEST")
           } else {
            Table::row(1348178400, 7200, 0, "EET")
           }
          }
         } else {
          if i < 102 {
           if i < 101 {
            Table::row(1364508000, 7200, 3600, "EEST")
           } else {
            Table::row(1380229200, 7200, 0, "EET")
           }
          } else {
           if i < 103 {
            Table::row(1395957600, 7200, 3600, "EEST")
           } else {
            if i < 104 {
             Table::row(1414098000, 7200, 0, "EET")
            } else {
             Table::row(1427493600, 7200, 3600, "EEST")
            }
           }
          }
         }
        } else {
         if i < 110 {
          if i < 107 {
           if i < 106 {
            Table::row(1445551200, 7200, 0, "EET")
           } else {
            Table::row(1458946800, 7200, 3600, "EEST")
           }
          } else {
           if i < 108 {
            Table::row(1477692000, 7200, 0, "EET")
           } else {
            if i < 109 {
             Table::row(1490396400, 7200, 3600, "EEST")
            } else {
             Table::row(1509141600, 7200, 0, "EET")
            }
           }
          }
         } else {
          if i < 112 {
           if i < 111 {
            Table::row(1521846000, 7200, 3600, "EEST")
           } else {
            Table::row(1540591200, 7200, 0, "EET")
           }
          } else {
           if i < 113 {
            Table::row(1553810400, 7200, 3600, "EEST")
           } else {
            if i < 114 {
             Table::row(1572037200, 7200, 0, "EET")
            } else {
             Table::row(1585346400, 7200, 3600, "EEST")
            }
           }
          }
         }
        }
       }
      } else {
       if i < 134 {
        if i < 124 {
         if i < 119 {
          if i < 117 {
           if i < 116 {
            Table::row(1603490400, 7200, 0, "EET")
           } else {
            Table::row(1616796000, 7200, 3600, "EEST")
           }
          } else {
           if i < 118 {
            Table::row(1635458400, 7200, 0, "EET")
           } else {
            Table::row(1648332000, 7200, 3600, "EEST")
           }
          }
         } else {
          if i < 121 {
           if i < 120 {
            Table::row(1666998000, 7200, 0, "EET")
           } else {
            Table::row(1682726400, 7200, 3600, "EEST")
           }
          } else {
           if i < 122 {
            Table::row(1698447600, 7200, 0, "EET")
           } else {
            if i < 123 {
             Table::row(1713571200, 7200, 3600, "EEST")
            } else {
             Table::row(1729897200, 7200, 0, "EET")
            }
           }
          }
         }
        } else {
         if i < 129 {
          if i < 126 {
           if i < 125 {
            Table::row(1744416000, 7200, 3600, "EEST")
           } else {
            Table::row(1761346800, 7200, 0, "EET")
           }
          } else {
           if i < 127 {
            Table::row(1774656000, 7200, 3600, "EEST")
           } else {
            if i < 128 {
             Table::row(1792796400, 7200, 0, "EET")
            } else {
             Table::row(1806105600, 7200, 3600, "EEST")
            }
           }
          }
         } else {
          if i < 131 {
           if i < 130 {
            Table::row(1824850800, 7200, 0, "EET")
           } else {
            Table::row(1837555200, 7200, 3600, "EEST")
           }
          } else {
           if i < 132 {
            Table::row(1856300400, 7200, 0, "EET")
           } else {
            if i < 133 {
             Table::row(1869004800, 7200, 3600, "EEST")
            } else {
             Table::row(1887750000, 7200, 0, "EET")
            }
           }
          }
         }
        }
       } else {
        if i < 144 {
         if i < 139 {
          if i < 136 {
           if i < 135 {
            Table::row(1901059200, 7200, 3600, "EEST")
           } else {
            Table::row(1919199600, 7200, 0, "EET")
           }
          } else {
           if i < 137 {
            Table::row(1932508800, 7200, 3600, "EEST")
           } else {
            if i < 138 {
             Table::row(1950649200, 7200, 0, "EET")
            } else {
             Table::row(1963958400, 7200, 3600, "EEST")
            }
           }
          }
         } else {
          if i < 141 {
           if i < 140 {
            Table::row(1982703600, 7200, 0, "EET")
           } else {
            Table::row(1995408000, 7200, 3600, "EEST")
           }
          } else {
           if i < 142 {
            Table::row(2014153200, 7200, 0, "EET")
           } else {
            if i < 143 {
             Table::row(2026857600, 7200, 3600, "EEST")
            } else {
             Table::row(2045602800, 7200, 0, "EET")
            }
           }
          }
         }
        } else {
         if i < 149 {
          if i < 146 {
           if i < 145 {
            Table::row(2058307200, 7200, 3600, "EEST")
           } else {
            Table::row(2077052400, 7200, 0, "EET")
           }
          } else {
           if i < 147 {
            Table::row(2090361600, 7200, 3600, "EEST")
           } else {
            if i < 148 {
             Table::row(2107897200, 7200, 0, "EET")
            } else {
             Table::row(2121811200, 7200, 3600, "EEST")
            }
           }
          }
         } else {
          if i < 151 {
           if i < 150 {
            Table::row(2138742000, 7200, 0, "EET")
           } else {
            Table::row(2153260800, 7200, 3600, "EEST")
           }
          } else {
           if i < 152 {
            Table::row(2168982000, 7200, 0, "EET")
           } else {
            if i < 153 {
             Table::row(2184710400, 7200, 3600, "EEST")
            } else {
             Table::row(2199826800, 7200, 0, "EET")
            }
           }
          }
         }
        }
       }
      }
     }
    } else {
     if i < 231 {
      if i < 192 {
       if i < 173 {
        if i < 163 {
         if i < 158 {
          if i < 156 {
           if i < 155 {
            Table::row(2216160000, 7200, 3600, "EEST")
           } else {
            Table::row(2230066800, 7200, 0, "EET")
           }
          } else {
           if i < 157 {
            Table::row(2234304000, 7200, 3600, "EEST")
           } else {
            Table::row(2234905200, 7200, 0, "EET")
           }
          }
         } else {
          if i < 160 {
           if i < 159 {
            Table::row(2248214400, 7200, 3600, "EEST")
           } else {
            Table::row(2260911600, 7200, 0, "EET")
           }
          } else {
           if i < 161 {
            Table::row(2264544000, 7200, 3600, "EEST")
           } else {
            if i < 162 {
             Table::row(2266354800, 7200, 0, "EET")
            } else {
             Table::row(2279664000, 7200, 3600, "EEST")
            }
           }
          }
         }
        } else {
         if i < 168 {
          if i < 165 {
           if i < 164 {
            Table::row(2291756400, 7200, 0, "EET")
           } else {
            Table::row(2295388800, 7200, 3600, "EEST")
           }
          } else {
           if i < 166 {
            Table::row(2297804400, 7200, 0, "EET")
           } else {
            if i < 167 {
             Table::row(2311113600, 7200, 3600, "EEST")
            } else {
             Table::row(2321996400, 7200, 0, "EET")
            }
           }
          }
         } else {
          if i < 170 {
           if i < 169 {
            Table::row(2326233600, 7200, 3600, "EEST")
           } else {
            Table::row(2329254000, 7200, 0, "EET")
           }
          } else {
           if i < 171 {
            Table::row(2342563200, 7200, 3600, "EEST")
           } else {
            if i < 172 {
             Table::row(2352841200, 7200, 0, "EET")
            } else {
             Table::row(2356473600, 7200, 3600, "EEST")
            }
           }
          }
         }
        }
       } else {
        if i < 182 {
         if i < 177 {
          if i < 175 {
           if i < 174 {
            Table::row(2361308400, 7200, 0, "EET")
           } else {
            Table::row(2374012800, 7200, 3600, "EEST")
           }
          } else {
           if i < 176 {
            Table::row(2383686000, 7200, 0, "EET")
           } else {
            Table::row(2387318400, 7200, 3600, "EEST")
           }
          }
         } else {
          if i < 179 {
           if i < 178 {
            Table::row(2392758000, 7200, 0, "EET")
           } else {
            Table::row(2405462400, 7200, 3600, "EEST")
           }
          } else {
           if i < 180 {
            Table::row(2413926000, 7200, 0, "EET")
           } else {
            if i < 181 {
             Table::row(2418163200, 7200, 3600, "EEST")
            } else {
             Table::row(2424207600, 7200, 0, "EET")
            }
           }
          }
         }
        } else {
         if i < 187 {
          if i < 184 {
           if i < 183 {
            Table::row(2437516800, 7200, 3600, "EEST")
           } else {
            Table::row(2444770800, 7200, 0, "EET")
           }
          } else {
           if i < 185 {
            Table::row(2448403200, 7200, 3600, "EEST")
           } else {
            if i < 186 {
             Table::row(2455657200, 7200, 0, "EET")
            } else {
             Table::row(2468966400, 7200, 3600, "EEST")
            }
           }
          }
         } else {
          if i < 189 {
           if i < 188 {
            Table::row(2475010800, 7200, 0, "EET")
           } else {
            Table::row(2479248000, 7200, 3600, "EEST")
           }
          } else {
           if i < 190 {
            Table::row(2487106800, 7200, 0, "EET")
           } else {
            if i < 191 {
             Table::row(2500416000, 7200, 3600, "EEST")
            } else {
             Table::row(2505855600, 7200, 0, "EET")
            }
           }
          }
         }
        }
       }
      } else {
       if i < 211 {
        if i < 201 {
         if i < 196 {
          if i < 194 {
           if i < 193 {
            Table::row(2509488000, 7200, 3600, "EEST")
           } else {
            Table::row(2519161200, 7200, 0, "EET")
           }
          } else {
           if i < 195 {
            Table::row(2531865600, 7200, 3600, "EEST")
           } else {
            Table::row(2536700400, 7200, 0, "EET")
           }
          }
         } else {
          if i < 198 {
           if i < 197 {
            Table::row(2540332800, 7200, 3600, "EEST")
           } else {
            Table::row(2550610800, 7200, 0, "EET")
           }
          } else {
           if i < 199 {
            Table::row(2563315200, 7200, 3600, "EEST")
           } else {
            if i < 200 {
             Table::row(2566940400, 7200, 0, "EET")
            } else {
             Table::row(2571177600, 7200, 3600, "EEST")
            }
           }
          }
         }
        } else {
         if i < 206 {
          if i < 203 {
           if i < 202 {
            Table::row(2582060400, 7200, 0, "EET")
           } else {
            Table::row(2595369600, 7200, 3600, "EEST")
           }
          } else {
           if i < 204 {
            Table::row(2597785200, 7200, 0, "EET")
           } else {
            if i < 205 {
             Table::row(2601417600, 7200, 3600, "EEST")
            } else {
             Table::row(2613510000, 7200, 0, "EET")
            }
           }
          }
         } else {
          if i < 208 {
           if i < 207 {
            Table::row(2626819200, 7200, 3600, "EEST")
           } else {
            Table::row(2628025200, 7200, 0, "EET")
           }
          } else {
           if i < 209 {
            Table::row(2632262400, 7200, 3600, "EEST")
           } else {
            if i < 210 {
             Table::row(2644959600, 7200, 0, "EET")
            } else {
             Table::row(2658268800, 7200, 3600, "EEST")
            }
           }
          }
         }
        }
       } else {
        if i < 221 {
         if i < 216 {
          if i < 213 {
           if i < 212 {
            Table::row(2658870000, 7200, 0, "EET")
           } else {
            Table::row(2663107200, 7200, 3600, "EEST")
           }
          } else {
           if i < 214 {
            Table::row(2676409200, 7200, 0, "EET")
           } else {
            if i < 215 {
             Table::row(2693347200, 7200, 3600, "EEST")
            } else {
             Table::row(2708463600, 7200, 0, "EET")
            }
           }
          }
         } else {
          if i < 218 {
           if i < 217 {
            Table::row(2724192000, 7200, 3600, "EEST")
           } else {
            Table::row(2739913200, 7200, 0, "EET")
           }
          } else {
           if i < 219 {
            Table::row(2754432000, 7200, 3600, "EEST")
           } else {
            if i < 220 {
             Table::row(2771362800, 7200, 0, "EET")
            } else {
             Table::row(2785276800, 7200, 3600, "EEST")
            }
           }
          }
         }
        } else {
         if i < 226 {
          if i < 223 {
           if i < 222 {
            Table::row(2802812400, 7200, 0, "EET")
           } else {
            Table::row(2816121600, 7200, 3600, "EEST")
           }
          } else {
           if i < 224 {
            Table::row(2834262000, 7200, 0, "EET")
           } else {
            if i < 225 {
             Table::row(2847571200, 7200, 3600, "EEST")
            } else {
             Table::row(2866316400, 7200, 0, "EET")
            }
           }
          }
         } else {
          if i < 228 {
           if i < 227 {
            Table::row(2879020800, 7200, 3600, "EEST")
           } else {
            Table::row(2897766000, 7200, 0, "EET")
           }
          } else {
           if i < 229 {
            Table::row(2910470400, 7200, 3600, "EEST")
           } else {
            if i < 230 {
             Table::row(2929215600, 7200, 0, "EET")
            } else {
             Table::row(2941920000, 7200, 3600, "EEST")
            }
           }
          }
         }
        }
       }
      }
     } else {
      if i < 269 {
       if i < 250 {
        if i < 240 {
         if i < 235 {
          if i < 233 {
           if i < 232 {
            Table::row(2960665200, 7200, 0, "EET")
           } else {
            Table::row(2973974400, 7200, 3600, "EEST")
           }
          } else {
           if i < 234 {
            Table::row(2992114800, 7200, 0, "EET")
           } else {
            Table::row(3005424000, 7200, 3600, "EEST")
           }
          }
         } else {
          if i < 237 {
           if i < 236 {
            Table::row(3023564400, 7200, 0, "EET")
           } else {
            Table::row(3036873600, 7200, 3600, "EEST")
           }
          } else {
           if i < 238 {
            Table::row(3055618800, 7200, 0, "EET")
           } else {
            if i < 239 {
             Table::row(3068323200, 7200, 3600, "EEST")
            } else {
             Table::row(3087068400, 7200, 0, "EET")
            }
           }
          }
         }
        } else {
         if i < 245 {
          if i < 242 {
           if i < 241 {
            Table::row(3099772800, 7200, 3600, "EEST")
           } else {
            Table::row(3117913200, 7200, 0, "EET")
           }
          } else {
           if i < 243 {
            Table::row(3131827200, 7200, 3600, "EEST")
           } else {
            if i < 244 {
             Table::row(3148758000, 7200, 0, "EET")
            } else {
             Table::row(3163276800, 7200, 3600, "EEST")
            }
           }
          }
         } else {
          if i < 247 {
           if i < 246 {
            Table::row(3179602800, 7200, 0, "EET")
           } else {
            Table::row(3194726400, 7200, 3600, "EEST")
           }
          } else {
           if i < 248 {
            Table::row(3209842800, 7200, 0, "EET")
           } else {
            if i < 249 {
             Table::row(3226176000, 7200, 3600, "EEST")
            } else {
             Table::row(3240687600, 7200, 0, "EET")
            }
           }
          }
         }
        }
       } else {
        if i < 259 {
         if i < 254 {
          if i < 252 {
           if i < 251 {
            Table::row(3244320000, 7200, 3600, "EEST")
           } else {
            Table::row(3244921200, 7200, 0, "EET")
           }
          } else {
           if i < 253 {
            Table::row(3257625600, 7200, 3600, "EEST")
           } else {
            Table::row(3271532400, 7200, 0, "EET")
           }
          }
         } else {
          if i < 256 {
           if i < 255 {
            Table::row(3275164800, 7200, 3600, "EEST")
           } else {
            Table::row(3276370800, 7200, 0, "EET")
           }
          } else {
           if i < 257 {
            Table::row(3289075200, 7200, 3600, "EEST")
           } else {
            if i < 258 {
             Table::row(3301772400, 7200, 0, "EET")
            } else {
             Table::row(3306009600, 7200, 3600, "EEST")
            }
           }
          }
         }
        } else {
         if i < 264 {
          if i < 261 {
           if i < 260 {
            Table::row(3307820400, 7200, 0, "EET")
           } else {
            Table::row(3321129600, 7200, 3600, "EEST")
           }
          } else {
           if i < 262 {
            Table::row(3332617200, 7200, 0, "EET")
           } else {
            if i < 263 {
             Table::row(3336249600, 7200, 3600, "EEST")
            } else {
             Table::row(3339270000, 7200, 0, "EET")
            }
           }
          }
         } else {
          if i < 266 {
           if i < 265 {
            Table::row(3352579200, 7200, 3600, "EEST")
           } else {
            Table::row(3362857200, 7200, 0, "EET")
           }
          } else {
           if i < 267 {
            Table::row(3367094400, 7200, 3600, "EEST")
           } else {
            if i < 268 {
             Table::row(3370719600, 7200, 0, "EET")
            } else {
             Table::row(3384028800, 7200, 3600, "EEST")
            }
           }
          }
         }
        }
       }
      } else {
       if i < 288 {
        if i < 278 {
         if i < 273 {
          if i < 271 {
           if i < 270 {
            Table::row(3393702000, 7200, 0, "EET")
           } else {
            Table::row(3397939200, 7200, 3600, "EEST")
           }
          } else {
           if i < 272 {
            Table::row(3402774000, 7200, 0, "EET")
           } else {
            Table::row(3415478400, 7200, 3600, "EEST")
           }
          }
         } else {
          if i < 275 {
           if i < 274 {
            Table::row(3424546800, 7200, 0, "EET")
           } else {
            Table::row(3428179200, 7200, 3600, "EEST")
           }
          } else {
           if i < 276 {
            Table::row(3434223600, 7200, 0, "EET")
           } else {
            if i < 277 {
             Table::row(3446928000, 7200, 3600, "EEST")
            } else {
             Table::row(3454786800, 7200, 0, "EET")
            }
           }
          }
         }
        } else {
         if i < 283 {
          if i < 280 {
           if i < 279 {
            Table::row(3459024000, 7200, 3600, "EEST")
           } else {
            Table::row(3465673200, 7200, 0, "EET")
           }
          } else {
           if i < 281 {
            Table::row(3478982400, 7200, 3600, "EEST")
           } else {
            if i < 282 {
             Table::row(3485631600, 7200, 0, "EET")
            } else {
             Table::row(3489264000, 7200, 3600, "EEST")
            }
           }
          }
         } else {
          if i < 285 {
           if i < 284 {
            Table::row(3497122800, 7200, 0, "EET")
           } else {
            Table::row(3510432000, 7200, 3600, "EEST")
           }
          } else {
           if i < 286 {
            Table::row(3516476400, 7200, 0, "EET")
           } else {
            if i < 287 {
             Table::row(3520108800, 7200, 3600, "EEST")
            } else {
             Table::row(3528572400, 7200, 0, "EET")
            }
           }
          }
         }
        }
       } else {
        if i < 298 {
         if i < 293 {
          if i < 290 {
           if i < 289 {
            Table::row(3541881600, 7200, 3600, "EEST")
           } else {
            Table::row(3546716400, 7200, 0, "EET")
           }
          } else {
           if i < 291 {
            Table::row(3550953600, 7200, 3600, "EEST")
           } else {
            if i < 292 {
             Table::row(3560022000, 7200, 0, "EET")
            } else {
             Table::row(3573331200, 7200, 3600, "EEST")
            }
           }
          }
         } else {
          if i < 295 {
           if i < 294 {
            Table::row(3577561200, 7200, 0, "EET")
           } else {
            Table::row(3581193600, 7200, 3600, "EEST")
           }
          } else {
           if i < 296 {
            Table::row(3592076400, 7200, 0, "EET")
           } else {
            if i < 297 {
             Table::row(3604780800, 7200, 3600, "EEST")
            } else {
             Table::row(3607801200, 7200, 0, "EET")
            }
           }
          }
         }
        } else {
         if i < 303 {
          if i < 300 {
           if i < 299 {
            Table::row(3612038400, 7200, 3600, "EEST")
           } else {
            Table::row(3623526000, 7200, 0, "EET")
           }
          } else {
           if i < 301 {
            Table::row(3636230400, 7200, 3600, "EEST")
           } else {
            if i < 302 {
             Table::row(3638646000, 7200, 0, "EET")
            } else {
             Table::row(3642883200, 7200, 3600, "EEST")
            }
           }
          }
         } else {
          if i < 305 {
           if i < 304 {
            Table::row(3654975600, 7200, 0, "EET")
           } else {
            Table::row(3668284800, 7200, 3600, "EEST")
           }
          } else {
           if i < 306 {
            Table::row(3669490800, 7200, 0, "EET")
           } else {
            if i < 307 {
             Table::row(3673123200, 7200, 3600, "EEST")
            } else {
             Table::row(3686425200, 7200, 0, "EET")
            }
           }
          }
         }
        }
       }
      }
     }
    }
}

/// The rows of the table of the zone `Asia/Gaza`.
pub open spec fn gaza_rows() -> spec_fn(int) -> (i64, FixedTimespan) {
    |i: int| gaza_row(i)
}

/// The table of the zone `Asia/Gaza`.
pub open spec fn gaza() -> Table {
    Table::listed(Table::row(0, 8272, 0, "LMT").1, 308, gaza_rows())
}

/// Row `i` of the table of the zone `Asia/Harbin`.
pub open spec fn harbin_row(i: int) -> (i64, FixedTimespan) {
    if i < 14 {
     if i < 7 {
      if i < 3 {
       if i < 1 {
        Table::row(-2177481943, 28800, 0, "CST")
       } else {
        if i < 2 {
         Table::row(-1600675200, 28800, 3600, "CDT")
        } else {
         Table::row(-1585904400, 28800, 0, "CST")
        }
       }
      } else {
       if i < 5 {
        if i < 4 {
         Table::row(-933667200, 28800, 3600, "CDT")
        } else {
         Table::row(-922093200, 28800, 0, "CST")
        }
       } else {
        if i < 6 {
         Table::row(-908870400, 28800, 3600, "CDT")
        } else {
         Table::row(-888829200, 28800, 0, "CST")
        }
       }
      }
     } else {
      if i < 10 {
       if i < 8 {
        Table::row(-881049600, 28800, 3600, "CDT")
       } else {
        if i < 9 {
         Table::row(-767869200, 28800, 0, "CST")
        } else {
         Table::row(-745833600, 28800, 3600, "CDT")
        }
       }
      } else {
       if i < 12 {
        if i < 11 {
         Table::row(-733827600, 28800, 0, "CST")
        } else {
         Table::row(-716889600, 28800, 3600, "CDT")
        }
       } else {
        if i < 13 {
         Table::row(-699613200, 28800, 0, "CST")
        } else {
         Table::row(-683884800, 28800, 3600, "CDT")
        }
       }
      }
     }
    } else {
     if i < 21 {
      if i < 17 {
       if i < 15 {
        Table::row(-670669200, 28800, 0, "CST")
       } else {
        if i < 16 {
         Table::row(-652348800, 28800, 3600, "CDT")
        } else {
         Table::row(-650019600, 28800, 0, "CST")
        }
       }
      } else {
       if i < 19 {
        if i < 18 {
         Table::row(515527200, 28800, 3600, "CDT")
        } else {
         Table::row(527014800, 28800, 0, "CST")
        }
       } else {
        if i < 20 {
         Table::row(545162400, 28800, 3600, "CDT")
        } else {
         Table::row(558464400, 28800, 0, "CST")
        }
       }
      }
     } else {
      if i < 25 {
       if i < 23 {
        if i < 22 {
         Table::row(577216800, 28800, 3600, "CDT")
        } else {
         Table::row(589914000, 28800, 0, "CST")
        }
       } else {
        if i < 24 {
         Table::row(608666400, 28800, 3600, "CDT")
        } else {
         Table::row(621968400, 28800, 0, "CST")
        }
       }
      } else {
       if i < 27 {
        if i < 26 {
         Table::row(640116000, 28800, 3600, "CDT")
        } else {
         Table::row(653418000, 28800, 0, "CST")
        }
       } else {
        if i < 28 {
         Table::row(671565600, 28800, 3600, "CDT")
        } else {
         Table::row(684867600, 28800, 0, "CST")
        }
       }
      }
     }
    }
}

/// The rows of the table of the zone `Asia/Harbin`.
pub open spec fn harbin_rows() -> spec_fn(int) -> (i64, FixedTimespan) {
    |i: int| harbin_row(i)
}

/// The table of the zone `Asia/Harbin`.
pub open spec fn harbin() -> Table {
    Table::listed(Table::row(0, 29143, 0, "LMT").1, 29, harbin_rows())
}

/// Row `i` of the table of the zone `Asia/Hebron`.
pub open spec fn hebron_row(i: int) -> (i64, FixedTimespan) {
    if i < 155 {
     if i < 77 {
      if i < 38 {
       if i < 19 {
        if i < 9 {
         if i < 4 {
          if i < 2 {
           if i < 1 {
            Table::row(-2185410023, 7200, 0, "EET")
           } else {
            Table::row(-933638400, 7200, 3600, "EEST")
           }
          } else {
           if i < 3 {
            Table::row(-923097600, 7200, 0, "EET")
           } else {
            Table::row(-919036800, 7200, 3600, "EEST")
           }
          }
         } else {
          if i < 6 {
           if i < 5 {
            Table::row(-857347200, 7200, 0, "EET")
           } else {
            Table::row(-844300800, 7200, 3600, "EEST")
           }
          } else {
           if i < 7 {
            Table::row(-825811200, 7200, 0, "EET")
           } else {
            if i < 8 {
             Table::row(-812678400, 7200, 3600, "EEST")
            } else {
             Table::row(-794188800, 7200, 0, "EET")
            }
           }
          }
         }
        } else {
         if i < 14 {
          if i < 11 {
           if i < 10 {
            Table::row(-779846400, 7200, 3600, "EEST")
           } else {
            Table::row(-762652800, 7200, 0, "EET")
           }
          } else {
           if i < 12 {
            Table::row(-748310400, 7200, 3600, "EEST")
           } else {
            if i < 13 {
             Table::row(-731116800, 7200, 0, "EET")
            } else {
             Table::row(-399088800, 7200, 3600, "EEST")
            }
           }
          }
         } else {
          if i < 16 {
           if i < 15 {
            Table::row(-386650800, 7200, 0, "EET")
           } else {
            Table::row(-368330400, 7200, 3600, "EEST")
           }
          } else {
           if i < 17 {
            Table::row(-355114800, 7200, 0, "EET")
           } else {
            if i < 18 {
             Table::row(-336790800, 7200, 3600, "EEST")
            } else {
             Table::row(-323654400, 7200, 0, "EET")
            }
           }
          }
         }
        }
       } else {
        if i < 28 {
         if i < 23 {
          if i < 21 {
           if i < 20 {
            Table::row(-305168400, 7200, 3600, "EEST")
           } else {
            Table::row(-292032000, 7200, 0, "EET")
           }
          } else {
           if i < 22 {
            Table::row(-273632400, 7200, 3600, "EEST")
           } else {
            Table::row(-260496000, 7200, 0, "EET")
           }
          }
         } else {
          if i < 25 {
           if i < 24 {
            Table::row(-242096400, 7200, 3600, "EEST")
           } else {
            Table::row(-228960000, 7200, 0, "EET")
           }
          } else {
           if i < 26 {
            Table::row(-210560400, 7200, 3600, "EEST")
           } else {
            if i < 27 {
             Table::row(-197424000, 7200, 0, "EET")
            } else {
             Table::row(-178938000, 7200, 3600, "EEST")
            }
           }
          }
         }
        } else {
         if i < 33 {
          if i < 30 {
           if i < 29 {
            Table::row(-165801600, 7200, 0, "EET")
           } else {
            Table::row(-147402000, 7200, 3600, "EEST")
           }
          } else {
           if i < 31 {
            Table::row(-134265600, 7200, 0, "EET")
           } else {
            if i < 32 {
             Table::row(-115866000, 7200, 3600, "EEST")
            } else {
             Table::row(-102643200, 7200, 0, "EET")
            }
           }
          }
         } else {
          if i < 35 {
           if i < 34 {
            Table::row(-84330000, 7200, 3600, "EEST")
           } else {
            Table::row(-81313200, 7200, 0, "IST")
           }
          } else {
           if i < 36 {
            Table::row(142380000, 7200, 3600, "IDT")
           } else {
            if i < 37 {
             Table::row(150843600, 7200, 0, "IST")
            } else {
             Table::row(167176800, 7200, 3600, "IDT")
            }
           }
          }
         }
        }
       }
      } else {
       if i < 57 {
        if i < 47 {
         if i < 42 {
          if i < 40 {
           if i < 39 {
            Table::row(178664400, 7200, 0, "IST")
           } else {
            Table::row(334101600, 7200, 3600, "IDT")
           }
          } else {
           if i < 41 {
            Table::row(337730400, 7200, 0, "IST")
           } else {
            Table::row(452642400, 7200, 3600, "IDT")
           }
          }
         } else {
          if i < 44 {
           if i < 43 {
            Table::row(462319200, 7200, 0, "IST")
           } else {
            Table::row(482277600, 7200, 3600, "IDT")
           }
          } else {
           if i < 45 {
            Table::row(494370000, 7200, 0, "IST")
           } else {
            if i < 46 {
             Table::row(516751200, 7200, 3600, "IDT")
            } else {
             Table::row(526424400, 7200, 0, "IST")
            }
           }
          }
         }
        } else {
         if i < 52 {
          if i < 49 {
           if i < 48 {
            Table::row(545436000, 7200, 3600, "IDT")
           } else {
            Table::row(558478800, 7200, 0, "IST")
           }
          } else {
           if i < 50 {
            Table::row(576626400, 7200, 3600, "IDT")
           } else {
            if i < 51 {
             Table::row(589323600, 7200, 0, "IST")
            } else {
             Table::row(609890400, 7200, 3600, "IDT")
            }
           }
          }
         } else {
          if i < 54 {
           if i < 53 {
            Table::row(620773200, 7200, 0, "IST")
           } else {
            Table::row(638316000, 7200, 3600, "IDT")
           }
          } else {
           if i < 55 {
            Table::row(651618000, 7200, 0, "IST")
           } else {
            if i < 56 {
             Table::row(669765600, 7200, 3600, "IDT")
            } else {
             Table::row(683672400, 7200, 0, "IST")
            }
           }
          }
         }
        }
       } else {
        if i < 67 {
         if i < 62 {
          if i < 59 {
           if i < 58 {
            Table::row(701820000, 7200, 3600, "IDT")
           } else {
            Table::row(715726800, 7200, 0, "IST")
           }
          } else {
           if i < 60 {
            Table::row(733701600, 7200, 3600, "IDT")
           } else {
            if i < 61 {
             Table::row(747176400, 7200, 0, "IST")
            } else {
             Table::row(765151200, 7200, 3600, "IDT")
            }
           }
          }
         } else {
          if i < 64 {
           if i < 63 {
            Table::row(778021200, 7200, 0, "IST")
           } else {
            Table::row(796600800, 7200, 3600, "IDT")
           }
          } else {
           if i < 65 {
            Table::row(810075600, 7200, 0, "IST")
           } else {
            if i < 66 {
             Table::row(820447200, 7200, 0, "EET")
            } else {
             Table::row(828655200, 7200, 3600, "EEST")
            }
           }
          }
         }
        } else {
         if i < 72 {
          if i < 69 {
           if i < 68 {
            Table::row(843170400, 7200, 0, "EET")
           } else {
            Table::row(860104800, 7200, 3600, "EEST")
           }
          } else {
           if i < 70 {
            Table::row(874620000, 7200, 0, "EET")
           } else {
            if i < 71 {
             Table::row(891554400, 7200, 3600, "EEST")
            } else {
             Table::row(906069600, 7200, 0, "EET")
            }
           }
          }
         } else {
          if i < 74 {
           if i < 73 {
            Table::row(924213600, 7200, 3600, "EEST")
           } else {
            Table::row(939934800, 7200, 0, "EET")
           }
          } else {
           if i < 75 {
            Table::row(956268000, 7200, 3600, "EEST")
           } else {
            if i < 76 {
             Table::row(971989200, 7200, 0, "EET")
            } else {
             Table::row(987717600, 7200, 3600, "EEST")
            }
           }
          }
         }
        }
       }
      }
     } else {
      if i < 116 {
       if i < 96 {
        if i < 86 {
         if i < 81 {
          if i < 79 {
           if i < 78 {
            Table::row(1003438800, 7200, 0, "EET")
           } else {
            Table::row(1019167200, 7200, 3600, "EEST")
           }
          } else {
           if i < 80 {
            Table::row(1034888400, 7200, 0, "EET")
           } else {
            Table::row(1050616800, 7200, 3600, "EEST")
           }
          }
         } else {
          if i < 83 {
           if i < 82 {
            Table::row(1066338000, 7200, 0, "EET")
           } else {
            Table::row(1082066400, 7200, 3600, "EEST")
           }
          } else {
           if i < 84 {
            Table::row(1096581600, 7200, 0, "EET")
           } else {
            if i < 85 {
             Table::row(1113516000, 7200, 3600, "EEST")
            } else {
             Table::row(1128380400, 7200, 0, "EET")
            }
           }
          }
         }
        } else {
         if i < 91 {
          if i < 88 {
           if i < 87 {
            Table::row(1143842400, 7200, 3600, "EEST")
           } else {
            Table::row(1158872400, 7200, 0, "EET")
           }
          } else {
           if i < 89 {
            Table::row(1175378400, 7200, 3600, "EEST")
           } else {
            if i < 90 {
             Table::row(1189638000, 7200, 0, "EET")
            } else {
             Table::row(1206655200, 7200, 3600, "EEST")
            }
           }
          }
         } else {
          if i < 93 {
           if i < 92 {
            Table::row(1220216400, 7200, 0, "EET")
           } else {
            Table::row(1238104800, 7200, 3600, "EEST")
           }
          } else {
           if i < 94 {
            Table::row(1252015200, 7200, 0, "EET")
           } else {
            if i < 95 {
             Table::row(1269554400, 7200, 3600, "EEST")
            } else {
             Table::row(1281474000, 7200, 0, "EET")
            }
           }
          }
         }
        }
       } else {
        if i < 106 {
         if i < 101 {
          if i < 98 {
           if i < 97 {
            Table::row(1301608860, 7200, 3600, "EEST")
           } else {
            Table::row(1312146000, 7200, 0, "EET")
           }
          } else {
           if i < 99 {
            Table::row(1314655200, 7200, 3600, "EEST")
           } else {
            if i < 100 {
             Table::row(1317330000, 7200, 0, "EET")
            } else {
             Table::row(1333058400, 7200, 3600, "EEST")
            }
           }
          }
         } else {
          if i < 103 {
           if i < 102 {
            Table::row(1348178400, 7200, 0, "EET")
           } else {
            Table::row(1364508000, 7200, 3600, "EEST")
           }
          } else {
           if i < 104 {
            Table::row(1380229200, 7200, 0, "EET")
           } else {
            if i < 105 {
             Table::row(1395957600, 7200, 3600, "EEST")
            } else {
             Table::row(1414098000, 7200, 0, "EET")
            }
           }
          }
         }
        } else {
         if i < 111 {
          if i < 108 {
           if i < 107 {
            Table::row(1427493600, 7200, 3600, "EEST")
           } else {
            Table::row(1445551200, 7200, 0, "EET")
           }
          } else {
           if i < 109 {
            Table::row(1458946800, 7200, 3600, "EEST")
           } else {
            if i < 110 {
             Table::row(1477692000, 7200, 0, "EET")
            } else {
             Table::row(1490396400, 7200, 3600, "EEST")
            }
           }
          }
         } else {
          if i < 113 {
           if i < 112 {
            Table::row(1509141600, 7200, 0, "EET")
           } else {
            Table::row(1521846000, 7200, 3600, "EEST")
           }
          } else {
           if i < 114 {
            Table::row(1540591200, 7200, 0, "EET")
           } else {
            if i < 115 {
             Table::row(1553810400, 7200, 3600, "EEST")
            } else {
             Table::row(1572037200, 7200, 0, "EET")
            }
           }
          }
         }
        }
       }
      } else {
       if i < 135 {
        if i < 125 {
         if i < 120 {
          if i < 118 {
           if i < 117 {
            Table::row(1585346400, 7200, 3600, "EEST")
           } else {
            Table::row(1603490400, 7200, 0, "EET")
           }
          } else {
           if i < 119 {
            Table::row(1616796000, 7200, 3600, "EEST")
           } else {
            Table::row(1635458400, 7200, 0, "EET")
           }
          }
         } else {
          if i < 122 {
           if i < 121 {
            Table::row(1648332000, 7200, 3600, "EEST")
           } else {
            Table::row(1666998000, 7200, 0, "EET")
           }
          } else {
           if i < 123 {
            Table::row(1682726400, 7200, 3600, "EEST")
           } else {
            if i < 124 {
             Table::row(1698447600, 7200, 0, "EET")
            } else {
             Table::row(1713571200, 7200, 3600, "EEST")
            }
           }
          }
         }
        } else {
         if i < 130 {
          if i < 127 {
           if i < 126 {
            Table::row(1729897200, 7200, 0, "EET")
           } else {
            Table::row(1744416000, 7200, 3600, "EEST")
           }
          } else {
           if i < 128 {
            Table::row(1761346800, 7200, 0, "EET")
           } else {
            if i < 129 {
             Table::row(1774656000, 7200, 3600, "EEST")
            } else {
             Table::row(1792796400, 7200, 0, "EET")
            }
           }
          }
         } else {
          if i < 132 {
           if i < 131 {
            Table::row(1806105600, 7200, 3600, "EEST")
           } else {
            Table::row(1824850800, 7200, 0, "EET")
           }
          } else {
           if i < 133 {
            Table::row(1837555200, 7200, 3600, "EEST")
           } else {
            if i < 134 {
             Table::row(1856300400, 7200, 0, "EET")
            } else {
             Table::row(1869004800, 7200, 3600, "EEST")
            }
           }
          }
         }
        }
       } else {
        if i < 145 {
         if i < 140 {
          if i < 137 {
           if i < 136 {
            Table::row(1887750000, 7200, 0, "EET")
           } else {
            Table::row(1901059200, 7200, 3600, "EEST")
           }
          } else {
           if i < 138 {
            Table::row(1919199600, 7200, 0, "EET")
           } else {
            if i < 139 {
             Table::row(1932508800, 7200, 3600, "EEST")
            } else {
             Table::row(1950649200, 7200, 0, "EET")
            }
           }
          }
         } else {
          if i < 142 {
           if i < 141 {
            Table::row(1963958400, 7200, 3600, "EEST")
           } else {
            Table::row(1982703600, 7200, 0, "EET")
           }
          } else {
           if i < 143 {
            Table::row(1995408000, 7200, 3600, "EEST")
           } else {
            if i < 144 {
             Table::row(2014153200, 7200, 0, "EET")
            } else {
             Table::row(2026857600, 7200, 3600, "EEST")
            }
           }
          }
         }
        } else {
         if i < 150 {
          if i < 147 {
           if i < 146 {
            Table::row(2045602800, 7200, 0, "EET")
           } else {
            Table::row(2058307200, 7200, 3600, "EEST")
           }
          } else {
           if i < 148 {
            Table::row(2077052400, 7200, 0, "EET")
           } else {
            if i < 149 {
             Table::row(2090361600, 7200, 3600, "EEST")
            } else {
             Table::row(2107897200, 7200, 0, "EET")
            }
           }
          }
         } else {
          if i < 152 {
           if i < 151 {
            Table::row(2121811200, 7200, 3600, "EEST")
           } else {
            Table::row(2138742000, 7200, 0, "EET")
           }
          } else {
           if i < 153 {
            Table::row(2153260800, 7200, 3600, "EEST")
           } else {
            if i < 154 {
             Table::row(2168982000, 7200, 0, "EET")
            } else {
             Table::row(2184710400, 7200, 3600, "EEST")
            }
           }
          }
         }
        }
       }
      }
     }
    } else {
     if i < 232 {
      if i < 193 {
       if i < 174 {
        if i < 164 {
         if i < 159 {
          if i < 157 {
           if i < 156 {
            Table::row(2199826800, 7200, 0, "EET")
           } else {
            Table::row(2216160000, 7200, 3600, "EEST")
           }
          } else {
           if i < 158 {
            Table::row(2230066800, 7200, 0, "EET")
           } else {
            Table::row(2234304000, 7200, 3600, "EEST")
           }
          }
         } else {
          if i < 161 {
           if i < 160 {
            Table::row(2234905200, 7200, 0, "EET")
           } else {
            Table::row(2248214400, 7200, 3600, "EEST")
           }
          } else {
           if i < 162 {
            Table::row(2260911600, 7200, 0, "EET")
           } else {
            if i < 163 {
             Table::row(2264544000, 7200, 3600, "EEST")
            } else {
             Table::row(2266354800, 7200, 0, "EET")
            }
           }
          }
         }
        } else {
         if i < 169 {
          if i < 166 {
           if i < 165 {
            Table::row(2279664000, 7200, 3600, "EEST")
           } else {
            Table::row(2291756400, 7200, 0, "EET")
           }
          } else {
           if i < 167 {
            Table::row(2295388800, 7200, 3600, "EEST")
           } else {
            if i < 168 {
             Table::row(2297804400, 7200, 0, "EET")
            } else {
             Table::row(2311113600, 7200, 3600, "EEST")
            }
           }
          }
         } else {
          if i < 171 {
           if i < 170 {
            Table::row(2321996400, 7200, 0, "EET")
           } else {
            Table::row(2326233600, 7200, 3600, "EEST")
           }
          } else {
           if i < 172 {
            Table::row(2329254000, 7200, 0, "EET")
           } else {
            if i < 173 {
             Table::row(2342563200, 7200, 3600, "EEST")
            } else {
             Table::row(2352841200, 7200, 0, "EET")
            }
           }
          }
         }
        }
       } else {
        if i < 183 {
         if i < 178 {
          if i < 176 {
           if i < 175 {
            Table::row(2356473600, 7200, 3600, "EEST")
           } else {
            Table::row(2361308400, 7200, 0, "EET")
           }
          } else {
           if i < 177 {
            Table::row(2374012800, 7200, 3600, "EEST")
           } else {
            Table::row(2383686000, 7200, 0, "EET")
           }
          }
         } else {
          if i < 180 {
           if i < 179 {
            Table::row(2387318400, 7200, 3600, "EEST")
           } else {
            Table::row(2392758000, 7200, 0, "EET")
           }
          } else {
           if i < 181 {
            Table::row(2405462400, 7200, 3600, "EEST")
           } else {
            if i < 182 {
             Table::row(2413926000, 7200, 0, "EET")
            } else {
             Table::row(2418163200, 7200, 3600, "EEST")
            }
           }
          }
         }
        } else {
         if i < 188 {
          if i < 185 {
           if i < 184 {
            Table::row(2424207600, 7200, 0, "EET")
           } else {
            Table::row(2437516800, 7200, 3600, "EEST")
           }
          } else {
           if i < 186 {
            Table::row(2444770800, 7200, 0, "EET")
           } else {
            if i < 187 {
             Table::row(2448403200, 7200, 3600, "EEST")
            } else {
             Table::row(2455657200, 7200, 0, "EET")
            }
           }
          }
         } else {
          if i < 190 {
           if i < 189 {
            Table::row(2468966400, 7200, 3600, "EEST")
           } else {
            Table::row(2475010800, 7200, 0, "EET")
           }
          } else {
           if i < 191 {
            Table::row(2479248000, 7200, 3600, "EEST")
           } else {
            if i < 192 {
             Table::row(2487106800, 7200, 0, "EET")
            } else {
             Table::row(2500416000, 7200, 3600, "EEST")
            }
           }
          }
         }
        }
       }
      } else {
       if i < 212 {
        if i < 202 {
         if i < 197 {
          if i < 195 {
           if i < 194 {
            Table::row(2505855600, 7200, 0, "EET")
           } else {
            Table::row(2509488000, 7200, 3600, "EEST")
           }
          } else {
           if i < 196 {
            Table::row(2519161200, 7200, 0, "EET")
           } else {
            Table::row(2531865600, 7200, 3600, "EEST")
           }
          }
         } else {
          if i < 199 {
           if i < 198 {
            Table::row(2536700400, 7200, 0, "EET")
           } else {
            Table::row(2540332800, 7200, 3600, "EEST")
           }
          } else {
           if i < 200 {
            Table::row(2550610800, 7200, 0, "EET")
           } else {
            if i < 201 {
             Table::row(2563315200, 7200, 3600, "EEST")
            } else {
             Table::row(2566940400, 7200, 0, "EET")
            }
           }
          }
         }
        } else {
         if i < 207 {
          if i < 204 {
           if i < 203 {
            Table::row(2571177600, 7200, 3600, "EEST")
           } else {
            Table::row(2582060400, 7200, 0, "EET")
           }
          } else {
           if i < 205 {
            Table::row(2595369600, 7200, 3600, "EEST")
           } else {
            if i < 206 {
             Table::row(2597785200, 7200, 0, "EET")
            } else {
             Table::row(2601417600, 7200, 3600, "EEST")
            }
           }
          }
         } else {
          if i < 209 {
           if i < 208 {
            Table::row(2613510000, 7200, 0, "EET")
           } else {
            Table::row(2626819200, 7200, 3600, "EEST")
           }
          } else {
           if i < 210 {
            Table::row(2628025200, 7200, 0, "EET")
           } else {
            if i < 211 {
             Table::row(2632262400, 7200, 3600, "EEST")
            } else {
             Table::row(2644959600, 7200, 0, "EET")
            }
           }
          }
         }
        }
       } else {
        if i < 222 {
         if i < 217 {
          if i < 214 {
           if i < 213 {
            Table::row(2658268800, 7200, 3600, "EEST")
           } else {
            Table::row(2658870000, 7200, 0, "EET")
           }
          } else {
           if i < 215 {
            Table::row(2663107200, 7200, 3600, "EEST")
           } else {
            if i < 216 {
             Table::row(2676409200, 7200, 0, "EET")
            } else {
             Table::row(2693347200, 7200, 3600, "EEST")
            }
           }
          }
         } else {
          if i < 219 {
           if i < 218 {
            Table::row(2708463600, 7200, 0, "EET")
           } else {
            Table::row(2724192000, 7200, 3600, "EEST")
           }
          } else {
           if i < 220 {
            Table::row(2739913200, 7200, 0, "EET")
           } else {
            if i < 221 {
             Table::row(2754432000, 7200, 3600, "EEST")
            } else {
             Table::row(2771362800, 7200, 0, "EET")
            }
           }
          }
         }
        } else {
         if i < 227 {
          if i < 224 {
           if i < 223 {
            Table::row(2785276800, 7200, 3600, "EEST")
           } else {
            Table::row(2802812400, 7200, 0, "EET")
           }
          } else {
           if i < 225 {
            Table::row(2816121600, 7200, 3600, "EEST")
           } else {
            if i < 226 {
             Table::row(2834262000, 7200, 0, "EET")
            } else {
             Table::row(2847571200, 7200, 3600, "EEST")
            }
           }
          }
         } else {
          if i < 229 {
           if i < 228 {
            Table::row(2866316400, 7200, 0, "EET")
           } else {
            Table::row(2879020800, 7200, 3600, "EEST")
           }
          } else {
           if i < 230 {
            Table::row(2897766000, 7200, 0, "EET")
           } else {
            if i < 231 {
             Table::row(2910470400, 7200, 3600, "EEST")
            } else {
             Table::row(2929215600, 7200, 0, "EET")
            }
           }
          }
         }
        }
       }
      }
     } else {
      if i < 271 {
       if i < 251 {
        if i < 241 {
         if i < 236 {
          if i < 234 {
           if i < 233 {
            Table::row(2941920000, 7200, 3600, "EEST")
           } else {
            Table::row(2960665200, 7200, 0, "EET")
           }
          } else {
           if i < 235 {
            Table::row(2973974400, 7200, 3600, "EEST")
           } else {
            Table::row(2992114800, 7200, 0, "EET")
           }
          }
         } else {
          if i < 238 {
           if i < 237 {
            Table::row(3005424000, 7200, 3600, "EEST")
           } else {
            Table::row(3023564400, 7200, 0, "EET")
           }
          } else {
           if i < 239 {
            Table::row(3036873600, 7200, 3600, "EEST")
           } else {
            if i < 240 {
             Table::row(3055618800, 7200, 0, "EET")
            } else {
             Table::row(3068323200, 7200, 3600, "EEST")
            }
           }
          }
         }
        } else {
         if i < 246 {
          if i < 243 {
           if i < 242 {
            Table::row(3087068400, 7200, 0, "EET")
           } else {
            Table::row(3099772800, 7200, 3600, "EEST")
           }
          } else {
           if i < 244 {
            Table::row(3117913200, 7200, 0, "EET")
           } else {
            if i < 245 {
             Table::row(3131827200, 7200, 3600, "EEST")
            } else {
             Table::row(3148758000, 7200, 0, "EET")
            }
           }
          }
         } else {
          if i < 248 {
           if i < 247 {
            Table::row(3163276800, 7200, 3600, "EEST")
           } else {
            Table::row(3179602800, 7200, 0, "EET")
           }
          } else {
           if i < 249 {
            Table::row(3194726400, 7200, 3600, "EEST")
           } else {
            if i < 250 {
             Table::row(3209842800, 7200, 0, "EET")
            } else {
             Table::row(3226176000, 7200, 3600, "EEST")
            }
           }
          }
         }
        }
       } else {
        if i < 261 {
         if i < 256 {
          if i < 253 {
           if i < 252 {
            Table::row(3240687600, 7200, 0, "EET")
           } else {
            Table::row(3244320000, 7200, 3600, "EEST")
           }
          } else {
           if i < 254 {
            Table::row(3244921200, 7200, 0, "EET")
           } else {
            if i < 255 {
             Table::row(3257625600, 7200, 3600, "EEST")
            } else {
             Table::row(3271532400, 7200, 0, "EET")
            }
           }
          }
         } else {
          if i < 258 {
           if i < 257 {
            Table::row(3275164800, 7200, 3600, "EEST")
           } else {
            Table::row(3276370800, 7200, 0, "EET")
           }
          } else {
           if i < 259 {
            Table::row(3289075200, 7200, 3600, "EEST")
           } else {
            if i < 260 {
             Table::row(3301772400, 7200, 0, "EET")
            } else {
             Table::row(3306009600, 7200, 3600, "EEST")
            }
           }
          }
         }
        } else {
         if i < 266 {
          if i < 263 {
           if i < 262 {
            Table::row(3307820400, 7200, 0, "EET")
           } else {
            Table::row(3321129600, 7200, 3600, "EEST")
           }
          } else {
           if i < 264 {
            Table::row(3332617200, 7200, 0, "EET")
           } else {
            if i < 265 {
             Table::row(3336249600, 7200, 3600, "EEST")
            } else {
             Table::row(3339270000, 7200, 0, "EET")
            }
           }
          }
         } else {
          if i < 268 {
           if i < 267 {
            Table::row(3352579200, 7200, 3600, "EEST")
           } else {
            Table::row(3362857200, 7200, 0, "EET")
           }
          } else {
           if i < 269 {
            Table::row(3367094400, 7200, 3600, "EEST")
           } else {
            if i < 270 {
             Table::row(3370719600, 7200, 0, "EET")
            } else {
             Table::row(3384028800, 7200, 3600, "EEST")
            }
           }
          }
         }
        }
       }
      } else {
       if i < 290 {
        if i < 280 {
         if i < 275 {
          if i < 273 {
           if i < 272 {
            Table::row(3393702000, 7200, 0, "EET")
           } else {
            Table::row(3397939200, 7200, 3600, "EEST")
           }
          } else {
           if i < 274 {
            Table::row(3402774000, 7200, 0, "EET")
           } else {
            Table::row(3415478400, 7200, 3600, "EEST")
           }
          }
         } else {
          if i < 277 {
           if i < 276 {
            Table::row(3424546800, 7200, 0, "EET")
           } else {
            Table::row(3428179200, 7200, 3600, "EEST")
           }
          } else {
           if i < 278 {
            Table::row(3434223600, 7200, 0, "EET")
           } else {
            if i < 279 {
             Table::row(3446928000, 7200, 3600, "EEST")
            } else {
             Table::row(3454786800, 7200, 0, "EET")
            }
           }
          }
         }
        } else {
         if i < 285 {
          if i < 282 {
           if i < 281 {
            Table::row(3459024000, 7200, 3600, "EEST")
           } else {
            Table::row(3465673200, 7200, 0, "EET")
           }
          } else {
           if i < 283 {
            Table::row(3478982400, 7200, 3600, "EEST")
           } else {
            if i < 284 {
             Table::row(3485631600, 7200, 0, "EET")
            } else {
             Table::row(3489264000, 7200, 3600, "EEST")
            }
           }
          }
         } else {
          if i < 287 {
           if i < 286 {
            Table::row(3497122800, 7200, 0, "EET")
           } else {
            Table::row(3510432000, 7200, 3600, "EEST")
           }
          } else {
           if i < 288 {
            Table::row(3516476400, 7200, 0, "EET")
           } else {
            if i < 289 {
             Table::row(3520108800, 7200, 3600, "EEST")
            } else {
             Table::row(3528572400, 7200, 0, "EET")
            }
           }
          }
         }
        }
       } else {
        if i < 300 {
         if i < 295 {
          if i < 292 {
           if i < 291 {
            Table::row(3541881600, 7200, 3600, "EEST")
           } else {
            Table::row(3546716400, 7200, 0, "EET")
           }
          } else {
           if i < 293 {
            Table::row(3550953600, 7200, 3600, "EEST")
           } else {
            if i < 294 {
             Table::row(3560022000, 7200, 0, "EET")
            } else {
             Table::row(3573331200, 7200, 3600, "EEST")
            }
           }
          }
         } else {
          if i < 297 {
           if i < 296 {
            Table::row(3577561200, 7200, 0, "EET")
           } else {
            Table::row(3581193600, 7200, 3600, "EEST")
           }
          } else {
           if i < 298 {
            Table::row(3592076400, 7200, 0, "EET")
           } else {
            if i < 299 {
             Table::row(3604780800, 7200, 3600, "EEST")
            } else {
             Table::row(3607801200, 7200, 0, "EET")
            }
           }
          }
         }
        } else {
         if i < 305 {
          if i < 302 {
           if i < 301 {
            Table::row(3612038400, 7200, 3600, "EEST")
           } else {
            Table::row(3623526000, 7200, 0, "EET")
           }
          } else {
           if i < 303 {
            Table::row(3636230400, 7200, 3600, "EEST")
           } else {
            if i < 304 {
             Table::row(3638646000, 7200, 0, "EET")
            } else {
             Table::row(3642883200, 7200, 3600, "EEST")
            }
           }
          }
         } else {
          if i < 307 {
           if i < 306 {
            Table::row(3654975600, 7200, 0, "EET")
           } else {
            Table::row(3668284800, 7200, 3600, "EEST")
           }
          } else {
           if i < 308 {
            Table::row(3669490800, 7200, 0, "EET")
           } else {
            if i < 309 {
             Table::row(3673123200, 7200, 3600, "EEST")
            } else {
             Table::row(3686425200, 7200, 0, "EET")
            }
           }
          }
         }
        }
       }
      }
     }
    }
}

/// The rows of the table of the zone `Asia/Hebron`.
pub open spec fn hebron_rows() -> spec_fn(int) -> (i64, FixedTimespan) {
    |i: int| hebron_row(i)
}

/// The table of the zone `Asia/Hebron`.
pub open spec fn hebron() -> Table {
    Table::listed(Table::row(0, 8423, 0, "LMT").1, 310, hebron_rows())
}

/// Row `i` of the table of the zone `Asia/Ho_Chi_Minh`.
pub open spec fn ho_chi_minh_row(i: int) -> (i64, FixedTimespan) {
    if i < 5 {
     if i < 2 {
      if i < 1 {
       Table::row(-2004073590, 25590, 0, "PLMT")
      } else {
       Table::row(-1851577590, 25200, 0, "+07")
      }
     } else {
      if i < 3 {
       Table::row(-852105600, 28800, 0, "+08")
      } else {
       if i < 4 {
        Table::row(-782643600, 32400, 0, "+09")
       } else {
        Table::row(-767869200, 25200, 0, "+07")
       }
      }
     }
    } else {
     if i < 7 {
      if i < 6 {
       Table::row(-718095600, 28800, 0, "+08")
      } else {
       Table::row(-457772400, 25200, 0, "+07")
      }
     } else {
      if i < 8 {
       Table::row(-315648000, 28800, 0, "+08")
      } else {
       if i < 9 {
        Table::row(171820800, 25200, 0, "+07")
       } else {
        Table::row(2147483647, 25200, 0, "+07")
       }
      }
     }
    }
}

/// The rows of the table of the zone `Asia/Ho_Chi_Minh`.
pub open spec fn ho_chi_minh_rows() -> spec_fn(int) -> (i64, FixedTimespan) {
    |i: int| ho_chi_minh_row(i)
}

/// The table of the zone `Asia/Ho_Chi_Minh`.
pub open spec fn ho_chi_minh() -> Table {
    Table::listed(Table::row(0, 25590, 0, "LMT").1, 10, ho_chi_minh_rows())
}

/// Row `i` of the table of the zone `Asia/Hong_Kong`.
pub open spec fn hong_kong_row(i: int) -> (i64, FixedTimespan) {
    if i < 34 {
     if i < 17 {
      if i < 8 {
       if i < 4 {
        if i < 2 {
         if i < 1 {
          Table::row(-2056690800, 28800, 0, "HKT")
         } else {
          Table::row(-900910800, 28800, 3600, "HKST")
         }
        } else {
         if i < 3 {
          Table::row(-891579600, 28800, 1800, "HKWT")
         } else {
          Table::row(-884248200, 32400, 0, "JST")
         }
        }
       } else {
        if i < 6 {
         if i < 5 {
          Table::row(-761209200, 28800, 0, "HKT")
         } else {
          Table::row(-747907200, 28800, 3600, "HKST")
         }
        } else {
         if i < 7 {
          Table::row(-728541000, 28800, 0, "HKT")
         } else {
          Table::row(-717049800, 28800, 3600, "HKST")
         }
        }
       }
      } else {
       if i < 12 {
        if i < 10 {
         if i < 9 {
          Table::row(-697091400, 28800, 0, "HKT")
         } else {
          Table::row(-683785800, 28800, 3600, "HKST")
         }
        } else {
         if i < 11 {
          Table::row(-668061000, 28800, 0, "HKT")
         } else {
          Table::row(-654755400, 28800, 3600, "HKST")
         }
        }
       } else {
        if i < 14 {
         if i < 13 {
          Table::row(-636611400, 28800, 0, "HKT")
         } else {
          Table::row(-623305800, 28800, 3600, "HKST")
         }
        } else {
         if i < 15 {
          Table::row(-605161800, 28800, 0, "HKT")
         } else {
          if i < 16 {
           Table::row(-591856200, 28800, 3600, "HKST")
          } else {
           Table::row(-573712200, 28800, 0, "HKT")
          }
         }
        }
       }
      }
     } else {
      if i < 25 {
       if i < 21 {
        if i < 19 {
         if i < 18 {
          Table::row(-559801800, 28800, 3600, "HKST")
         } else {
          Table::row(-541657800, 28800, 0, "HKT")
         }
        } else {
         if i < 20 {
          Table::row(-528352200, 28800, 3600, "HKST")
         } else {
          Table::row(-510211800, 28800, 0, "HKT")
         }
        }
       } else {
        if i < 23 {
         if i < 22 {
          Table::row(-498112200, 28800, 3600, "HKST")
         } else {
          Table::row(-478762200, 28800, 0, "HKT")
         }
        } else {
         if i < 24 {
          Table::row(-466662600, 28800, 3600, "HKST")
         } else {
          Table::row(-446707800, 28800, 0, "HKT")
         }
        }
       }
      } else {
       if i < 29 {
        if i < 27 {
         if i < 26 {
          Table::row(-435213000, 28800, 3600, "HKST")
         } else {
          Table::row(-415258200, 28800, 0, "HKT")
         }
        } else {
         if i < 28 {
          Table::row(-403158600, 28800, 3600, "HKST")
         } else {
          Table::row(-383808600, 28800, 0, "HKT")
         }
        }
       } else {
        if i < 31 {
         if i < 30 {
          Table::row(-371709000, 28800, 3600, "HKST")
         } else {
          Table::row(-352359000, 28800, 0, "HKT")
         }
        } else {
         if i < 32 {
          Table::row(-340259400, 28800, 3600, "HKST")
         } else {
          if i < 33 {
           Table::row(-320909400, 28800, 0, "HKT")
          } else {
           Table::row(-308809800, 28800, 3600, "HKST")
          }
         }
        }
       }
      }
     }
    } else {
     if i < 51 {
      if i < 42 {
       if i < 38 {
        if i < 36 {
         if i < 35 {
          Table::row(-288855000, 28800, 0, "HKT")
         } else {
          Table::row(-277360200, 28800, 3600, "HKST")
         }
        } else {
         if i < 37 {
          Table::row(-257405400, 28800, 0, "HKT")
         } else {
          Table::row(-245910600, 28800, 3600, "HKST")
         }
        }
       } else {
        if i < 40 {
         if i < 39 {
          Table::row(-225955800, 28800, 0, "HKT")
         } else {
          Table::row(-213856200, 28800, 3600, "HKST")
         }
        } else {
         if i < 41 {
          Table::row(-194506200, 28800, 0, "HKT")
         } else {
          Table::row(-182406600, 28800, 3600, "HKST")
         }
        }
       }
      } else {
       if i < 46 {
        if i < 44 {
         if i < 43 {
          Table::row(-163056600, 28800, 0, "HKT")
         } else {
          Table::row(-148537800, 28800, 3600, "HKST")
         }
        } else {
         if i < 45 {
          Table::row(-132816600, 28800, 0, "HKT")
         } else {
          Table::row(-117088200, 28800, 3600, "HKST")
         }
        }
       } else {
        if i < 48 {
         if i < 47 {
          Table::row(-101367000, 28800, 0, "HKT")
         } else {
          Table::row(-85638600, 28800, 3600, "HKST")
         }
        } else {
         if i < 49 {
          Table::row(-69312600, 28800, 0, "HKT")
         } else {
          if i < 50 {
           Table::row(-53584200, 28800, 3600, "HKST")
          } else {
           Table::row(-37863000, 28800, 0, "HKT")
          }
         }
        }
       }
      }
     } else {
      if i < 60 {
       if i < 55 {
        if i < 53 {
         if i < 52 {
          Table::row(-22134600, 28800, 3600, "HKST")
         } else {
          Table::row(-6413400, 28800, 0, "HKT")
         }
        } else {
         if i < 54 {
          Table::row(9315000, 28800, 3600, "HKST")
         } else {
          Table::row(25036200, 28800, 0, "HKT")
         }
        }
       } else {
        if i < 57 {
         if i < 56 {
          Table::row(40764600, 28800, 3600, "HKST")
         } else {
          Table::row(56485800, 28800, 0, "HKT")
         }
        } else {
         if i < 58 {
          Table::row(72214200, 28800, 3600, "HKST")
         } else {
          if i < 59 {
           Table::row(88540200, 28800, 0, "HKT")
          } else {
           Table::row(104268600, 28800, 3600, "HKST")
          }
         }
        }
       }
      } else {
       if i < 64 {
        if i < 62 {
         if i < 61 {
          Table::row(119989800, 28800, 0, "HKT")
         } else {
          Table::row(126041400, 28800, 3600, "HKST")
         }
        } else {
         if i < 63 {
          Table::row(151439400, 28800, 0, "HKT")
         } else {
          Table::row(167167800, 28800, 3600, "HKST")
         }
        }
       } else {
        if i < 66 {
         if i < 65 {
          Table::row(182889000, 28800, 0, "HKT")
         } else {
          Table::row(198617400, 28800, 3600, "HKST")
         }
        } else {
         if i < 67 {
          Table::row(214338600, 28800, 0, "HKT")
         } else {
          if i < 68 {
           Table::row(295385400, 28800, 3600, "HKST")
          } else {
           Table::row(309292200, 28800, 0, "HKT")
          }
         }
        }
       }
      }
     }
    }
}

/// The rows of the table of the zone `Asia/Hong_Kong`.
pub open spec fn hong_kong_rows() -> spec_fn(int) -> (i64, FixedTimespan) {
    |i: int| hong_kong_row(i)
}

/// The table of the zone `Asia/Hong_Kong`.
pub open spec fn hong_kong() -> Table {
    Table::listed(Table::row(0, 27402, 0, "LMT").1, 69, hong_kong_rows())
}

/// Row `i` of the table of the zone `Asia/Hovd`.
pub open spec fn hovd_row(i: int) -> (i64, FixedTimespan) {
    if i < 25 {
     if i < 12 {
      if i < 6 {
       if i < 3 {
        if i < 1 {
         Table::row(-2032927596, 21600, 0, "+06")
        } else {
         if i < 2 {
          Table::row(252439200, 25200, 0, "+07")
         } else {
          Table::row(417978000, 25200, 3600, "+08")
         }
        }
       } else {
        if i < 4 {
         Table::row(433785600, 25200, 0, "+07")
        } else {
         if i < 5 {
          Table::row(449600400, 25200, 3600, "+08")
         } else {
          Table::row(465321600, 25200, 0, "+07")
         }
        }
       }
      } else {
       if i < 9 {
        if i < 7 {
         Table::row(481050000, 25200, 3600, "+08")
        } else {
         if i < 8 {
          Table::row(496771200, 25200, 0, "+07")
         } else {
          Table::row(512499600, 25200, 3600, "+08")
         }
        }
       } else {
        if i < 10 {
         Table::row(528220800, 25200, 0, "+07")
        } else {
         if i < 11 {
          Table::row(543949200, 25200, 3600, "+08")
         } else {
          Table::row(559670400, 25200, 0, "+07")
         }
        }
       }
      }
     } else {
      if i < 18 {
       if i < 15 {
        if i < 13 {
         Table::row(575398800, 25200, 3600, "+08")
        } else {
         if i < 14 {
          Table::row(591120000, 25200, 0, "+07")
         } else {
          Table::row(606848400, 25200, 3600, "+08")
         }
        }
       } else {
        if i < 16 {
         Table::row(622569600, 25200, 0, "+07")
        } else {
         if i < 17 {
          Table::row(638298000, 25200, 3600, "+08")
         } else {
          Table::row(654624000, 25200, 0, "+07")
         }
        }
       }
      } else {
       if i < 21 {
        if i < 19 {
         Table::row(670352400, 25200, 3600, "+08")
        } else {
         if i < 20 {
          Table::row(686073600, 25200, 0, "+07")
         } else {
          Table::row(701802000, 25200, 3600, "+08")
         }
        }
       } else {
        if i < 23 {
         if i < 22 {
          Table::row(717523200, 25200, 0, "+07")
         } else {
          Table::row(733251600, 25200, 3600, "+08")
         }
        } else {
         if i < 24 {
          Table::row(748972800, 25200, 0, "+07")
         } else {
          Table::row(764701200, 25200, 3600, "+08")
         }
        }
       }
      }
     }
    } else {
     if i < 38 {
      if i < 31 {
       if i < 28 {
        if i < 26 {
         Table::row(780422400, 25200, 0, "+07")
        } else {
         if i < 27 {
          Table::row(796150800, 25200, 3600, "+08")
         } else {
          Table::row(811872000, 25200, 0, "+07")
         }
        }
       } else {
        if i < 29 {
         Table::row(828205200, 25200, 3600, "+08")
        } else {
         if i < 30 {
          Table::row(843926400, 25200, 0, "+07")
         } else {
          Table::row(859654800, 25200, 3600, "+08")
         }
        }
       }
      } else {
       if i < 34 {
        if i < 32 {
         Table::row(875376000, 25200, 0, "+07")
        } else {
         if i < 33 {
          Table::row(891104400, 25200, 3600, "+08")
         } else {
          Table::row(906825600, 25200, 0, "+07")
         }
        }
       } else {
        if i < 36 {
         if i < 35 {
          Table::row(988398000, 25200, 3600, "+08")
         } else {
          Table::row(1001700000, 25200, 0, "+07")
         }
        } else {
         if i < 37 {
          Table::row(1017428400, 25200, 3600, "+08")
         } else {
          Table::row(1033149600, 25200, 0, "+07")
         }
        }
       }
      }
     } else {
      if i < 44 {
       if i < 41 {
        if i < 39 {
         Table::row(1048878000, 25200, 3600, "+08")
        } else {
         if i < 40 {
          Table::row(1064599200, 25200, 0, "+07")
         } else {
          Table::row(1080327600, 25200, 3600, "+08")
         }
        }
       } else {
        if i < 42 {
         Table::row(1096048800, 25200, 0, "+07")
        } else {
         if i < 43 {
          Table::row(1111777200, 25200, 3600, "+08")
         } else {
          Table::row(1127498400, 25200, 0, "+07")
         }
        }
       }
      } else {
       if i < 47 {
        if i < 45 {
         Table::row(1143226800, 25200, 3600, "+08")
        } else {
         if i < 46 {
          Table::row(1159552800, 25200, 0, "+07")
         } else {
          Table::row(1427482800, 25200, 3600, "+08")
         }
        }
       } else {
        if i < 49 {
         if i < 48 {
          Table::row(1443196800, 25200, 0, "+07")
         } else {
          Table::row(1458932400, 25200, 3600, "+08")
         }
        } else {
         if i < 50 {
          Table::row(1474646400, 25200, 0, "+07")
         } else {
          Table::row(2147483647, 25200, 0, "+07")
         }
        }
       }
      }
     }
    }
}

/// The rows of the table of the zone `Asia/Hovd`.
pub open spec fn hovd_rows() -> spec_fn(int) -> (i64, FixedTimespan) {
    |i: int| hovd_row(i)
}

/// The table of the zone `Asia/Hovd`.
pub open spec fn hovd() -> Table {
    Table::listed(Table::row(0, 21996, 0, "LMT").1, 51, hovd_rows())
}

/// Row `i` of the table of the zone `Asia/Irkutsk`.
pub open spec fn irkutsk_row(i: int) -> (i64, FixedTimespan) {
    if i < 33 {
     if i < 16 {
      if i < 8 {
       if i < 4 {
        if i < 2 {
         if i < 1 {
          Table::row(-2840165825, 25025, 0, "IMT")
         } else {
          Table::row(-1575874625, 25200, 0, "+07")
         }
        } else {
         if i < 3 {
          Table::row(-1247554800, 28800, 0, "+08")
         } else {
          Table::row(354902400, 28800, 3600, "+09")
         }
        }
       } else {
        if i < 6 {
         if i < 5 {
          Table::row(370710000, 28800, 0, "+08")
         } else {
          Table::row(386438400, 28800, 3600, "+09")
         }
        } else {
         if i < 7 {
          Table::row(402246000, 28800, 0, "+08")
         } else {
          Table::row(417974400, 28800, 3600, "+09")
         }
        }
       }
      } else {
       if i < 12 {
        if i < 10 {
         if i < 9 {
          Table::row(433782000, 28800, 0, "+08")
         } else {
          Table::row(449596800, 28800, 3600, "+09")
         }
        } else {
         if i < 11 {
          Table::row(465328800, 28800, 0, "+08")
         } else {
          Table::row(481053600, 28800, 3600, "+09")
         }
        }
       } else {
        if i < 14 {
         if i < 13 {
          Table::row(496778400, 28800, 0, "+08")
         } else {
          Table::row(512503200, 28800, 3600, "+09")
         }
        } else {
         if i < 15 {
          Table::row(528228000, 28800, 0, "+08")
         } else {
          Table::row(543952800, 28800, 3600, "+09")
         }
        }
       }
      }
     } else {
      if i < 24 {
       if i < 20 {
        if i < 18 {
         if i < 17 {
          Table::row(559677600, 28800, 0, "+08")
         } else {
          Table::row(575402400, 28800, 3600, "+09")
         }
        } else {
         if i < 19 {
          Table::row(591127200, 28800, 0, "+08")
         } else {
          Table::row(606852000, 28800, 3600, "+09")
         }
        }
       } else {
        if i < 22 {
         if i < 21 {
          Table::row(622576800, 28800, 0, "+08")
         } else {
          Table::row(638301600, 28800, 3600, "+09")
         }
        } else {
         if i < 23 {
          Table::row(654631200, 28800, 0, "+08")
         } else {
          Table::row(670356000, 25200, 3600, "+08")
         }
        }
       }
      } else {
       if i < 28 {
        if i < 26 {
         if i < 25 {
          Table::row(686084400, 25200, 0, "+07")
         } else {
          Table::row(695761200, 28800, 0, "+08")
         }
        } else {
         if i < 27 {
          Table::row(701805600, 28800, 3600, "+09")
         } else {
          Table::row(717530400, 28800, 0, "+08")
         }
        }
       } else {
        if i < 30 {
         if i < 29 {
          Table::row(733255200, 28800, 3600, "+09")
         } else {
          Table::row(748980000, 28800, 0, "+08")
         }
        } else {
         if i < 31 {
          Table::row(764704800, 28800, 3600, "+09")
         } else {
          if i < 32 {
           Table::row(780429600, 28800, 0, "+08")
          } else {
           Table::row(796154400, 28800, 3600, "+09")
          }
         }
        }
       }
      }
     }
    } else {
     if i < 50 {
      if i < 41 {
       if i < 37 {
        if i < 35 {
         if i < 34 {
          Table::row(811879200, 28800, 0, "+08")
         } else {
          Table::row(828208800, 28800, 3600, "+09")
         }
        } else {
         if i < 36 {
          Table::row(846352800, 28800, 0, "+08")
         } else {
          Table::row(859658400, 28800, 3600, "+09")
         }
        }
       } else {
        if i < 39 {
         if i < 38 {
          Table::row(877802400, 28800, 0, "+08")
         } else {
          Table::row(891108000, 28800, 3600, "+09")
         }
        } else {
         if i < 40 {
          Table::row(909252000, 28800, 0, "+08")
         } else {
          Table::row(922557600, 28800, 3600, "+09")
         }
        }
       }
      } else {
       if i < 45 {
        if i < 43 {
         if i < 42 {
          Table::row(941306400, 28800, 0, "+08")
         } else {
          Table::row(954007200, 28800, 3600, "+09")
         }
        } else {
         if i < 44 {
          Table::row(972756000, 28800, 0, "+08")
         } else {
          Table::row(985456800, 28800, 3600, "+09")
         }
        }
       } else {
        if i < 47 {
         if i < 46 {
          Table::row(1004205600, 28800, 0, "+08")
         } else {
          Table::row(1017511200, 28800, 3600, "+09")
         }
        } else {
         if i < 48 {
          Table::row(1035655200, 28800, 0, "+08")
         } else {
          if i < 49 {
           Table::row(1048960800, 28800, 3600, "+09")
          } else {
           Table::row(1067104800, 28800, 0, "+08")
          }
         }
        }
       }
      }
     } else {
      if i < 58 {
       if i < 54 {
        if i < 52 {
         if i < 51 {
          Table::row(1080410400, 28800, 3600, "+09")
         } else {
          Table::row(1099159200, 28800, 0, "+08")
         }
        } else {
         if i < 53 {
          Table::row(1111860000, 28800, 3600, "+09")
         } else {
          Table::row(1130608800, 28800, 0, "+08")
         }
        }
       } else {
        if i < 56 {
         if i < 55 {
          Table::row(1143309600, 28800, 3600, "+09")
         } else {
          Table::row(1162058400, 28800, 0, "+08")
         }
        } else {
         if i < 57 {
          Table::row(1174759200, 28800, 3600, "+09")
         } else {
          Table::row(1193508000, 28800, 0, "+08")
         }
        }
       }
      } else {
       if i < 62 {
        if i < 60 {
         if i < 59 {
          Table::row(1206813600, 28800, 3600, "+09")
         } else {
          Table::row(1224957600, 28800, 0, "+08")
         }
        } else {
         if i < 61 {
          Table::row(1238263200, 28800, 3600, "+09")
         } else {
          Table::row(1256407200, 28800, 0, "+08")
         }
        }
       } else {
        if i < 64 {
         if i < 63 {
          Table::row(1269712800, 28800, 3600, "+09")
         } else {
          Table::row(1288461600, 28800, 0, "+08")
         }
        } else {
         if i < 65 {
          Table::row(1301162400, 32400, 0, "+09")
         } else {
          if i < 66 {
           Table::row(1414256400, 28800, 0, "+08")
          } else {
           Table::row(2147483647, 28800, 0, "+08")
          }
         }
        }
       }
      }
     }
    }
}

/// The rows of the table of the zone `Asia/Irkutsk`.
pub open spec fn irkutsk_rows() -> spec_fn(int) -> (i64, FixedTimespan) {
    |i: int| irkutsk_row(i)
}

/// The table of the zone `Asia/Irkutsk`.
pub open spec fn irkutsk() -> Table {
    Table::listed(Table::row(0, 25025, 0, "LMT").1, 67, irkutsk_rows())
}

/// Row `i` of the table of the zone `Asia/Istanbul`.
pub open spec fn istanbul_row(i: int) -> (i64, FixedTimespan) {
    if i < 58 {
     if i < 29 {
      if i < 14 {
       if i < 7 {
        if i < 3 {
         if i < 1 {
          Table::row(-2840147752, 7016, 0, "IMT")
         } else {
          if i < 2 {
           Table::row(-1869875816, 7200, 0, "EET")
          } else {
           Table::row(-1693706400, 7200, 3600, "EEST")
          }
         }
        } else {
         if i < 5 {
          if i < 4 {
           Table::row(-1680490800, 7200, 0, "EET")
          } else {
           Table::row(-1570413600, 7200, 3600, "EEST")
          }
         } else {
          if i < 6 {
           Table::row(-1552186800, 7200, 0, "EET")
          } else {
           Table::row(-1538359200, 7200, 3600, "EEST")
          }
         }
        }
       } else {
        if i < 10 {
         if i < 8 {
          Table::row(-1522551600, 7200, 0, "EET")
         } else {
          if i < 9 {
           Table::row(-1507514400, 7200, 3600, "EEST")
          } else {
           Table::row(-1490583600, 7200, 0, "EET")
          }
         }
        } else {
         if i < 12 {
          if i < 11 {
           Table::row(-1440208800, 7200, 3600, "EEST")
          } else {
           Table::row(-1428030000, 7200, 0, "EET")
          }
         } else {
          if i < 13 {
           Table::row(-1409709600, 7200, 3600, "EEST")
          } else {
           Table::row(-1396494000, 7200, 0, "EET")
          }
         }
        }
       }
      } else {
       if i < 21 {
        if i < 17 {
         if i < 15 {
          Table::row(-931053600, 7200, 3600, "EEST")
         } else {
          if i < 16 {
           Table::row(-922676400, 7200, 0, "EET")
          } else {
           Table::row(-917834400, 7200, 3600, "EEST")
          }
         }
        } else {
         if i < 19 {
          if i < 18 {
           Table::row(-892436400, 7200, 0, "EET")
          } else {
           Table::row(-875844000, 7200, 3600, "EEST")
          }
         } else {
          if i < 20 {
           Table::row(-764737200, 7200, 0, "EET")
          } else {
           Table::row(-744343200, 7200, 3600, "EEST")
          }
         }
        }
       } else {
        if i < 25 {
         if i < 23 {
          if i < 22 {
           Table::row(-733806000, 7200, 0, "EET")
          } else {
           Table::row(-716436000, 7200, 3600, "EEST")
          }
         } else {
          if i < 24 {
           Table::row(-701924400, 7200, 0, "EET")
          } else {
           Table::row(-684986400, 7200, 3600, "EEST")
          }
         }
        } else {
         if i < 27 {
          if i < 26 {
           Table::row(-670474800, 7200, 0, "EET")
          } else {
           Table::row(-654141600, 7200, 3600, "EEST")
          }
         } else {
          if i < 28 {
           Table::row(-639025200, 7200, 0, "EET")
          } else {
           Table::row(-622087200, 7200, 3600, "EEST")
          }
         }
        }
       }
      }
     } else {
      if i < 43 {
       if i < 36 {
        if i < 32 {
         if i < 30 {
          Table::row(-606970800, 7200, 0, "EET")
         } else {
          if i < 31 {
           Table::row(-590032800, 7200, 3600, "EEST")
          } else {
           Table::row(-575521200, 7200, 0, "EET")
          }
         }
        } else {
         if i < 34 {
          if i < 33 {
           Table::row(-235620000, 7200, 3600, "EEST")
          } else {
           Table::row(-194842800, 7200, 0, "EET")
          }
         } else {
          if i < 35 {
           Table::row(-177732000, 7200, 3600, "EEST")
          } else {
           Table::row(-165726000, 7200, 0, "EET")
          }
         }
        }
       } else {
        if i < 39 {
         if i < 37 {
          Table::row(107910000, 7200, 3600, "EEST")
         } else {
          if i < 38 {
           Table::row(121215600, 7200, 0, "EET")
          } else {
           Table::row(133920000, 7200, 3600, "EEST")
          }
         }
        } else {
         if i < 41 {
          if i < 40 {
           Table::row(152665200, 7200, 0, "EET")
          } else {
           Table::row(164678400, 7200, 3600, "EEST")
          }
         } else {
          if i < 42 {
           Table::row(184114800, 7200, 0, "EET")
          } else {
           Table::row(196214400, 7200, 3600, "EEST")
          }
         }
        }
       }
      } else {
       if i < 50 {
        if i < 46 {
         if i < 44 {
          Table::row(215564400, 7200, 0, "EET")
         } else {
          if i < 45 {
           Table::row(228873600, 7200, 3600, "EEST")
          } else {
           Table::row(245804400, 7200, 0, "EET")
          }
         }
        } else {
         if i < 48 {
          if i < 47 {
           Table::row(260323200, 7200, 3600, "EEST")
          } else {
           Table::row(267915600, 10800, 0, "+03")
          }
         } else {
          if i < 49 {
           Table::row(428454000, 10800, 3600, "+04")
          } else {
           Table::row(433893600, 10800, 0, "+03")
          }
         }
        }
       } else {
        if i < 54 {
         if i < 52 {
          if i < 51 {
           Table::row(468111600, 7200, 0, "EET")
          } else {
           Table::row(482799600, 7200, 3600, "EEST")
          }
         } else {
          if i < 53 {
           Table::row(496710000, 7200, 0, "EET")
          } else {
           Table::row(512521200, 7200, 3600, "EEST")
          }
         }
        } else {
         if i < 56 {
          if i < 55 {
           Table::row(528246000, 7200, 0, "EET")
          } else {
           Table::row(543970800, 7200, 3600, "EEST")
          }
         } else {
          if i < 57 {
           Table::row(559695600, 7200, 0, "EET")
          } else {
           Table::row(575420400, 7200, 3600, "EEST")
          }
         }
        }
       }
      }
     }
    } else {
     if i < 87 {
      if i < 72 {
       if i < 65 {
        if i < 61 {
         if i < 59 {
          Table::row(591145200, 7200, 0, "EET")
         } else {
          if i < 60 {
           Table::row(606870000, 7200, 3600, "EEST")
          } else {
           Table::row(622594800, 7200, 0, "EET")
          }
         }
        } else {
         if i < 63 {
          if i < 62 {
           Table::row(638319600, 7200, 3600, "EEST")
          } else {
           Table::row(654649200, 7200, 0, "EET")
          }
         } else {
          if i < 64 {
           Table::row(670374000, 7200, 3600, "EEST")
          } else {
           Table::row(686098800, 7200, 0, "EET")
          }
         }
        }
       } else {
        if i < 68 {
         if i < 66 {
          Table::row(701823600, 7200, 3600, "EEST")
         } else {
          if i < 67 {
           Table::row(717548400, 7200, 0, "EET")
          } else {
           Table::row(733273200, 7200, 3600, "EEST")
          }
         }
        } else {
         if i < 70 {
          if i < 69 {
           Table::row(748998000, 7200, 0, "EET")
          } else {
           Table::row(764118000, 7200, 3600, "EEST")
          }
         } else {
          if i < 71 {
           Table::row(780447600, 7200, 0, "EET")
          } else {
           Table::row(796172400, 7200, 3600, "EEST")
          }
         }
        }
       }
      } else {
       if i < 79 {
        if i < 75 {
         if i < 73 {
          Table::row(811897200, 7200, 0, "EET")
         } else {
          if i < 74 {
           Table::row(828226800, 7200, 3600, "EEST")
          } else {
           Table::row(846370800, 7200, 0, "EET")
          }
         }
        } else {
         if i < 77 {
          if i < 76 {
           Table::row(859676400, 7200, 3600, "EEST")
          } else {
           Table::row(877820400, 7200, 0, "EET")
          }
         } else {
          if i < 78 {
           Table::row(891126000, 7200, 3600, "EEST")
          } else {
           Table::row(909270000, 7200, 0, "EET")
          }
         }
        }
       } else {
        if i < 83 {
         if i < 81 {
          if i < 80 {
           Table::row(922575600, 7200, 3600, "EEST")
          } else {
           Table::row(941324400, 7200, 0, "EET")
          }
         } else {
          if i < 82 {
           Table::row(954025200, 7200, 3600, "EEST")
          } else {
           Table::row(972774000, 7200, 0, "EET")
          }
         }
        } else {
         if i < 85 {
          if i < 84 {
           Table::row(985474800, 7200, 3600, "EEST")
          } else {
           Table::row(1004223600, 7200, 0, "EET")
          }
         } else {
          if i < 86 {
           Table::row(1017529200, 7200, 3600, "EEST")
          } else {
           Table::row(1035673200, 7200, 0, "EET")
          }
         }
        }
       }
      }
     } else {
      if i < 101 {
       if i < 94 {
        if i < 90 {
         if i < 88 {
          Table::row(1048978800, 7200, 3600, "EEST")
         } else {
          if i < 89 {
           Table::row(1067122800, 7200, 0, "EET")
          } else {
           Table::row(1080428400, 7200, 3600, "EEST")
          }
         }
        } else {
         if i < 92 {
          if i < 91 {
           Table::row(1099177200, 7200, 0, "EET")
          } else {
           Table::row(1111878000, 7200, 3600, "EEST")
          }
         } else {
          if i < 93 {
           Table::row(1130626800, 7200, 0, "EET")
          } else {
           Table::row(1143327600, 7200, 3600, "EEST")
          }
         }
        }
       } else {
        if i < 97 {
         if i < 95 {
          Table::row(1162076400, 7200, 0, "EET")
         } else {
          if i < 96 {
           Table::row(1174784400, 7200, 3600, "EEST")
          } else {
           Table::row(1193533200, 7200, 0, "EET")
          }
         }
        } else {
         if i < 99 {
          if i < 98 {
           Table::row(1206838800, 7200, 3600, "EEST")
          } else {
           Table::row(1224982800, 7200, 0, "EET")
          }
         } else {
          if i < 100 {
           Table::row(1238288400, 7200, 3600, "EEST")
          } else {
           Table::row(1256432400, 7200, 0, "EET")
          }
         }
        }
       }
      } else {
       if i < 108 {
        if i < 104 {
         if i < 102 {
          Table::row(1269738000, 7200, 3600, "EEST")
         } else {
          if i < 103 {
           Table::row(1288486800, 7200, 0, "EET")
          } else {
           Table::row(1301274000, 7200, 3600, "EEST")
          }
         }
        } else {
         if i < 106 {
          if i < 105 {
           Table::row(1319936400, 7200, 0, "EET")
          } else {
           Table::row(1332637200, 7200, 3600, "EEST")
          }
         } else {
          if i < 107 {
           Table::row(1351386000, 7200, 0, "EET")
          } else {
           Table::row(1364691600, 7200, 3600, "EEST")
          }
         }
        }
       } else {
        if i < 112 {
         if i < 110 {
          if i < 109 {
           Table::row(1382835600, 7200, 0, "EET")
          } else {
           Table::row(1396227600, 7200, 3600, "EEST")
          }
         } else {
          if i < 111 {
           Table::row(1414285200, 7200, 0, "EET")
          } else {
           Table::row(1427590800, 7200, 3600, "EEST")
          }
         }
        } else {
         if i < 114 {
          if i < 113 {
           Table::row(1446944400, 7200, 0, "EET")
          } else {
           Table::row(1459040400, 7200, 3600, "EEST")
          }
         } else {
          if i < 115 {
           Table::row(1473195600, 10800, 0, "+03")
          } else {
           Table::row(2147483647, 10800, 0, "+03")
          }
         }
        }
       }
      }
     }
    }
}

/// The rows of the table of the zone `Asia/Istanbul`.
pub open spec fn istanbul_rows() -> spec_fn(int) -> (i64, FixedTimespan) {
    |i: int| istanbul_row(i)
}

/// The table of the zone `Asia/Istanbul`.
pub open spec fn istanbul() -> Table {
    Table::listed(Table::row(0, 6952, 0, "LMT").1, 116, istanbul_rows())
}

/// Row `i` of the table of the zone `Asia/Jakarta`.
pub open spec fn jakarta_row(i: int) -> (i64, FixedTimespan) {
    if i < 4 {
     if i < 2 {
      if i < 1 {
       Table::row(-3231299232, 25632, 0, "BMT")
      } else {
       Table::row(-1451719200, 26400, 0, "+0720")
      }
     } else {
      if i < 3 {
       Table::row(-1172906400, 27000, 0, "+0730")
      } else {
       Table::row(-876641400, 32400, 0, "+09")
      }
     }
    } else {
     if i < 6 {
      if i < 5 {
       Table::row(-766054800, 27000, 0, "+0730")
      } else {
       Table::row(-683883000, 28800, 0, "+08")
      }
     } else {
      if i < 7 {
       Table::row(-620812800, 27000, 0, "+0730")
      } else {
       Table::row(-189415800, 25200, 0, "WIB")
      }
     }
    }
}

/// The rows of the table of the zone `Asia/Jakarta`.
pub open spec fn jakarta_rows() -> spec_fn(int) -> (i64, FixedTimespan) {
    |i: int| jakarta_row(i)
}

/// The table of the zone `Asia/Jakarta`.
pub open spec fn jakarta() -> Table {
    Table::listed(Table::row(0, 25632, 0, "LMT").1, 8, jakarta_rows())
}

/// Row `i` of the table of the zone `Asia/Jayapura`.
pub open spec fn jayapura_row(i: int) -> (i64, FixedTimespan) {
    if i < 1 {
     Table::row(-1172913768, 32400, 0, "+09")
    } else {
     if i < 2 {
      Table::row(-799491600, 34200, 0, "+0930")
     } else {
      Table::row(-189423000, 32400, 0, "WIT")
     }
    }
}

/// The rows of the table of the zone `Asia/Jayapura`.
pub open spec fn jayapura_rows() -> spec_fn(int) -> (i64, FixedTimespan) {
    |i: int| jayapura_row(i)
}

/// The table of the zone `Asia/Jayapura`.
pub open spec fn jayapura() -> Table {
    Table::listed(Table::row(0, 33768, 0, "LMT").1, 3, jayapura_rows())
}

/// Row `i` of the table of the zone `Asia/Jerusalem`.
pub open spec fn jerusalem_row(i: int) -> (i64, FixedTimespan) {
    if i < 74 {
     if i < 37 {
      if i < 18 {
       if i < 9 {
        if i < 4 {
         if i < 2 {
          if i < 1 {
           Table::row(-2840149254, 8440, 0, "JMT")
          } else {
           Table::row(-1641003640, 7200, 0, "IST")
          }
         } else {
          if i < 3 {
           Table::row(-933638400, 7200, 3600, "IDT")
          } else {
           Table::row(-923097600, 7200, 0, "IST")
          }
         }
        } else {
         if i < 6 {
          if i < 5 {
           Table::row(-919036800, 7200, 3600, "IDT")
          } else {
           Table::row(-857347200, 7200, 0, "IST")
          }
         } else {
          if i < 7 {
           Table::row(-844300800, 7200, 3600, "IDT")
          } else {
           if i < 8 {
            Table::row(-825811200, 7200, 0, "IST")
           } else {
            Table::row(-812678400, 7200, 3600, "IDT")
           }
          }
         }
        }
       } else {
        if i < 13 {
         if i < 11 {
          if i < 10 {
           Table::row(-794188800, 7200, 0, "IST")
          } else {
           Table::row(-779846400, 7200, 3600, "IDT")
          }
         } else {
          if i < 12 {
           Table::row(-762652800, 7200, 0, "IST")
          } else {
           Table::row(-748310400, 7200, 3600, "IDT")
          }
         }
        } else {
         if i < 15 {
          if i < 14 {
           Table::row(-731116800, 7200, 0, "IST")
          } else {
           Table::row(-681955200, 7200, 7200, "IDDT")
          }
         } else {
          if i < 16 {
           Table::row(-673228800, 7200, 3600, "IDT")
          } else {
           if i < 17 {
            Table::row(-667958400, 7200, 0, "IST")
           } else {
            Table::row(-652320000, 7200, 3600, "IDT")
           }
          }
         }
        }
       }
      } else {
       if i < 27 {
        if i < 22 {
         if i < 20 {
          if i < 19 {
           Table::row(-636422400, 7200, 0, "IST")
          } else {
           Table::row(-622080000, 7200, 3600, "IDT")
          }
         } else {
          if i < 21 {
           Table::row(-608947200, 7200, 0, "IST")
          } else {
           Table::row(-591840000, 7200, 3600, "IDT")
          }
         }
        } else {
         if i < 24 {
          if i < 23 {
           Table::row(-572486400, 7200, 0, "IST")
          } else {
           Table::row(-558576000, 7200, 3600, "IDT")
          }
         } else {
          if i < 25 {
           Table::row(-542851200, 7200, 0, "IST")
          } else {
           if i < 26 {
            Table::row(-527731200, 7200, 3600, "IDT")
           } else {
            Table::row(-514425600, 7200, 0, "IST")
           }
          }
         }
        }
       } else {
        if i < 32 {
         if i < 29 {
          if i < 28 {
           Table::row(-490838400, 7200, 3600, "IDT")
          } else {
           Table::row(-482976000, 7200, 0, "IST")
          }
         } else {
          if i < 30 {
           Table::row(-459388800, 7200, 3600, "IDT")
          } else {
           if i < 31 {
            Table::row(-451526400, 7200, 0, "IST")
           } else {
            Table::row(-428544000, 7200, 3600, "IDT")
           }
          }
         }
        } else {
         if i < 34 {
          if i < 33 {
           Table::row(-418262400, 7200, 0, "IST")
          } else {
           Table::row(-400118400, 7200, 3600, "IDT")
          }
         } else {
          if i < 35 {
           Table::row(-387417600, 7200, 0, "IST")
          } else {
           if i < 36 {
            Table::row(142380000, 7200, 3600, "IDT")
           } else {
            Table::row(150843600, 7200, 0, "IST")
           }
          }
         }
        }
       }
      }
     } else {
      if i < 55 {
       if i < 46 {
        if i < 41 {
         if i < 39 {
          if i < 38 {
           Table::row(167176800, 7200, 3600, "IDT")
          } else {
           Table::row(178664400, 7200, 0, "IST")
          }
         } else {
          if i < 40 {
           Table::row(334101600, 7200, 3600, "IDT")
          } else {
           Table::row(337730400, 7200, 0, "IST")
          }
         }
        } else {
         if i < 43 {
          if i < 42 {
           Table::row(452642400, 7200, 3600, "IDT")
          } else {
           Table::row(462319200, 7200, 0, "IST")
          }
         } else {
          if i < 44 {
           Table::row(482277600, 7200, 3600, "IDT")
          } else {
           if i < 45 {
            Table::row(494370000, 7200, 0, "IST")
           } else {
            Table::row(516751200, 7200, 3600, "IDT")
           }
          }
         }
        }
       } else {
        if i < 50 {
         if i < 48 {
          if i < 47 {
           Table::row(526424400, 7200, 0, "IST")
          } else {
           Table::row(545436000, 7200, 3600, "IDT")
          }
         } else {
          if i < 49 {
           Table::row(558478800, 7200, 0, "IST")
          } else {
           Table::row(576626400, 7200, 3600, "IDT")
          }
         }
        } else {
         if i < 52 {
          if i < 51 {
           Table::row(589323600, 7200, 0, "IST")
          } else {
           Table::row(609890400, 7200, 3600, "IDT")
          }
         } else {
          if i < 53 {
           Table::row(620773200, 7200, 0, "IST")
          } else {
           if i < 54 {
            Table::row(638316000, 7200, 3600, "IDT")
           } else {
            Table::row(651618000, 7200, 0, "IST")
           }
          }
         }
        }
       }
      } else {
       if i < 64 {
        if i < 59 {
         if i < 57 {
          if i < 56 {
           Table::row(669765600, 7200, 3600, "IDT")
          } else {
           Table::row(683672400, 7200, 0, "IST")
          }
         } else {
          if i < 58 {
           Table::row(701820000, 7200, 3600, "IDT")
          } else {
           Table::row(715726800, 7200, 0, "IST")
          }
         }
        } else {
         if i < 61 {
          if i < 60 {
           Table::row(733701600, 7200, 3600, "IDT")
          } else {
           Table::row(747176400, 7200, 0, "IST")
          }
         } else {
          if i < 62 {
           Table::row(765151200, 7200, 3600, "IDT")
          } else {
           if i < 63 {
            Table::row(778021200, 7200, 0, "IST")
           } else {
            Table::row(796600800, 7200, 3600, "IDT")
           }
          }
         }
        }
       } else {
        if i < 69 {
         if i < 66 {
          if i < 65 {
           Table::row(810075600, 7200, 0, "IST")
          } else {
           Table::row(826840800, 7200, 3600, "IDT")
          }
         } else {
          if i < 67 {
           Table::row(842821200, 7200, 0, "IST")
          } else {
           if i < 68 {
            Table::row(858895200, 7200, 3600, "IDT")
           } else {
            Table::row(874184400, 7200, 0, "IST")
           }
          }
         }
        } else {
         if i < 71 {
          if i < 70 {
           Table::row(890344800, 7200, 3600, "IDT")
          } else {
           Table::row(905029200, 7200, 0, "IST")
          }
         } else {
          if i < 72 {
           Table::row(923011200, 7200, 3600, "IDT")
          } else {
           if i < 73 {
            Table::row(936313200, 7200, 0, "IST")
           } else {
            Table::row(955670400, 7200, 3600, "IDT")
           }
          }
         }
        }
       }
      }
     }
    } else {
     if i < 111 {
      if i < 92 {
       if i < 83 {
        if i < 78 {
         if i < 76 {
          if i < 75 {
           Table::row(970783200, 7200, 0, "IST")
          } else {
           Table::row(986770800, 7200, 3600, "IDT")
          }
         } else {
          if i < 77 {
           Table::row(1001282400, 7200, 0, "IST")
          } else {
           Table::row(1017356400, 7200, 3600, "IDT")
          }
         }
        } else {
         if i < 80 {
          if i < 79 {
           Table::row(1033941600, 7200, 0, "IST")
          } else {
           Table::row(1048806000, 7200, 3600, "IDT")
          }
         } else {
          if i < 81 {
           Table::row(1065132000, 7200, 0, "IST")
          } else {
           if i < 82 {
            Table::row(1081292400, 7200, 3600, "IDT")
           } else {
            Table::row(1095804000, 7200, 0, "IST")
           }
          }
         }
        }
       } else {
        if i < 87 {
         if i < 85 {
          if i < 84 {
           Table::row(1112313600, 7200, 3600, "IDT")
          } else {
           Table::row(1128812400, 7200, 0, "IST")
          }
         } else {
          if i < 86 {
           Table::row(1143763200, 7200, 3600, "IDT")
          } else {
           Table::row(1159657200, 7200, 0, "IST")
          }
         }
        } else {
         if i < 89 {
          if i < 88 {
           Table::row(1175212800, 7200, 3600, "IDT")
          } else {
           Table::row(1189897200, 7200, 0, "IST")
          }
         } else {
          if i < 90 {
           Table::row(1206662400, 7200, 3600, "IDT")
          } else {
           if i < 91 {
            Table::row(1223161200, 7200, 0, "IST")
           } else {
            Table::row(1238112000, 7200, 3600, "IDT")
           }
          }
         }
        }
       }
      } else {
       if i < 101 {
        if i < 96 {
         if i < 94 {
          if i < 93 {
           Table::row(1254006000, 7200, 0, "IST")
          } else {
           Table::row(1269561600, 7200, 3600, "IDT")
          }
         } else {
          if i < 95 {
           Table::row(1284246000, 7200, 0, "IST")
          } else {
           Table::row(1301616000, 7200, 3600, "IDT")
          }
         }
        } else {
         if i < 98 {
          if i < 97 {
           Table::row(1317510000, 7200, 0, "IST")
          } else {
           Table::row(1333065600, 7200, 3600, "IDT")
          }
         } else {
          if i < 99 {
           Table::row(1348354800, 7200, 0, "IST")
          } else {
           if i < 100 {
            Table::row(1364515200, 7200, 3600, "IDT")
           } else {
            Table::row(1382828400, 7200, 0, "IST")
           }
          }
         }
        }
       } else {
        if i < 106 {
         if i < 103 {
          if i < 102 {
           Table::row(1395964800, 7200, 3600, "IDT")
          } else {
           Table::row(1414278000, 7200, 0, "IST")
          }
         } else {
          if i < 104 {
           Table::row(1427414400, 7200, 3600, "IDT")
          } else {
           if i < 105 {
            Table::row(1445727600, 7200, 0, "IST")
           } else {
            Table::row(1458864000, 7200, 3600, "IDT")
           }
          }
         }
        } else {
         if i < 108 {
          if i < 107 {
           Table::row(1477782000, 7200, 0, "IST")
          } else {
           Table::row(1490313600, 7200, 3600, "IDT")
          }
         } else {
          if i < 109 {
           Table::row(1509231600, 7200, 0, "IST")
          } else {
           if i < 110 {
            Table::row(1521763200, 7200, 3600, "IDT")
           } else {
            Table::row(1540681200, 7200, 0, "IST")
           }
          }
         }
        }
       }
      }
     } else {
      if i < 130 {
       if i < 120 {
        if i < 115 {
         if i < 113 {
          if i < 112 {
           Table::row(1553817600, 7200, 3600, "IDT")
          } else {
           Table::row(1572130800, 7200, 0, "IST")
          }
         } else {
          if i < 114 {
           Table::row(1585267200, 7200, 3600, "IDT")
          } else {
           Table::row(1603580400, 7200, 0, "IST")
          }
         }
        } else {
         if i < 117 {
          if i < 116 {
           Table::row(1616716800, 7200, 3600, "IDT")
          } else {
           Table::row(1635634800, 7200, 0, "IST")
          }
         } else {
          if i < 118 {
           Table::row(1648166400, 7200, 3600, "IDT")
          } else {
           if i < 119 {
            Table::row(1667084400, 7200, 0, "IST")
           } else {
            Table::row(1679616000, 7200, 3600, "IDT")
           }
          }
         }
        }
       } else {
        if i < 125 {
         if i < 122 {
          if i < 121 {
           Table::row(1698534000, 7200, 0, "IST")
          } else {
           Table::row(1711670400, 7200, 3600, "IDT")
          }
         } else {
          if i < 123 {
           Table::row(1729983600, 7200, 0, "IST")
          } else {
           if i < 124 {
            Table::row(1743120000, 7200, 3600, "IDT")
           } else {
            Table::row(1761433200, 7200, 0, "IST")
           }
          }
         }
        } else {
         if i < 127 {
          if i < 126 {
           Table::row(1774569600, 7200, 3600, "IDT")
          } else {
           Table::row(1792882800, 7200, 0, "IST")
          }
         } else {
          if i < 128 {
           Table::row(1806019200, 7200, 3600, "IDT")
          } else {
           if i < 129 {
            Table::row(1824937200, 7200, 0, "IST")
           } else {
            Table::row(1837468800, 7200, 3600, "IDT")
           }
          }
         }
        }
       }
      } else {
       if i < 139 {
        if i < 134 {
         if i < 132 {
          if i < 131 {
           Table::row(1856386800, 7200, 0, "IST")
          } else {
           Table::row(1868918400, 7200, 3600, "IDT")
          }
         } else {
          if i < 133 {
           Table::row(1887836400, 7200, 0, "IST")
          } else {
           Table::row(1900972800, 7200, 3600, "IDT")
          }
         }
        } else {
         if i < 136 {
          if i < 135 {
           Table::row(1919286000, 7200, 0, "IST")
          } else {
           Table::row(1932422400, 7200, 3600, "IDT")
          }
         } else {
          if i < 137 {
           Table::row(1950735600, 7200, 0, "IST")
          } else {
           if i < 138 {
            Table::row(1963872000, 7200, 3600, "IDT")
           } else {
            Table::row(1982790000, 7200, 0, "IST")
           }
          }
         }
        }
       } else {
        if i < 144 {
         if i < 141 {
          if i < 140 {
           Table::row(1995321600, 7200, 3600, "IDT")
          } else {
           Table::row(2014239600, 7200, 0, "IST")
          }
         } else {
          if i < 142 {
           Table::row(2026771200, 7200, 3600, "IDT")
          } else {
           if i < 143 {
            Table::row(2045689200, 7200, 0, "IST")
           } else {
            Table::row(2058220800, 7200, 3600, "IDT")
           }
          }
         }
        } else {
         if i < 146 {
          if i < 145 {
           Table::row(2077138800, 7200, 0, "IST")
          } else {
           Table::row(2090275200, 7200, 3600, "IDT")
          }
         } else {
          if i < 147 {
           Table::row(2108588400, 7200, 0, "IST")
          } else {
           if i < 148 {
            Table::row(2121724800, 7200, 3600, "IDT")
           } else {
            Table::row(2140038000, 7200, 0, "IST")
           }
          }
         }
        }
       }
      }
     }
    }
}

/// The rows of the table of the zone `Asia/Jerusalem`.
pub open spec fn jerusalem_rows() -> spec_fn(int) -> (i64, FixedTimespan) {
    |i: int| jerusalem_row(i)
}

/// The table of the zone `Asia/Jerusalem`.
pub open spec fn jerusalem() -> Table {
    Table::listed(Table::row(0, 8454, 0, "LMT").1, 149, jerusalem_rows())
}

/// Row `i` of the table of the zone `Asia/Kabul`.
pub open spec fn kabul_row(i: int) -> (i64, FixedTimespan) {
    if i < 1 {
     Table::row(-2524538208, 14400, 0, "+04")
    } else {
     if i < 2 {
      Table::row(-788932800, 16200, 0, "+0430")
     } else {
      Table::row(2147483647, 16200, 0, "+0430")
     }
    }
}

/// The rows of the table of the zone `Asia/Kabul`.
pub open spec fn kabul_rows() -> spec_fn(int) -> (i64, FixedTimespan) {
    |i: int| kabul_row(i)
}

/// The table of the zone `Asia/Kabul`.
pub open spec fn kabul() -> Table {
    Table::listed(Table::row(0, 16608, 0, "LMT").1, 3, kabul_rows())
}

/// Row `i` of the table of the zone `Asia/Kamchatka`.
pub open spec fn kamchatka_row(i: int) -> (i64, FixedTimespan) {
    if i < 32 {
     if i < 16 {
      if i < 8 {
       if i < 4 {
        if i < 2 {
         if i < 1 {
          Table::row(-1487759676, 39600, 0, "+11")
         } else {
          Table::row(-1247569200, 43200, 0, "+12")
         }
        } else {
         if i < 3 {
          Table::row(354888000, 43200, 3600, "+13")
         } else {
          Table::row(370695600, 43200, 0, "+12")
         }
        }
       } else {
        if i < 6 {
         if i < 5 {
          Table::row(386424000, 43200, 3600, "+13")
         } else {
          Table::row(402231600, 43200, 0, "+12")
         }
        } else {
         if i < 7 {
          Table::row(417960000, 43200, 3600, "+13")
         } else {
          Table::row(433767600, 43200, 0, "+12")
         }
        }
       }
      } else {
       if i < 12 {
        if i < 10 {
         if i < 9 {
          Table::row(449582400, 43200, 3600, "+13")
         } else {
          Table::row(465314400, 43200, 0, "+12")
         }
        } else {
         if i < 11 {
          Table::row(481039200, 43200, 3600, "+13")
         } else {
          Table::row(496764000, 43200, 0, "+12")
         }
        }
       } else {
        if i < 14 {
         if i < 13 {
          Table::row(512488800, 43200, 3600, "+13")
         } else {
          Table::row(528213600, 43200, 0, "+12")
         }
        } else {
         if i < 15 {
          Table::row(543938400, 43200, 3600, "+13")
         } else {
          Table::row(559663200, 43200, 0, "+12")
         }
        }
       }
      }
     } else {
      if i < 24 {
       if i < 20 {
        if i < 18 {
         if i < 17 {
          Table::row(575388000, 43200, 3600, "+13")
         } else {
          Table::row(591112800, 43200, 0, "+12")
         }
        } else {
         if i < 19 {
          Table::row(606837600, 43200, 3600, "+13")
         } else {
          Table::row(622562400, 43200, 0, "+12")
         }
        }
       } else {
        if i < 22 {
         if i < 21 {
          Table::row(638287200, 43200, 3600, "+13")
         } else {
          Table::row(654616800, 43200, 0, "+12")
         }
        } else {
         if i < 23 {
          Table::row(670341600, 39600, 3600, "+12")
         } else {
          Table::row(686070000, 39600, 0, "+11")
         }
        }
       }
      } else {
       if i < 28 {
        if i < 26 {
         if i < 25 {
          Table::row(695746800, 43200, 0, "+12")
         } else {
          Table::row(701791200, 43200, 3600, "+13")
         }
        } else {
         if i < 27 {
          Table::row(717516000, 43200, 0, "+12")
         } else {
          Table::row(733240800, 43200, 3600, "+13")
         }
        }
       } else {
        if i < 30 {
         if i < 29 {
          Table::row(748965600, 43200, 0, "+12")
         } else {
          Table::row(764690400, 43200, 3600, "+13")
         }
        } else {
         if i < 31 {
          Table::row(780415200, 43200, 0, "+12")
         } else {
          Table::row(796140000, 43200, 3600, "+13")
         }
        }
       }
      }
     }
    } else {
     if i < 48 {
      if i < 40 {
       if i < 36 {
        if i < 34 {
         if i < 33 {
          Table::row(811864800, 43200, 0, "+12")
         } else {
          Table::row(828194400, 43200, 3600, "+13")
         }
        } else {
         if i < 35 {
          Table::row(846338400, 43200, 0, "+12")
         } else {
          Table::row(859644000, 43200, 3600, "+13")
         }
        }
       } else {
        if i < 38 {
         if i < 37 {
          Table::row(877788000, 43200, 0, "+12")
         } else {
          Table::row(891093600, 43200, 3600, "+13")
         }
        } else {
         if i < 39 {
          Table::row(909237600, 43200, 0, "+12")
         } else {
          Table::row(922543200, 43200, 3600, "+13")
         }
        }
       }
      } else {
       if i < 44 {
        if i < 42 {
         if i < 41 {
          Table::row(941292000, 43200, 0, "+12")
         } else {
          Table::row(953992800, 43200, 3600, "+13")
         }
        } else {
         if i < 43 {
          Table::row(972741600, 43200, 0, "+12")
         } else {
          Table::row(985442400, 43200, 3600, "+13")
         }
        }
       } else {
        if i < 46 {
         if i < 45 {
          Table::row(1004191200, 43200, 0, "+12")
         } else {
          Table::row(1017496800, 43200, 3600, "+13")
         }
        } else {
         if i < 47 {
          Table::row(1035640800, 43200, 0, "+12")
         } else {
          Table::row(1048946400, 43200, 3600, "+13")
         }
        }
       }
      }
     } else {
      if i < 56 {
       if i < 52 {
        if i < 50 {
         if i < 49 {
          Table::row(1067090400, 43200, 0, "+12")
         } else {
          Table::row(1080396000, 43200, 3600, "+13")
         }
        } else {
         if i < 51 {
          Table::row(1099144800, 43200, 0, "+12")
         } else {
          Table::row(1111845600, 43200, 3600, "+13")
         }
        }
       } else {
        if i < 54 {
         if i < 53 {
          Table::row(1130594400, 43200, 0, "+12")
         } else {
          Table::row(1143295200, 43200, 3600, "+13")
         }
        } else {
         if i < 55 {
          Table::row(1162044000, 43200, 0, "+12")
         } else {
          Table::row(1174744800, 43200, 3600, "+13")
         }
        }
       }
      } else {
       if i < 60 {
        if i < 58 {
         if i < 57 {
          Table::row(1193493600, 43200, 0, "+12")
         } else {
          Table::row(1206799200, 43200, 3600, "+13")
         }
        } else {
         if i < 59 {
          Table::row(1224943200, 43200, 0, "+12")
         } else {
          Table::row(1238248800, 43200, 3600, "+13")
         }
        }
       } else {
        if i < 62 {
         if i < 61 {
          Table::row(1256392800, 43200, 0, "+12")
         } else {
          Table::row(1269698400, 39600, 3600, "+12")
         }
        } else {
         if i < 63 {
          Table::row(1288450800, 39600, 0, "+11")
         } else {
          if i < 64 {
           Table::row(1301151600, 43200, 0, "+12")
          } else {
           Table::row(2147483647, 43200, 0, "+12")
          }
         }
        }
       }
      }
     }
    }
}

/// The rows of the table of the zone `Asia/Kamchatka`.
pub open spec fn kamchatka_rows() -> spec_fn(int) -> (i64, FixedTimespan) {
    |i: int| kamchatka_row(i)
}

/// The table of the zone `Asia/Kamchatka`.
pub open spec fn kamchatka() -> Table {
    Table::listed(Table::row(0, 38076, 0, "LMT").1, 65, kamchatka_rows())
}

/// Row `i` of the table of the zone `Asia/Karachi`.
pub open spec fn karachi_row(i: int) -> (i64, FixedTimespan) {
    if i < 5 {
     if i < 2 {
      if i < 1 {
       Table::row(-1988166492, 19800, 0, "+0530")
      } else {
       Table::row(-862637400, 19800, 3600, "+0630")
      }
     } else {
      if i < 3 {
       Table::row(-764145000, 19800, 0, "+0530")
      } else {
       if i < 4 {
        Table::row(-576135000, 18000, 0, "+05")
       } else {
        Table::row(38775600, 18000, 0, "PKT")
       }
      }
     }
    } else {
     if i < 8 {
      if i < 6 {
       Table::row(1018119600, 18000, 3600, "PKST")
      } else {
       if i < 7 {
        Table::row(1033840800, 18000, 0, "PKT")
       } else {
        Table::row(1212260400, 18000, 3600, "PKST")
       }
      }
     } else {
      if i < 9 {
       Table::row(1225476000, 18000, 0, "PKT")
      } else {
       if i < 10 {
        Table::row(1239735600, 18000, 3600, "PKST")
       } else {
        Table::row(1257012000, 18000, 0, "PKT")
       }
      }
     }
    }
}

/// The rows of the table of the zone `Asia/Karachi`.
pub open spec fn karachi_rows() -> spec_fn(int) -> (i64, FixedTimespan) {
    |i: int| karachi_row(i)
}

/// The table of the zone `Asia/Karachi`.
pub open spec fn karachi() -> Table {
    Table::listed(Table::row(0, 16092, 0, "LMT").1, 11, karachi_rows())
}

/// Row `i` of the table of the zone `Asia/Kashgar`.
pub open spec fn kashgar_row(i: int) -> (i64, FixedTimespan) {
    if i < 1 {
     Table::row(-1325483420, 21600, 0, "+06")
    } else {
     Table::row(2147483647, 21600, 0, "+06")
    }
}

/// The rows of the table of the zone `Asia/Kashgar`.
pub open spec fn kashgar_rows() -> spec_fn(int) -> (i64, FixedTimespan) {
    |i: int| kashgar_row(i)
}

/// The table of the zone `Asia/Kashgar`.
pub open spec fn kashgar() -> Table {
    Table::listed(Table::row(0, 21020, 0, "LMT").1, 2, kashgar_rows())
}

/// Row `i` of the table of the zone `Asia/Kathmandu`.
pub open spec fn kathmandu_row(i: int) -> (i64, FixedTimespan) {
    if i < 1 {
     Table::row(-1577943676, 19800, 0, "+0530")
    } else {
     if i < 2 {
      Table::row(504901800, 20700, 0, "+0545")
     } else {
      Table::row(2147483647, 20700, 0, "+0545")
     }
    }
}

/// The rows of the table of the zone `Asia/Kathmandu`.
pub open spec fn kathmandu_rows() -> spec_fn(int) -> (i64, FixedTimespan) {
    |i: int| kathmandu_row(i)
}

/// The table of the zone `Asia/Kathmandu`.
pub open spec fn kathmandu() -> Table {
    Table::listed(Table::row(0, 20476, 0, "LMT").1, 3, kathmandu_rows())
}

/// Row `i` of the table of the zone `Asia/Katmandu`.
pub open spec fn katmandu_row(i: int) -> (i64, FixedTimespan) {
    if i < 1 {
     Table::row(-1577943676, 19800, 0, "+0530")
    } else {
     if i < 2 {
      Table::row(504901800, 20700, 0, "+0545")
     } else {
      Table::row(2147483647, 20700, 0, "+0545")
     }
    }
}

/// The rows of the table of the zone `Asia/Katmandu`.
pub open spec fn katmandu_rows() -> spec_fn(int) -> (i64, FixedTimespan) {
    |i: int| katmandu_row(i)
}

/// The table of the zone `Asia/Katmandu`.
pub open spec fn katmandu() -> Table {
    Table::listed(Table::row(0, 20476, 0, "LMT").1, 3, katmandu_rows())
}

/// Row `i` of the table of the zone `Asia/Khandyga`.
pub open spec fn khandyga_row(i: int) -> (i64, FixedTimespan) {
    if i < 34 {
     if i < 17 {
      if i < 8 {
       if i < 4 {
        if i < 2 {
         if i < 1 {
          Table::row(-1579424533, 28800, 0, "+08")
         } else {
          Table::row(-1247558400, 32400, 0, "+09")
         }
        } else {
         if i < 3 {
          Table::row(354898800, 32400, 3600, "+10")
         } else {
          Table::row(370706400, 32400, 0, "+09")
         }
        }
       } else {
        if i < 6 {
         if i < 5 {
          Table::row(386434800, 32400, 3600, "+10")
         } else {
          Table::row(402242400, 32400, 0, "+09")
         }
        } else {
         if i < 7 {
          Table::row(417970800, 32400, 3600, "+10")
         } else {
          Table::row(433778400, 32400, 0, "+09")
         }
        }
       }
      } else {
       if i < 12 {
        if i < 10 {
         if i < 9 {
          Table::row(449593200, 32400, 3600, "+10")
         } else {
          Table::row(465325200, 32400, 0, "+09")
         }
        } else {
         if i < 11 {
          Table::row(481050000, 32400, 3600, "+10")
         } else {
          Table::row(496774800, 32400, 0, "+09")
         }
        }
       } else {
        if i < 14 {
         if i < 13 {
          Table::row(512499600, 32400, 3600, "+10")
         } else {
          Table::row(528224400, 32400, 0, "+09")
         }
        } else {
         if i < 15 {
          Table::row(543949200, 32400, 3600, "+10")
         } else {
          if i < 16 {
           Table::row(559674000, 32400, 0, "+09")
          } else {
           Table::row(575398800, 32400, 3600, "+10")
          }
         }
        }
       }
      }
     } else {
      if i < 25 {
       if i < 21 {
        if i < 19 {
         if i < 18 {
          Table::row(591123600, 32400, 0, "+09")
         } else {
          Table::row(606848400, 32400, 3600, "+10")
         }
        } else {
         if i < 20 {
          Table::row(622573200, 32400, 0, "+09")
         } else {
          Table::row(638298000, 32400, 3600, "+10")
         }
        }
       } else {
        if i < 23 {
         if i < 22 {
          Table::row(654627600, 32400, 0, "+09")
         } else {
          Table::row(670352400, 28800, 3600, "+09")
         }
        } else {
         if i < 24 {
          Table::row(686080800, 28800, 0, "+08")
         } else {
          Table::row(695757600, 32400, 0, "+09")
         }
        }
       }
      } else {
       if i < 29 {
        if i < 27 {
         if i < 26 {
          Table::row(701802000, 32400, 3600, "+10")
         } else {
          Table::row(717526800, 32400, 0, "+09")
         }
        } else {
         if i < 28 {
          Table::row(733251600, 32400, 3600, "+10")
         } else {
          Table::row(748976400, 32400, 0, "+09")
         }
        }
       } else {
        if i < 31 {
         if i < 30 {
          Table::row(764701200, 32400, 3600, "+10")
         } else {
          Table::row(780426000, 32400, 0, "+09")
         }
        } else {
         if i < 32 {
          Table::row(796150800, 32400, 3600, "+10")
         } else {
          if i < 33 {
           Table::row(811875600, 32400, 0, "+09")
          } else {
           Table::row(828205200, 32400, 3600, "+10")
          }
         }
        }
       }
      }
     }
    } else {
     if i < 51 {
      if i < 42 {
       if i < 38 {
        if i < 36 {
         if i < 35 {
          Table::row(846349200, 32400, 0, "+09")
         } else {
          Table::row(859654800, 32400, 3600, "+10")
         }
        } else {
         if i < 37 {
          Table::row(877798800, 32400, 0, "+09")
         } else {
          Table::row(891104400, 32400, 3600, "+10")
         }
        }
       } else {
        if i < 40 {
         if i < 39 {
          Table::row(909248400, 32400, 0, "+09")
         } else {
          Table::row(922554000, 32400, 3600, "+10")
         }
        } else {
         if i < 41 {
          Table::row(941302800, 32400, 0, "+09")
         } else {
          Table::row(954003600, 32400, 3600, "+10")
         }
        }
       }
      } else {
       if i < 46 {
        if i < 44 {
         if i < 43 {
          Table::row(972752400, 32400, 0, "+09")
         } else {
          Table::row(985453200, 32400, 3600, "+10")
         }
        } else {
         if i < 45 {
          Table::row(1004202000, 32400, 0, "+09")
         } else {
          Table::row(1017507600, 32400, 3600, "+10")
         }
        }
       } else {
        if i < 48 {
         if i < 47 {
          Table::row(1035651600, 32400, 0, "+09")
         } else {
          Table::row(1048957200, 32400, 3600, "+10")
         }
        } else {
         if i < 49 {
          Table::row(1067101200, 32400, 0, "+09")
         } else {
          if i < 50 {
           Table::row(1072882800, 36000, 0, "+10")
          } else {
           Table::row(1080403200, 36000, 3600, "+11")
          }
         }
        }
       }
      }
     } else {
      if i < 59 {
       if i < 55 {
        if i < 53 {
         if i < 52 {
          Table::row(1099152000, 36000, 0, "+10")
         } else {
          Table::row(1111852800, 36000, 3600, "+11")
         }
        } else {
         if i < 54 {
          Table::row(1130601600, 36000, 0, "+10")
         } else {
          Table::row(1143302400, 36000, 3600, "+11")
         }
        }
       } else {
        if i < 57 {
         if i < 56 {
          Table::row(1162051200, 36000, 0, "+10")
         } else {
          Table::row(1174752000, 36000, 3600, "+11")
         }
        } else {
         if i < 58 {
          Table::row(1193500800, 36000, 0, "+10")
         } else {
          Table::row(1206806400, 36000, 3600, "+11")
         }
        }
       }
      } else {
       if i < 63 {
        if i < 61 {
         if i < 60 {
          Table::row(1224950400, 36000, 0, "+10")
         } else {
          Table::row(1238256000, 36000, 3600, "+11")
         }
        } else {
         if i < 62 {
          Table::row(1256400000, 36000, 0, "+10")
         } else {
          Table::row(1269705600, 36000, 3600, "+11")
         }
        }
       } else {
        if i < 65 {
         if i < 64 {
          Table::row(1288454400, 36000, 0, "+10")
         } else {
          Table::row(1301155200, 39600, 0, "+11")
         }
        } else {
         if i < 66 {
          Table::row(1315832400, 36000, 0, "+10")
         } else {
          if i < 67 {
           Table::row(1414252800, 32400, 0, "+09")
          } else {
           Table::row(2147483647, 32400, 0, "+09")
          }
         }
        }
       }
      }
     }
    }
}

/// The rows of the table of the zone `Asia/Khandyga`.
pub open spec fn khandyga_rows() -> spec_fn(int) -> (i64, FixedTimespan) {
    |i: int| khandyga_row(i)
}

/// The table of the zone `Asia/Khandyga`.
pub open spec fn khandyga() -> Table {
    Table::listed(Table::row(0, 32533, 0, "LMT").1, 68, khandyga_rows())
}

/// Row `i` of the table of the zone `Asia/Kolkata`.
pub open spec fn kolkata_row(i: int) -> (i64, FixedTimespan) {
    if i < 3 {
     if i < 1 {
      Table::row(-3645237208, 21200, 0, "HMT")
     } else {
      if i < 2 {
       Table::row(-3155694800, 19270, 0, "MMT")
      } else {
       Table::row(-2019705670, 19800, 0, "IST")
      }
     }
    } else {
     if i < 5 {
      if i < 4 {
       Table::row(-891581400, 19800, 3600, "+0630")
      } else {
       Table::row(-872058600, 19800, 0, "IST")
      }
     } else {
      if i < 6 {
       Table::row(-862637400, 19800, 3600, "+0630")
      } else {
       Table::row(-764145000, 19800, 0, "IST")
      }
     }
    }
}

/// The rows of the table of the zone `Asia/Kolkata`.
pub open spec fn kolkata_rows() -> spec_fn(int) -> (i64, FixedTimespan) {
    |i: int| kolkata_row(i)
}

/// The table of the zone `Asia/Kolkata`.
pub open spec fn kolkata() -> Table {
    Table::listed(Table::row(0, 21208, 0, "LMT").1, 7, kolkata_rows())
}

/// Row `i` of the table of the zone `Asia/Krasnoyarsk`.
pub open spec fn krasnoyarsk_row(i: int) -> (i64, FixedTimespan) {
    if i < 33 {
     if i < 16 {
      if i < 8 {
       if i < 4 {
        if i < 2 {
         if i < 1 {
          Table::row(-1577513486, 21600, 0, "+06")
         } else {
          Table::row(-1247551200, 25200, 0, "+07")
         }
        } else {
         if i < 3 {
          Table::row(354906000, 25200, 3600, "+08")
         } else {
          Table::row(370713600, 25200, 0, "+07")
         }
        }
       } else {
        if i < 6 {
         if i < 5 {
          Table::row(386442000, 25200, 3600, "+08")
         } else {
          Table::row(402249600, 25200, 0, "+07")
         }
        } else {
         if i < 7 {
          Table::row(417978000, 25200, 3600, "+08")
         } else {
          Table::row(433785600, 25200, 0, "+07")
         }
        }
       }
      } else {
       if i < 12 {
        if i < 10 {
         if i < 9 {
          Table::row(449600400, 25200, 3600, "+08")
         } else {
          Table::row(465332400, 25200, 0, "+07")
         }
        } else {
         if i < 11 {
          Table::row(481057200, 25200, 3600, "+08")
         } else {
          Table::row(496782000, 25200, 0, "+07")
         }
        }
       } else {
        if i < 14 {
         if i < 13 {
          Table::row(512506800, 25200, 3600, "+08")
         } else {
          Table::row(528231600, 25200, 0, "+07")
         }
        } else {
         if i < 15 {
          Table::row(543956400, 25200, 3600, "+08")
         } else {
          Table::row(559681200, 25200, 0, "+07")
         }
        }
       }
      }
     } else {
      if i < 24 {
       if i < 20 {
        if i < 18 {
         if i < 17 {
          Table::row(575406000, 25200, 3600, "+08")
         } else {
          Table::row(591130800, 25200, 0, "+07")
         }
        } else {
         if i < 19 {
          Table::row(606855600, 25200, 3600, "+08")
         } else {
          Table::row(622580400, 25200, 0, "+07")
         }
        }
       } else {
        if i < 22 {
         if i < 21 {
          Table::row(638305200, 25200, 3600, "+08")
         } else {
          Table::row(654634800, 25200, 0, "+07")
         }
        } else {
         if i < 23 {
          Table::row(670359600, 21600, 3600, "+07")
         } else {
          Table::row(686088000, 21600, 0, "+06")
         }
        }
       }
      } else {
       if i < 28 {
        if i < 26 {
         if i < 25 {
          Table::row(695764800, 25200, 0, "+07")
         } else {
          Table::row(701809200, 25200, 3600, "+08")
         }
        } else {
         if i < 27 {
          Table::row(717534000, 25200, 0, "+07")
         } else {
          Table::row(733258800, 25200, 3600, "+08")
         }
        }
       } else {
        if i < 30 {
         if i < 29 {
          Table::row(748983600, 25200, 0, "+07")
         } else {
          Table::row(764708400, 25200, 3600, "+08")
         }
        } else {
         if i < 31 {
          Table::row(780433200, 25200, 0, "+07")
         } else {
          if i < 32 {
           Table::row(796158000, 25200, 3600, "+08")
          } else {
           Table::row(811882800, 25200, 0, "+07")
          }
         }
        }
       }
      }
     }
    } else {
     if i < 49 {
      if i < 41 {
       if i < 37 {
        if i < 35 {
         if i < 34 {
          Table::row(828212400, 25200, 3600, "+08")
         } else {
          Table::row(846356400, 25200, 0, "+07")
         }
        } else {
         if i < 36 {
          Table::row(859662000, 25200, 3600, "+08")
         } else {
          Table::row(877806000, 25200, 0, "+07")
         }
        }
       } else {
        if i < 39 {
         if i < 38 {
          Table::row(891111600, 25200, 3600, "+08")
         } else {
          Table::row(909255600, 25200, 0, "+07")
         }
        } else {
         if i < 40 {
          Table::row(922561200, 25200, 3600, "+08")
         } else {
          Table::row(941310000, 25200, 0, "+07")
         }
        }
       }
      } else {
       if i < 45 {
        if i < 43 {
         if i < 42 {
          Table::row(954010800, 25200, 3600, "+08")
         } else {
          Table::row(972759600, 25200, 0, "+07")
         }
        } else {
         if i < 44 {
          Table::row(985460400, 25200, 3600, "+08")
         } else {
          Table::row(1004209200, 25200, 0, "+07")
         }
        }
       } else {
        if i < 47 {
         if i < 46 {
          Table::row(1017514800, 25200, 3600, "+08")
         } else {
          Table::row(1035658800, 25200, 0, "+07")
         }
        } else {
         if i < 48 {
          Table::row(1048964400, 25200, 3600, "+08")
         } else {
          Table::row(1067108400, 25200, 0, "+07")
         }
        }
       }
      }
     } else {
      if i < 57 {
       if i < 53 {
        if i < 51 {
         if i < 50 {
          Table::row(1080414000, 25200, 3600, "+08")
         } else {
          Table::row(1099162800, 25200, 0, "+07")
         }
        } else {
         if i < 52 {
          Table::row(1111863600, 25200, 3600, "+08")
         } else {
          Table::row(1130612400, 25200, 0, "+07")
         }
        }
       } else {
        if i < 55 {
         if i < 54 {
          Table::row(1143313200, 25200, 3600, "+08")
         } else {
          Table::row(1162062000, 25200, 0, "+07")
         }
        } else {
         if i < 56 {
          Table::row(1174762800, 25200, 3600, "+08")
         } else {
          Table::row(1193511600, 25200, 0, "+07")
         }
        }
       }
      } else {
       if i < 61 {
        if i < 59 {
         if i < 58 {
          Table::row(1206817200, 25200, 3600, "+08")
         } else {
          Table::row(1224961200, 25200, 0, "+07")
         }
        } else {
         if i < 60 {
          Table::row(1238266800, 25200, 3600, "+08")
         } else {
          Table::row(1256410800, 25200, 0, "+07")
         }
        }
       } else {
        if i < 63 {
         if i < 62 {
          Table::row(1269716400, 25200, 3600, "+08")
         } else {
          Table::row(1288465200, 25200, 0, "+07")
         }
        } else {
         if i < 64 {
          Table::row(1301166000, 28800, 0, "+08")
         } else {
          if i < 65 {
           Table::row(1414260000, 25200, 0, "+07")
          } else {
           Table::row(2147483647, 25200, 0, "+07")
          }
         }
        }
       }
      }
     }
    }
}

/// The rows of the table of the zone `Asia/Krasnoyarsk`.
pub open spec fn krasnoyarsk_rows() -> spec_fn(int) -> (i64, FixedTimespan) {
    |i: int| krasnoyarsk_row(i)
}

/// The table of the zone `Asia/Krasnoyarsk`.
pub open spec fn krasnoyarsk() -> Table {
    Table::listed(Table::row(0, 22286, 0, "LMT").1, 66, krasnoyarsk_rows())
}

/// Row `i` of the table of the zone `Asia/Kuala_Lumpur`.
pub open spec fn kuala_lumpur_row(i: int) -> (i64, FixedTimespan) {
    if i < 4 {
     if i < 2 {
      if i < 1 {
       Table::row(-2177477206, 24925, 0, "SMT")
      } else {
       Table::row(-2038200925, 25200, 0, "+07")
      }
     } else {
      if i < 3 {
       Table::row(-1167634800, 25200, 1200, "+0720")
      } else {
       Table::row(-1073028000, 26400, 0, "+0720")
      }
     }
    } else {
     if i < 6 {
      if i < 5 {
       Table::row(-894180000, 27000, 0, "+0730")
      } else {
       Table::row(-879665400, 32400, 0, "+09")
      }
     } else {
      if i < 7 {
       Table::row(-767005200, 27000, 0, "+0730")
      } else {
       if i < 8 {
        Table::row(378662400, 28800, 0, "+08")
       } else {
        Table::row(2147483647, 28800, 0, "+08")
       }
      }
     }
    }
}

/// The rows of the table of the zone `Asia/Kuala_Lumpur`.
pub open spec fn kuala_lumpur_rows() -> spec_fn(int) -> (i64, FixedTimespan) {
    |i: int| kuala_lumpur_row(i)
}

/// The table of the zone `Asia/Kuala_Lumpur`.
pub open spec fn kuala_lumpur() -> Table {
    Table::listed(Table::row(0, 24406, 0, "LMT").1, 9, kuala_lumpur_rows())
}

/// Row `i` of the table of the zone `Asia/Kuching`.
pub open spec fn kuching_row(i: int) -> (i64, FixedTimespan) {
    if i < 9 {
     if i < 4 {
      if i < 2 {
       if i < 1 {
        Table::row(-1383463280, 27000, 0, "+0730")
       } else {
        Table::row(-1167636600, 28800, 0, "+08")
       }
      } else {
       if i < 3 {
        Table::row(-1082448000, 28800, 1200, "+0820")
       } else {
        Table::row(-1074586800, 28800, 0, "+08")
       }
      }
     } else {
      if i < 6 {
       if i < 5 {
        Table::row(-1050825600, 28800, 1200, "+0820")
       } else {
        Table::row(-1042964400, 28800, 0, "+08")
       }
      } else {
       if i < 7 {
        Table::row(-1019289600, 28800, 1200, "+0820")
       } else {
        if i < 8 {
         Table::row(-1011428400, 28800, 0, "+08")
        } else {
         Table::row(-987753600, 28800, 1200, "+0820")
        }
       }
      }
     }
    } else {
     if i < 14 {
      if i < 11 {
       if i < 10 {
        Table::row(-979892400, 28800, 0, "+08")
       } else {
        Table::row(-956217600, 28800, 1200, "+0820")
       }
      } else {
       if i < 12 {
        Table::row(-948356400, 28800, 0, "+08")
       } else {
        if i < 13 {
         Table::row(-924595200, 28800, 1200, "+0820")
        } else {
         Table::row(-916734000, 28800, 0, "+08")
        }
       }
      }
     } else {
      if i < 16 {
       if i < 15 {
        Table::row(-893059200, 28800, 1200, "+0820")
       } else {
        Table::row(-885198000, 28800, 0, "+08")
       }
      } else {
       if i < 17 {
        Table::row(-879667200, 32400, 0, "+09")
       } else {
        if i < 18 {
         Table::row(-767005200, 28800, 0, "+08")
        } else {
         Table::row(2147483647, 28800, 0, "+08")
        }
       }
      }
     }
    }
}

/// The rows of the table of the zone `Asia/Kuching`.
pub open spec fn kuching_rows() -> spec_fn(int) -> (i64, FixedTimespan) {
    |i: int| kuching_row(i)
}

/// The table of the zone `Asia/Kuching`.
pub open spec fn kuching() -> Table {
    Table::listed(Table::row(0, 26480, 0, "LMT").1, 19, kuching_rows())
}

/// Row `i` of the table of the zone `Asia/Kuwait`.
pub open spec fn kuwait_row(i: int) -> (i64, FixedTimespan) {
    if i < 1 {
     Table::row(-631163516, 10800, 0, "+03")
    } else {
     Table::row(2147483647, 10800, 0, "+03")
    }
}

/// The rows of the table of the zone `Asia/Kuwait`.
pub open spec fn kuwait_rows() -> spec_fn(int) -> (i64, FixedTimespan) {
    |i: int| kuwait_row(i)
}

/// The table of the zone `Asia/Kuwait`.
pub open spec fn kuwait() -> Table {
    Table::listed(Table::row(0, 11516, 0, "LMT").1, 2, kuwait_rows())
}

/// Row `i` of the table of the zone `Asia/Macao`.
pub open spec fn macao_row(i: int) -> (i64, FixedTimespan) {
    if i < 35 {
     if i < 17 {
      if i < 8 {
       if i < 4 {
        if i < 2 {
         if i < 1 {
          Table::row(-2056692850, 28800, 0, "CST")
         } else {
          Table::row(-884509200, 32400, 0, "+09")
         }
        } else {
         if i < 3 {
          Table::row(-873280800, 32400, 3600, "+10")
         } else {
          Table::row(-855918000, 32400, 0, "+09")
         }
        }
       } else {
        if i < 6 {
         if i < 5 {
          Table::row(-841744800, 32400, 3600, "+10")
         } else {
          Table::row(-828529200, 32400, 0, "+09")
         }
        } else {
         if i < 7 {
          Table::row(-765363600, 28800, 0, "CST")
         } else {
          Table::row(-747046800, 28800, 3600, "CDT")
         }
        }
       }
      } else {
       if i < 12 {
        if i < 10 {
         if i < 9 {
          Table::row(-733827600, 28800, 0, "CST")
         } else {
          Table::row(-716461200, 28800, 3600, "CDT")
         }
        } else {
         if i < 11 {
          Table::row(-697021200, 28800, 0, "CST")
         } else {
          Table::row(-683715600, 28800, 3600, "CDT")
         }
        }
       } else {
        if i < 14 {
         if i < 13 {
          Table::row(-667990800, 28800, 0, "CST")
         } else {
          Table::row(-654771600, 28800, 3600, "CDT")
         }
        } else {
         if i < 15 {
          Table::row(-636627600, 28800, 0, "CST")
         } else {
          if i < 16 {
           Table::row(-623322000, 28800, 3600, "CDT")
          } else {
           Table::row(-605178000, 28800, 0, "CST")
          }
         }
        }
       }
      }
     } else {
      if i < 26 {
       if i < 21 {
        if i < 19 {
         if i < 18 {
          Table::row(-591872400, 28800, 3600, "CDT")
         } else {
          Table::row(-573642000, 28800, 0, "CST")
         }
        } else {
         if i < 20 {
          Table::row(-559818000, 28800, 3600, "CDT")
         } else {
          Table::row(-541674000, 28800, 0, "CST")
         }
        }
       } else {
        if i < 23 {
         if i < 22 {
          Table::row(-528368400, 28800, 3600, "CDT")
         } else {
          Table::row(-510224400, 28800, 0, "CST")
         }
        } else {
         if i < 24 {
          Table::row(-498128400, 28800, 3600, "CDT")
         } else {
          if i < 25 {
           Table::row(-478774800, 28800, 0, "CST")
          } else {
           Table::row(-466678800, 28800, 3600, "CDT")
          }
         }
        }
       }
      } else {
       if i < 30 {
        if i < 28 {
         if i < 27 {
          Table::row(-446720400, 28800, 0, "CST")
         } else {
          Table::row(-435229200, 28800, 3600, "CDT")
         }
        } else {
         if i < 29 {
          Table::row(-415258200, 28800, 0, "CST")
         } else {
          Table::row(-403158600, 28800, 3600, "CDT")
         }
        }
       } else {
        if i < 32 {
         if i < 31 {
          Table::row(-383808600, 28800, 0, "CST")
         } else {
          Table::row(-371709000, 28800, 3600, "CDT")
         }
        } else {
         if i < 33 {
          Table::row(-352359000, 28800, 0, "CST")
         } else {
          if i < 34 {
           Table::row(-340259400, 28800, 3600, "CDT")
          } else {
           Table::row(-320909400, 28800, 0, "CST")
          }
         }
        }
       }
      }
     }
    } else {
     if i < 53 {
      if i < 44 {
       if i < 39 {
        if i < 37 {
         if i < 36 {
          Table::row(-308809800, 28800, 3600, "CDT")
         } else {
          Table::row(-288855000, 28800, 0, "CST")
         }
        } else {
         if i < 38 {
          Table::row(-277360200, 28800, 3600, "CDT")
         } else {
          Table::row(-257405400, 28800, 0, "CST")
         }
        }
       } else {
        if i < 41 {
         if i < 40 {
          Table::row(-245910600, 28800, 3600, "CDT")
         } else {
          Table::row(-225955800, 28800, 0, "CST")
         }
        } else {
         if i < 42 {
          Table::row(-213856200, 28800, 3600, "CDT")
         } else {
          if i < 43 {
           Table::row(-194506200, 28800, 0, "CST")
          } else {
           Table::row(-182406600, 28800, 3600, "CDT")
          }
         }
        }
       }
      } else {
       if i < 48 {
        if i < 46 {
         if i < 45 {
          Table::row(-163056600, 28800, 0, "CST")
         } else {
          Table::row(-148537800, 28800, 3600, "CDT")
         }
        } else {
         if i < 47 {
          Table::row(-132820200, 28800, 0, "CST")
         } else {
          Table::row(-117088200, 28800, 3600, "CDT")
         }
        }
       } else {
        if i < 50 {
         if i < 49 {
          Table::row(-101370600, 28800, 0, "CST")
         } else {
          Table::row(-85638600, 28800, 3600, "CDT")
         }
        } else {
         if i < 51 {
          Table::row(-69312600, 28800, 0, "CST")
         } else {
          if i < 52 {
           Table::row(-53584200, 28800, 3600, "CDT")
          } else {
           Table::row(-37863000, 28800, 0, "CST")
          }
         }
        }
       }
      }
     } else {
      if i < 62 {
       if i < 57 {
        if i < 55 {
         if i < 54 {
          Table::row(-22134600, 28800, 3600, "CDT")
         } else {
          Table::row(-6413400, 28800, 0, "CST")
         }
        } else {
         if i < 56 {
          Table::row(9315000, 28800, 3600, "CDT")
         } else {
          Table::row(25036200, 28800, 0, "CST")
         }
        }
       } else {
        if i < 59 {
         if i < 58 {
          Table::row(40764600, 28800, 3600, "CDT")
         } else {
          Table::row(56485800, 28800, 0, "CST")
         }
        } else {
         if i < 60 {
          Table::row(72214200, 28800, 3600, "CDT")
         } else {
          if i < 61 {
           Table::row(88540200, 28800, 0, "CST")
          } else {
           Table::row(104268600, 28800, 3600, "CDT")
          }
         }
        }
       }
      } else {
       if i < 66 {
        if i < 64 {
         if i < 63 {
          Table::row(119989800, 28800, 0, "CST")
         } else {
          Table::row(126041400, 28800, 3600, "CDT")
         }
        } else {
         if i < 65 {
          Table::row(151439400, 28800, 0, "CST")
         } else {
          Table::row(167167800, 28800, 3600, "CDT")
         }
        }
       } else {
        if i < 68 {
         if i < 67 {
          Table::row(182889000, 28800, 0, "CST")
         } else {
          Table::row(198617400, 28800, 3600, "CDT")
         }
        } else {
         if i < 69 {
          Table::row(214338600, 28800, 0, "CST")
         } else {
          if i < 70 {
           Table::row(295385400, 28800, 3600, "CDT")
          } else {
           Table::row(309292200, 28800, 0, "CST")
          }
         }
        }
       }
      }
     }
    }
}

/// The rows of the table of the zone `Asia/Macao`.
pub open spec fn macao_rows() -> spec_fn(int) -> (i64, FixedTimespan) {
    |i: int| macao_row(i)
}

/// The table of the zone `Asia/Macao`.
pub open spec fn macao() -> Table {
    Table::listed(Table::row(0, 27250, 0, "LMT").1, 71, macao_rows())
}

/// Row `i` of the table of the zone `Asia/Macau`.
pub open spec fn macau_row(i: int) -> (i64, FixedTimespan) {
    if i < 35 {
     if i < 17 {
      if i < 8 {
       if i < 4 {
        if i < 2 {
         if i < 1 {
          Table::row(-2056692850, 28800, 0, "CST")
         } else {
          Table::row(-884509200, 32400, 0, "+09")
         }
        } else {
         if i < 3 {
          Table::row(-873280800, 32400, 3600, "+10")
         } else {
          Table::row(-855918000, 32400, 0, "+09")
         }
        }
       } else {
        if i < 6 {
         if i < 5 {
          Table::row(-841744800, 32400, 3600, "+10")
         } else {
          Table::row(-828529200, 32400, 0, "+09")
         }
        } else {
         if i < 7 {
          Table::row(-765363600, 28800, 0, "CST")
         } else {
          Table::row(-747046800, 28800, 3600, "CDT")
         }
        }
       }
      } else {
       if i < 12 {
        if i < 10 {
         if i < 9 {
          Table::row(-733827600, 28800, 0, "CST")
         } else {
          Table::row(-716461200, 28800, 3600, "CDT")
         }
        } else {
         if i < 11 {
          Table::row(-697021200, 28800, 0, "CST")
         } else {
          Table::row(-683715600, 28800, 3600, "CDT")
         }
        }
       } else {
        if i < 14 {
         if i < 13 {
          Table::row(-667990800, 28800, 0, "CST")
         } else {
          Table::row(-654771600, 28800, 3600, "CDT")
         }
        } else {
         if i < 15 {
          Table::row(-636627600, 28800, 0, "CST")
         } else {
          if i < 16 {
           Table::row(-623322000, 28800, 3600, "CDT")
          } else {
           Table::row(-605178000, 28800, 0, "CST")
          }
         }
        }
       }
      }
     } else {
      if i < 26 {
       if i < 21 {
        if i < 19 {
         if i < 18 {
          Table::row(-591872400, 28800, 3600, "CDT")
         } else {
          Table::row(-573642000, 28800, 0, "CST")
         }
        } else {
         if i < 20 {
          Table::row(-559818000, 28800, 3600, "CDT")
         } else {
          Table::row(-541674000, 28800, 0, "CST")
         }
        }
       } else {
        if i < 23 {
         if i < 22 {
          Table::row(-528368400, 28800, 3600, "CDT")
         } else {
          Table::row(-510224400, 28800, 0, "CST")
         }
        } else {
         if i < 24 {
          Table::row(-498128400, 28800, 3600, "CDT")
         } else {
          if i < 25 {
           Table::row(-478774800, 28800, 0, "CST")
          } else {
           Table::row(-466678800, 28800, 3600, "CDT")
          }
         }
        }
       }
      } else {
       if i < 30 {
        if i < 28 {
         if i < 27 {
          Table::row(-446720400, 28800, 0, "CST")
         } else {
          Table::row(-435229200, 28800, 3600, "CDT")
         }
        } else {
         if i < 29 {
          Table::row(-415258200, 28800, 0, "CST")
         } else {
          Table::row(-403158600, 28800, 3600, "CDT")
         }
        }
       } else {
        if i < 32 {
         if i < 31 {
          Table::row(-383808600, 28800, 0, "CST")
         } else {
          Table::row(-371709000, 28800, 3600, "CDT")
         }
        } else {
         if i < 33 {
          Table::row(-352359000, 28800, 0, "CST")
         } else {
          if i < 34 {
           Table::row(-340259400, 28800, 3600, "CDT")
          } else {
           Table::row(-320909400, 28800, 0, "CST")
          }
         }
        }
       }
      }
     }
    } else {
     if i < 53 {
      if i < 44 {
       if i < 39 {
        if i < 37 {
         if i < 36 {
          Table::row(-308809800, 28800, 3600, "CDT")
         } else {
          Table::row(-288855000, 28800, 0, "CST")
         }
        } else {
         if i < 38 {
          Table::row(-277360200, 28800, 3600, "CDT")
         } else {
          Table::row(-257405400, 28800, 0, "CST")
         }
        }
       } else {
        if i < 41 {
         if i < 40 {
          Table::row(-245910600, 28800, 3600, "CDT")
         } else {
          Table::row(-225955800, 28800, 0, "CST")
         }
        } else {
         if i < 42 {
          Table::row(-213856200, 28800, 3600, "CDT")
         } else {
          if i < 43 {
           Table::row(-194506200, 28800, 0, "CST")
          } else {
           Table::row(-182406600, 28800, 3600, "CDT")
          }
         }
        }
       }
      } else {
       if i < 48 {
        if i < 46 {
         if i < 45 {
          Table::row(-163056600, 28800, 0, "CST")
         } else {
          Table::row(-148537800, 28800, 3600, "CDT")
         }
        } else {
         if i < 47 {
          Table::row(-132820200, 28800, 0, "CST")
         } else {
          Table::row(-117088200, 28800, 3600, "CDT")
         }
        }
       } else {
        if i < 50 {
         if i < 49 {
          Table::row(-101370600, 28800, 0, "CST")
         } else {
          Table::row(-85638600, 28800, 3600, "CDT")
         }
        } else {
         if i < 51 {
          Table::row(-69312600, 28800, 0, "CST")
         } else {
          if i < 52 {
           Table::row(-53584200, 28800, 3600, "CDT")
          } else {
           Table::row(-37863000, 28800, 0, "CST")
          }
         }
        }
       }
      }
     } else {
      if i < 62 {
       if i < 57 {
        if i < 55 {
         if i < 54 {
          Table::row(-22134600, 28800, 3600, "CDT")
         } else {
          Table::row(-6413400, 28800, 0, "CST")
         }
        } else {
         if i < 56 {
          Table::row(9315000, 28800, 3600, "CDT")
         } else {
          Table::row(25036200, 28800, 0, "CST")
         }
        }
       } else {
        if i < 59 {
         if i < 58 {
          Table::row(40764600, 28800, 3600, "CDT")
         } else {
          Table::row(56485800, 28800, 0, "CST")
         }
        } else {
         if i < 60 {
          Table::row(72214200, 28800, 3600, "CDT")
         } else {
          if i < 61 {
           Table::row(88540200, 28800, 0, "CST")
          } else {
           Table::row(104268600, 28800, 3600, "CDT")
          }
         }
        }
       }
      } else {
       if i < 66 {
        if i < 64 {
         if i < 63 {
          Table::row(119989800, 28800, 0, "CST")
         } else {
          Table::row(126041400, 28800, 3600, "CDT")
         }
        } else {
         if i < 65 {
          Table::row(151439400, 28800, 0, "CST")
         } else {
          Table::row(167167800, 28800, 3600, "CDT")
         }
        }
       } else {
        if i < 68 {
         if i < 67 {
          Table::row(182889000, 28800, 0, "CST")
         } else {
          Table::row(198617400, 28800, 3600, "CDT")
         }
        } else {
         if i < 69 {
          Table::row(214338600, 28800, 0, "CST")
         } else {
          if i < 70 {
           Table::row(295385400, 28800, 3600, "CDT")
          } else {
           Table::row(309292200, 28800, 0, "CST")
          }
         }
        }
       }
      }
     }
    }
}

/// The rows of the table of the zone `Asia/Macau`.
pub open spec fn macau_rows() -> spec_fn(int) -> (i64, FixedTimespan) {
    |i: int| macau_row(i)
}

/// The table of the zone `Asia/Macau`.
pub open spec fn macau() -> Table {
    Table::listed(Table::row(0, 27250, 0, "LMT").1, 71, macau_rows())
}

/// Row `i` of the table of the zone `Asia/Magadan`.
pub open spec fn magadan_row(i: int) -> (i64, FixedTimespan) {
    if i < 33 {
     if i < 16 {
      if i < 8 {
       if i < 4 {
        if i < 2 {
         if i < 1 {
          Table::row(-1441188192, 36000, 0, "+10")
         } else {
          Table::row(-1247565600, 39600, 0, "+11")
         }
        } else {
         if i < 3 {
          Table::row(354891600, 39600, 3600, "+12")
         } else {
          Table::row(370699200, 39600, 0, "+11")
         }
        }
       } else {
        if i < 6 {
         if i < 5 {
          Table::row(386427600, 39600, 3600, "+12")
         } else {
          Table::row(402235200, 39600, 0, "+11")
         }
        } else {
         if i < 7 {
          Table::row(417963600, 39600, 3600, "+12")
         } else {
          Table::row(433771200, 39600, 0, "+11")
         }
        }
       }
      } else {
       if i < 12 {
        if i < 10 {
         if i < 9 {
          Table::row(449586000, 39600, 3600, "+12")
         } else {
          Table::row(465318000, 39600, 0, "+11")
         }
        } else {
         if i < 11 {
          Table::row(481042800, 39600, 3600, "+12")
         } else {
          Table::row(496767600, 39600, 0, "+11")
         }
        }
       } else {
        if i < 14 {
         if i < 13 {
          Table::row(512492400, 39600, 3600, "+12")
         } else {
          Table::row(528217200, 39600, 0, "+11")
         }
        } else {
         if i < 15 {
          Table::row(543942000, 39600, 3600, "+12")
         } else {
          Table::row(559666800, 39600, 0, "+11")
         }
        }
       }
      }
     } else {
      if i < 24 {
       if i < 20 {
        if i < 18 {
         if i < 17 {
          Table::row(575391600, 39600, 3600, "+12")
         } else {
          Table::row(591116400, 39600, 0, "+11")
         }
        } else {
         if i < 19 {
          Table::row(606841200, 39600, 3600, "+12")
         } else {
          Table::row(622566000, 39600, 0, "+11")
         }
        }
       } else {
        if i < 22 {
         if i < 21 {
          Table::row(638290800, 39600, 3600, "+12")
         } else {
          Table::row(654620400, 39600, 0, "+11")
         }
        } else {
         if i < 23 {
          Table::row(670345200, 36000, 3600, "+11")
         } else {
          Table::row(686073600, 36000, 0, "+10")
         }
        }
       }
      } else {
       if i < 28 {
        if i < 26 {
         if i < 25 {
          Table::row(695750400, 39600, 0, "+11")
         } else {
          Table::row(701794800, 39600, 3600, "+12")
         }
        } else {
         if i < 27 {
          Table::row(717519600, 39600, 0, "+11")
         } else {
          Table::row(733244400, 39600, 3600, "+12")
         }
        }
       } else {
        if i < 30 {
         if i < 29 {
          Table::row(748969200, 39600, 0, "+11")
         } else {
          Table::row(764694000, 39600, 3600, "+12")
         }
        } else {
         if i < 31 {
          Table::row(780418800, 39600, 0, "+11")
         } else {
          if i < 32 {
           Table::row(796143600, 39600, 3600, "+12")
          } else {
           Table::row(811868400, 39600, 0, "+11")
          }
         }
        }
       }
      }
     }
    } else {
     if i < 50 {
      if i < 41 {
       if i < 37 {
        if i < 35 {
         if i < 34 {
          Table::row(828198000, 39600, 3600, "+12")
         } else {
          Table::row(846342000, 39600, 0, "+11")
         }
        } else {
         if i < 36 {
          Table::row(859647600, 39600, 3600, "+12")
         } else {
          Table::row(877791600, 39600, 0, "+11")
         }
        }
       } else {
        if i < 39 {
         if i < 38 {
          Table::row(891097200, 39600, 3600, "+12")
         } else {
          Table::row(909241200, 39600, 0, "+11")
         }
        } else {
         if i < 40 {
          Table::row(922546800, 39600, 3600, "+12")
         } else {
          Table::row(941295600, 39600, 0, "+11")
         }
        }
       }
      } else {
       if i < 45 {
        if i < 43 {
         if i < 42 {
          Table::row(953996400, 39600, 3600, "+12")
         } else {
          Table::row(972745200, 39600, 0, "+11")
         }
        } else {
         if i < 44 {
          Table::row(985446000, 39600, 3600, "+12")
         } else {
          Table::row(1004194800, 39600, 0, "+11")
         }
        }
       } else {
        if i < 47 {
         if i < 46 {
          Table::row(1017500400, 39600, 3600, "+12")
         } else {
          Table::row(1035644400, 39600, 0, "+11")
         }
        } else {
         if i < 48 {
          Table::row(1048950000, 39600, 3600, "+12")
         } else {
          if i < 49 {
           Table::row(1067094000, 39600, 0, "+11")
          } else {
           Table::row(1080399600, 39600, 3600, "+12")
          }
         }
        }
       }
      }
     } else {
      if i < 58 {
       if i < 54 {
        if i < 52 {
         if i < 51 {
          Table::row(1099148400, 39600, 0, "+11")
         } else {
          Table::row(1111849200, 39600, 3600, "+12")
         }
        } else {
         if i < 53 {
          Table::row(1130598000, 39600, 0, "+11")
         } else {
          Table::row(1143298800, 39600, 3600, "+12")
         }
        }
       } else {
        if i < 56 {
         if i < 55 {
          Table::row(1162047600, 39600, 0, "+11")
         } else {
          Table::row(1174748400, 39600, 3600, "+12")
         }
        } else {
         if i < 57 {
          Table::row(1193497200, 39600, 0, "+11")
         } else {
          Table::row(1206802800, 39600, 3600, "+12")
         }
        }
       }
      } else {
       if i < 62 {
        if i < 60 {
         if i < 59 {
          Table::row(1224946800, 39600, 0, "+11")
         } else {
          Table::row(1238252400, 39600, 3600, "+12")
         }
        } else {
         if i < 61 {
          Table::row(1256396400, 39600, 0, "+11")
         } else {
          Table::row(1269702000, 39600, 3600, "+12")
         }
        }
       } else {
        if i < 64 {
         if i < 63 {
          Table::row(1288450800, 39600, 0, "+11")
         } else {
          Table::row(1301151600, 43200, 0, "+12")
         }
        } else {
         if i < 65 {
          Table::row(1414245600, 36000, 0, "+10")
         } else {
          if i < 66 {
           Table::row(1461427200, 39600, 0, "+11")
          } else {
           Table::row(2147483647, 39600, 0, "+11")
          }
         }
        }
       }
      }
     }
    }
}

/// The rows of the table of the zone `Asia/Magadan`.
pub open spec fn magadan_rows() -> spec_fn(int) -> (i64, FixedTimespan) {
    |i: int| magadan_row(i)
}

/// The table of the zone `Asia/Magadan`.
pub open spec fn magadan() -> Table {
    Table::listed(Table::row(0, 36192, 0, "LMT").1, 67, magadan_rows())
}

/// Row `i` of the table of the zone `Asia/Makassar`.
pub open spec fn makassar_row(i: int) -> (i64, FixedTimespan) {
    if i < 2 {
     if i < 1 {
      Table::row(-1577951856, 28656, 0, "MMT")
     } else {
      Table::row(-1172908656, 28800, 0, "+08")
     }
    } else {
     if i < 3 {
      Table::row(-880272000, 32400, 0, "+09")
     } else {
      Table::row(-766054800, 28800, 0, "WITA")
     }
    }
}

/// The rows of the table of the zone `Asia/Makassar`.
pub open spec fn makassar_rows() -> spec_fn(int) -> (i64, FixedTimespan) {
    |i: int| makassar_row(i)
}

/// The table of the zone `Asia/Makassar`.
pub open spec fn makassar() -> Table {
    Table::listed(Table::row(0, 28656, 0, "LMT").1, 4, makassar_rows())
}

/// Row `i` of the table of the zone `Asia/Manila`.
pub open spec fn manila_row(i: int) -> (i64, FixedTimespan) {
    if i < 7 {
     if i < 3 {
      if i < 1 {
       Table::row(-3944621032, 29032, 0, "LMT")
      } else {
       if i < 2 {
        Table::row(-2219083200, 28800, 0, "PST")
       } else {
        Table::row(-1046678400, 28800, 3600, "PDT")
       }
      }
     } else {
      if i < 5 {
       if i < 4 {
        Table::row(-1040115600, 28800, 0, "PST")
       } else {
        Table::row(-885024000, 28800, 3600, "PDT")
       }
      } else {
       if i < 6 {
        Table::row(-880016400, 32400, 0, "JST")
       } else {
        Table::row(-783594000, 28800, 3600, "PDT")
       }
      }
     }
    } else {
     if i < 10 {
      if i < 8 {
       Table::row(-760093200, 28800, 0, "PST")
      } else {
       if i < 9 {
        Table::row(-496224000, 28800, 3600, "PDT")
       } else {
        Table::row(-491562000, 28800, 0, "PST")
       }
      }
     } else {
      if i < 12 {
       if i < 11 {
        Table::row(228326400, 28800, 3600, "PDT")
       } else {
        Table::row(243702000, 28800, 0, "PST")
       }
      } else {
       if i < 13 {
        Table::row(643219200, 28800, 3600, "PDT")
       } else {
        Table::row(649177200, 28800, 0, "PST")
       }
      }
     }
    }
}

/// The rows of the table of the zone `Asia/Manila`.
pub open spec fn manila_rows() -> spec_fn(int) -> (i64, FixedTimespan) {
    |i: int| manila_row(i)
}

/// The table of the zone `Asia/Manila`.
pub open spec fn manila() -> Table {
    Table::listed(Table::row(0, -57368, 0, "LMT").1, 14, manila_rows())
}

/// Row `i` of the table of the zone `Asia/Muscat`.
pub open spec fn muscat_row(i: int) -> (i64, FixedTimespan) {
    if i < 1 {
     Table::row(-1577937264, 14400, 0, "+04")
    } else {
     Table::row(2147483647, 14400, 0, "+04")
    }
}

/// The rows of the table of the zone `Asia/Muscat`.
pub open spec fn muscat_rows() -> spec_fn(int) -> (i64, FixedTimespan) {
    |i: int| muscat_row(i)
}

/// The table of the zone `Asia/Muscat`.
pub open spec fn muscat() -> Table {
    Table::listed(Table::row(0, 14064, 0, "LMT").1, 2, muscat_rows())
}

/// Row `i` of the table of the zone `Asia/Nicosia`.
pub open spec fn nicosia_row(i: int) -> (i64, FixedTimespan) {
    if i < 63 {
     if i < 31 {
      if i < 15 {
       if i < 7 {
        if i < 3 {
         if i < 1 {
          Table::row(-1518920008, 7200, 0, "EET")
         } else {
          if i < 2 {
           Table::row(166572000, 7200, 3600, "EEST")
          } else {
           Table::row(182293200, 7200, 0, "EET")
          }
         }
        } else {
         if i < 5 {
          if i < 4 {
           Table::row(200959200, 7200, 3600, "EEST")
          } else {
           Table::row(213829200, 7200, 0, "EET")
          }
         } else {
          if i < 6 {
           Table::row(228866400, 7200, 3600, "EEST")
          } else {
           Table::row(243982800, 7200, 0, "EET")
          }
         }
        }
       } else {
        if i < 11 {
         if i < 9 {
          if i < 8 {
           Table::row(260316000, 7200, 3600, "EEST")
          } else {
           Table::row(276123600, 7200, 0, "EET")
          }
         } else {
          if i < 10 {
           Table::row(291765600, 7200, 3600, "EEST")
          } else {
           Table::row(307486800, 7200, 0, "EET")
          }
         }
        } else {
         if i < 13 {
          if i < 12 {
           Table::row(323820000, 7200, 3600, "EEST")
          } else {
           Table::row(338936400, 7200, 0, "EET")
          }
         } else {
          if i < 14 {
           Table::row(354664800, 7200, 3600, "EEST")
          } else {
           Table::row(370386000, 7200, 0, "EET")
          }
         }
        }
       }
      } else {
       if i < 23 {
        if i < 19 {
         if i < 17 {
          if i < 16 {
           Table::row(386114400, 7200, 3600, "EEST")
          } else {
           Table::row(401835600, 7200, 0, "EET")
          }
         } else {
          if i < 18 {
           Table::row(417564000, 7200, 3600, "EEST")
          } else {
           Table::row(433285200, 7200, 0, "EET")
          }
         }
        } else {
         if i < 21 {
          if i < 20 {
           Table::row(449013600, 7200, 3600, "EEST")
          } else {
           Table::row(465339600, 7200, 0, "EET")
          }
         } else {
          if i < 22 {
           Table::row(481068000, 7200, 3600, "EEST")
          } else {
           Table::row(496789200, 7200, 0, "EET")
          }
         }
        }
       } else {
        if i < 27 {
         if i < 25 {
          if i < 24 {
           Table::row(512517600, 7200, 3600, "EEST")
          } else {
           Table::row(528238800, 7200, 0, "EET")
          }
         } else {
          if i < 26 {
           Table::row(543967200, 7200, 3600, "EEST")
          } else {
           Table::row(559688400, 7200, 0, "EET")
          }
         }
        } else {
         if i < 29 {
          if i < 28 {
           Table::row(575416800, 7200, 3600, "EEST")
          } else {
           Table::row(591138000, 7200, 0, "EET")
          }
         } else {
          if i < 30 {
           Table::row(606866400, 7200, 3600, "EEST")
          } else {
           Table::row(622587600, 7200, 0, "EET")
          }
         }
        }
       }
      }
     } else {
      if i < 47 {
       if i < 39 {
        if i < 35 {
         if i < 33 {
          if i < 32 {
           Table::row(638316000, 7200, 3600, "EEST")
          } else {
           Table::row(654642000, 7200, 0, "EET")
          }
         } else {
          if i < 34 {
           Table::row(670370400, 7200, 3600, "EEST")
          } else {
           Table::row(686091600, 7200, 0, "EET")
          }
         }
        } else {
         if i < 37 {
          if i < 36 {
           Table::row(701820000, 7200, 3600, "EEST")
          } else {
           Table::row(717541200, 7200, 0, "EET")
          }
         } else {
          if i < 38 {
           Table::row(733269600, 7200, 3600, "EEST")
          } else {
           Table::row(748990800, 7200, 0, "EET")
          }
         }
        }
       } else {
        if i < 43 {
         if i < 41 {
          if i < 40 {
           Table::row(764719200, 7200, 3600, "EEST")
          } else {
           Table::row(780440400, 7200, 0, "EET")
          }
         } else {
          if i < 42 {
           Table::row(796168800, 7200, 3600, "EEST")
          } else {
           Table::row(811890000, 7200, 0, "EET")
          }
         }
        } else {
         if i < 45 {
          if i < 44 {
           Table::row(828223200, 7200, 3600, "EEST")
          } else {
           Table::row(843944400, 7200, 0, "EET")
          }
         } else {
          if i < 46 {
           Table::row(859672800, 7200, 3600, "EEST")
          } else {
           Table::row(875394000, 7200, 0, "EET")
          }
         }
        }
       }
      } else {
       if i < 55 {
        if i < 51 {
         if i < 49 {
          if i < 48 {
           Table::row(891122400, 7200, 3600, "EEST")
          } else {
           Table::row(909277200, 7200, 0, "EET")
          }
         } else {
          if i < 50 {
           Table::row(922582800, 7200, 3600, "EEST")
          } else {
           Table::row(941331600, 7200, 0, "EET")
          }
         }
        } else {
         if i < 53 {
          if i < 52 {
           Table::row(954032400, 7200, 3600, "EEST")
          } else {
           Table::row(972781200, 7200, 0, "EET")
          }
         } else {
          if i < 54 {
           Table::row(985482000, 7200, 3600, "EEST")
          } else {
           Table::row(1004230800, 7200, 0, "EET")
          }
         }
        }
       } else {
        if i < 59 {
         if i < 57 {
          if i < 56 {
           Table::row(1017536400, 7200, 3600, "EEST")
          } else {
           Table::row(1035680400, 7200, 0, "EET")
          }
         } else {
          if i < 58 {
           Table::row(1048986000, 7200, 3600, "EEST")
          } else {
           Table::row(1067130000, 7200, 0, "EET")
          }
         }
        } else {
         if i < 61 {
          if i < 60 {
           Table::row(1080435600, 7200, 3600, "EEST")
          } else {
           Table::row(1099184400, 7200, 0, "EET")
          }
         } else {
          if i < 62 {
           Table::row(1111885200, 7200, 3600, "EEST")
          } else {
           Table::row(1130634000, 7200, 0, "EET")
          }
         }
        }
       }
      }
     }
    } else {
     if i < 95 {
      if i < 79 {
       if i < 71 {
        if i < 67 {
         if i < 65 {
          if i < 64 {
           Table::row(1143334800, 7200, 3600, "EEST")
          } else {
           Table::row(1162083600, 7200, 0, "EET")
          }
         } else {
          if i < 66 {
           Table::row(1174784400, 7200, 3600, "EEST")
          } else {
           Table::row(1193533200, 7200, 0, "EET")
          }
         }
        } else {
         if i < 69 {
          if i < 68 {
           Table::row(1206838800, 7200, 3600, "EEST")
          } else {
           Table::row(1224982800, 7200, 0, "EET")
          }
         } else {
          if i < 70 {
           Table::row(1238288400, 7200, 3600, "EEST")
          } else {
           Table::row(1256432400, 7200, 0, "EET")
          }
         }
        }
       } else {
        if i < 75 {
         if i < 73 {
          if i < 72 {
           Table::row(1269738000, 7200, 3600, "EEST")
          } else {
           Table::row(1288486800, 7200, 0, "EET")
          }
         } else {
          if i < 74 {
           Table::row(1301187600, 7200, 3600, "EEST")
          } else {
           Table::row(1319936400, 7200, 0, "EET")
          }
         }
        } else {
         if i < 77 {
          if i < 76 {
           Table::row(1332637200, 7200, 3600, "EEST")
          } else {
           Table::row(1351386000, 7200, 0, "EET")
          }
         } else {
          if i < 78 {
           Table::row(1364691600, 7200, 3600, "EEST")
          } else {
           Table::row(1382835600, 7200, 0, "EET")
          }
         }
        }
       }
      } else {
       if i < 87 {
        if i < 83 {
         if i < 81 {
          if i < 80 {
           Table::row(1396141200, 7200, 3600, "EEST")
          } else {
           Table::row(1414285200, 7200, 0, "EET")
          }
         } else {
          if i < 82 {
           Table::row(1427590800, 7200, 3600, "EEST")
          } else {
           Table::row(1445734800, 7200, 0, "EET")
          }
         }
        } else {
         if i < 85 {
          if i < 84 {
           Table::row(1459040400, 7200, 3600, "EEST")
          } else {
           Table::row(1477789200, 7200, 0, "EET")
          }
         } else {
          if i < 86 {
           Table::row(1490490000, 7200, 3600, "EEST")
          } else {
           Table::row(1509238800, 7200, 0, "EET")
          }
         }
        }
       } else {
        if i < 91 {
         if i < 89 {
          if i < 88 {
           Table::row(1521939600, 7200, 3600, "EEST")
          } else {
           Table::row(1540688400, 7200, 0, "EET")
          }
         } else {
          if i < 90 {
           Table::row(1553994000, 7200, 3600, "EEST")
          } else {
           Table::row(1572138000, 7200, 0, "EET")
          }
         }
        } else {
         if i < 93 {
          if i < 92 {
           Table::row(1585443600, 7200, 3600, "EEST")
          } else {
           Table::row(1603587600, 7200, 0, "EET")
          }
         } else {
          if i < 94 {
           Table::row(1616893200, 7200, 3600, "EEST")
          } else {
           Table::row(1635642000, 7200, 0, "EET")
          }
         }
        }
       }
      }
     } else {
      if i < 111 {
       if i < 103 {
        if i < 99 {
         if i < 97 {
          if i < 96 {
           Table::row(1648342800, 7200, 3600, "EEST")
          } else {
           Table::row(1667091600, 7200, 0, "EET")
          }
         } else {
          if i < 98 {
           Table::row(1679792400, 7200, 3600, "EEST")
          } else {
           Table::row(1698541200, 7200, 0, "EET")
          }
         }
        } else {
         if i < 101 {
          if i < 100 {
           Table::row(1711846800, 7200, 3600, "EEST")
          } else {
           Table::row(1729990800, 7200, 0, "EET")
          }
         } else {
          if i < 102 {
           Table::row(1743296400, 7200, 3600, "EEST")
          } else {
           Table::row(1761440400, 7200, 0, "EET")
          }
         }
        }
       } else {
        if i < 107 {
         if i < 105 {
          if i < 104 {
           Table::row(1774746000, 7200, 3600, "EEST")
          } else {
           Table::row(1792890000, 7200, 0, "EET")
          }
         } else {
          if i < 106 {
           Table::row(1806195600, 7200, 3600, "EEST")
          } else {
           Table::row(1824944400, 7200, 0, "EET")
          }
         }
        } else {
         if i < 109 {
          if i < 108 {
           Table::row(1837645200, 7200, 3600, "EEST")
          } else {
           Table::row(1856394000, 7200, 0, "EET")
          }
         } else {
          if i < 110 {
           Table::row(1869094800, 7200, 3600, "EEST")
          } else {
           Table::row(1887843600, 7200, 0, "EET")
          }
         }
        }
       }
      } else {
       if i < 119 {
        if i < 115 {
         if i < 113 {
          if i < 112 {
           Table::row(1901149200, 7200, 3600, "EEST")
          } else {
           Table::row(1919293200, 7200, 0, "EET")
          }
         } else {
          if i < 114 {
           Table::row(1932598800, 7200, 3600, "EEST")
          } else {
           Table::row(1950742800, 7200, 0, "EET")
          }
         }
        } else {
         if i < 117 {
          if i < 116 {
           Table::row(1964048400, 7200, 3600, "EEST")
          } else {
           Table::row(1982797200, 7200, 0, "EET")
          }
         } else {
          if i < 118 {
           Table::row(1995498000, 7200, 3600, "EEST")
          } else {
           Table::row(2014246800, 7200, 0, "EET")
          }
         }
        }
       } else {
        if i < 123 {
         if i < 121 {
          if i < 120 {
           Table::row(2026947600, 7200, 3600, "EEST")
          } else {
           Table::row(2045696400, 7200, 0, "EET")
          }
         } else {
          if i < 122 {
           Table::row(2058397200, 7200, 3600, "EEST")
          } else {
           Table::row(2077146000, 7200, 0, "EET")
          }
         }
        } else {
         if i < 125 {
          if i < 124 {
           Table::row(2090451600, 7200, 3600, "EEST")
          } else {
           Table::row(2108595600, 7200, 0, "EET")
          }
         } else {
          if i < 126 {
           Table::row(2121901200, 7200, 3600, "EEST")
          } else {
           Table::row(2140045200, 7200, 0, "EET")
          }
         }
        }
       }
      }
     }
    }
}

/// The rows of the table of the zone `Asia/Nicosia`.
pub open spec fn nicosia_rows() -> spec_fn(int) -> (i64, FixedTimespan) {
    |i: int| nicosia_row(i)
}

/// The table of the zone `Asia/Nicosia`.
pub open spec fn nicosia() -> Table {
    Table::listed(Table::row(0, 8008, 0, "LMT").1, 127, nicosia_rows())
}

/// Row `i` of the table of the zone `Asia/Novokuznetsk`.
pub open spec fn novokuznetsk_row(i: int) -> (i64, FixedTimespan) {
    if i < 32 {
     if i < 16 {
      if i < 8 {
       if i < 4 {
        if i < 2 {
         if i < 1 {
          Table::row(-1441259328, 21600, 0, "+06")
         } else {
          Table::row(-1247551200, 25200, 0, "+07")
         }
        } else {
         if i < 3 {
          Table::row(354906000, 25200, 3600, "+08")
         } else {
          Table::row(370713600, 25200, 0, "+07")
         }
        }
       } else {
        if i < 6 {
         if i < 5 {
          Table::row(386442000, 25200, 3600, "+08")
         } else {
          Table::row(402249600, 25200, 0, "+07")
         }
        } else {
         if i < 7 {
          Table::row(417978000, 25200, 3600, "+08")
         } else {
          Table::row(433785600, 25200, 0, "+07")
         }
        }
       }
      } else {
       if i < 12 {
        if i < 10 {
         if i < 9 {
          Table::row(449600400, 25200, 3600, "+08")
         } else {
          Table::row(465332400, 25200, 0, "+07")
         }
        } else {
         if i < 11 {
          Table::row(481057200, 25200, 3600, "+08")
         } else {
          Table::row(496782000, 25200, 0, "+07")
         }
        }
       } else {
        if i < 14 {
         if i < 13 {
          Table::row(512506800, 25200, 3600, "+08")
         } else {
          Table::row(528231600, 25200, 0, "+07")
         }
        } else {
         if i < 15 {
          Table::row(543956400, 25200, 3600, "+08")
         } else {
          Table::row(559681200, 25200, 0, "+07")
         }
        }
       }
      }
     } else {
      if i < 24 {
       if i < 20 {
        if i < 18 {
         if i < 17 {
          Table::row(575406000, 25200, 3600, "+08")
         } else {
          Table::row(591130800, 25200, 0, "+07")
         }
        } else {
         if i < 19 {
          Table::row(606855600, 25200, 3600, "+08")
         } else {
          Table::row(622580400, 25200, 0, "+07")
         }
        }
       } else {
        if i < 22 {
         if i < 21 {
          Table::row(638305200, 25200, 3600, "+08")
         } else {
          Table::row(654634800, 25200, 0, "+07")
         }
        } else {
         if i < 23 {
          Table::row(670359600, 21600, 3600, "+07")
         } else {
          Table::row(686088000, 21600, 0, "+06")
         }
        }
       }
      } else {
       if i < 28 {
        if i < 26 {
         if i < 25 {
          Table::row(695764800, 25200, 0, "+07")
         } else {
          Table::row(701809200, 25200, 3600, "+08")
         }
        } else {
         if i < 27 {
          Table::row(717534000, 25200, 0, "+07")
         } else {
          Table::row(733258800, 25200, 3600, "+08")
         }
        }
       } else {
        if i < 30 {
         if i < 29 {
          Table::row(748983600, 25200, 0, "+07")
         } else {
          Table::row(764708400, 25200, 3600, "+08")
         }
        } else {
         if i < 31 {
          Table::row(780433200, 25200, 0, "+07")
         } else {
          Table::row(796158000, 25200, 3600, "+08")
         }
        }
       }
      }
     }
    } else {
     if i < 48 {
      if i < 40 {
       if i < 36 {
        if i < 34 {
         if i < 33 {
          Table::row(811882800, 25200, 0, "+07")
         } else {
          Table::row(828212400, 25200, 3600, "+08")
         }
        } else {
         if i < 35 {
          Table::row(846356400, 25200, 0, "+07")
         } else {
          Table::row(859662000, 25200, 3600, "+08")
         }
        }
       } else {
        if i < 38 {
         if i < 37 {
          Table::row(877806000, 25200, 0, "+07")
         } else {
          Table::row(891111600, 25200, 3600, "+08")
         }
        } else {
         if i < 39 {
          Table::row(909255600, 25200, 0, "+07")
         } else {
          Table::row(922561200, 25200, 3600, "+08")
         }
        }
       }
      } else {
       if i < 44 {
        if i < 42 {
         if i < 41 {
          Table::row(941310000, 25200, 0, "+07")
         } else {
          Table::row(954010800, 25200, 3600, "+08")
         }
        } else {
         if i < 43 {
          Table::row(972759600, 25200, 0, "+07")
         } else {
          Table::row(985460400, 25200, 3600, "+08")
         }
        }
       } else {
        if i < 46 {
         if i < 45 {
          Table::row(1004209200, 25200, 0, "+07")
         } else {
          Table::row(1017514800, 25200, 3600, "+08")
         }
        } else {
         if i < 47 {
          Table::row(1035658800, 25200, 0, "+07")
         } else {
          Table::row(1048964400, 25200, 3600, "+08")
         }
        }
       }
      }
     } else {
      if i < 56 {
       if i < 52 {
        if i < 50 {
         if i < 49 {
          Table::row(1067108400, 25200, 0, "+07")
         } else {
          Table::row(1080414000, 25200, 3600, "+08")
         }
        } else {
         if i < 51 {
          Table::row(1099162800, 25200, 0, "+07")
         } else {
          Table::row(1111863600, 25200, 3600, "+08")
         }
        }
       } else {
        if i < 54 {
         if i < 53 {
          Table::row(1130612400, 25200, 0, "+07")
         } else {
          Table::row(1143313200, 25200, 3600, "+08")
         }
        } else {
         if i < 55 {
          Table::row(1162062000, 25200, 0, "+07")
         } else {
          Table::row(1174762800, 25200, 3600, "+08")
         }
        }
       }
      } else {
       if i < 60 {
        if i < 58 {
         if i < 57 {
          Table::row(1193511600, 25200, 0, "+07")
         } else {
          Table::row(1206817200, 25200, 3600, "+08")
         }
        } else {
         if i < 59 {
          Table::row(1224961200, 25200, 0, "+07")
         } else {
          Table::row(1238266800, 25200, 3600, "+08")
         }
        }
       } else {
        if i < 62 {
         if i < 61 {
          Table::row(1256410800, 25200, 0, "+07")
         } else {
          Table::row(1269716400, 21600, 3600, "+07")
         }
        } else {
         if i < 63 {
          Table::row(1288468800, 21600, 0, "+06")
         } else {
          if i < 64 {
           Table::row(1301169600, 25200, 0, "+07")
          } else {
           Table::row(2147483647, 25200, 0, "+07")
          }
         }
        }
       }
      }
     }
    }
}

/// The rows of the table of the zone `Asia/Novokuznetsk`.
pub open spec fn novokuznetsk_rows() -> spec_fn(int) -> (i64, FixedTimespan) {
    |i: int| novokuznetsk_row(i)
}

/// The table of the zone `Asia/Novokuznetsk`.
pub open spec fn novokuznetsk() -> Table {
    Table::listed(Table::row(0, 20928, 0, "LMT").1, 65, novokuznetsk_rows())
}

/// Row `i` of the table of the zone `Asia/Novosibirsk`.
pub open spec fn novosibirsk_row(i: int) -> (i64, FixedTimespan) {
    if i < 34 {
     if i < 17 {
      if i < 8 {
       if i < 4 {
        if i < 2 {
         if i < 1 {
          Table::row(-1579476700, 21600, 0, "+06")
         } else {
          Table::row(-1247551200, 25200, 0, "+07")
         }
        } else {
         if i < 3 {
          Table::row(354906000, 25200, 3600, "+08")
         } else {
          Table::row(370713600, 25200, 0, "+07")
         }
        }
       } else {
        if i < 6 {
         if i < 5 {
          Table::row(386442000, 25200, 3600, "+08")
         } else {
          Table::row(402249600, 25200, 0, "+07")
         }
        } else {
         if i < 7 {
          Table::row(417978000, 25200, 3600, "+08")
         } else {
          Table::row(433785600, 25200, 0, "+07")
         }
        }
       }
      } else {
       if i < 12 {
        if i < 10 {
         if i < 9 {
          Table::row(449600400, 25200, 3600, "+08")
         } else {
          Table::row(465332400, 25200, 0, "+07")
         }
        } else {
         if i < 11 {
          Table::row(481057200, 25200, 3600, "+08")
         } else {
          Table::row(496782000, 25200, 0, "+07")
         }
        }
       } else {
        if i < 14 {
         if i < 13 {
          Table::row(512506800, 25200, 3600, "+08")
         } else {
          Table::row(528231600, 25200, 0, "+07")
         }
        } else {
         if i < 15 {
          Table::row(543956400, 25200, 3600, "+08")
         } else {
          if i < 16 {
           Table::row(559681200, 25200, 0, "+07")
          } else {
           Table::row(575406000, 25200, 3600, "+08")
          }
         }
        }
       }
      }
     } else {
      if i < 25 {
       if i < 21 {
        if i < 19 {
         if i < 18 {
          Table::row(591130800, 25200, 0, "+07")
         } else {
          Table::row(606855600, 25200, 3600, "+08")
         }
        } else {
         if i < 20 {
          Table::row(622580400, 25200, 0, "+07")
         } else {
          Table::row(638305200, 25200, 3600, "+08")
         }
        }
       } else {
        if i < 23 {
         if i < 22 {
          Table::row(654634800, 25200, 0, "+07")
         } else {
          Table::row(670359600, 21600, 3600, "+07")
         }
        } else {
         if i < 24 {
          Table::row(686088000, 21600, 0, "+06")
         } else {
          Table::row(695764800, 25200, 0, "+07")
         }
        }
       }
      } else {
       if i < 29 {
        if i < 27 {
         if i < 26 {
          Table::row(701809200, 25200, 3600, "+08")
         } else {
          Table::row(717534000, 25200, 0, "+07")
         }
        } else {
         if i < 28 {
          Table::row(733258800, 25200, 3600, "+08")
         } else {
          Table::row(738086400, 21600, 3600, "+07")
         }
        }
       } else {
        if i < 31 {
         if i < 30 {
          Table::row(748987200, 21600, 0, "+06")
         } else {
          Table::row(764712000, 21600, 3600, "+07")
         }
        } else {
         if i < 32 {
          Table::row(780436800, 21600, 0, "+06")
         } else {
          if i < 33 {
           Table::row(796161600, 21600, 3600, "+07")
          } else {
           Table::row(811886400, 21600, 0, "+06")
          }
         }
        }
       }
      }
     }
    } else {
     if i < 51 {
      if i < 42 {
       if i < 38 {
        if i < 36 {
         if i < 35 {
          Table::row(828216000, 21600, 3600, "+07")
         } else {
          Table::row(846360000, 21600, 0, "+06")
         }
        } else {
         if i < 37 {
          Table::row(859665600, 21600, 3600, "+07")
         } else {
          Table::row(877809600, 21600, 0, "+06")
         }
        }
       } else {
        if i < 40 {
         if i < 39 {
          Table::row(891115200, 21600, 3600, "+07")
         } else {
          Table::row(909259200, 21600, 0, "+06")
         }
        } else {
         if i < 41 {
          Table::row(922564800, 21600, 3600, "+07")
         } else {
          Table::row(941313600, 21600, 0, "+06")
         }
        }
       }
      } else {
       if i < 46 {
        if i < 44 {
         if i < 43 {
          Table::row(954014400, 21600, 3600, "+07")
         } else {
          Table::row(972763200, 21600, 0, "+06")
         }
        } else {
         if i < 45 {
          Table::row(985464000, 21600, 3600, "+07")
         } else {
          Table::row(1004212800, 21600, 0, "+06")
         }
        }
       } else {
        if i < 48 {
         if i < 47 {
          Table::row(1017518400, 21600, 3600, "+07")
         } else {
          Table::row(1035662400, 21600, 0, "+06")
         }
        } else {
         if i < 49 {
          Table::row(1048968000, 21600, 3600, "+07")
         } else {
          if i < 50 {
           Table::row(1067112000, 21600, 0, "+06")
          } else {
           Table::row(1080417600, 21600, 3600, "+07")
          }
         }
        }
       }
      }
     } else {
      if i < 59 {
       if i < 55 {
        if i < 53 {
         if i < 52 {
          Table::row(1099166400, 21600, 0, "+06")
         } else {
          Table::row(1111867200, 21600, 3600, "+07")
         }
        } else {
         if i < 54 {
          Table::row(1130616000, 21600, 0, "+06")
         } else {
          Table::row(1143316800, 21600, 3600, "+07")
         }
        }
       } else {
        if i < 57 {
         if i < 56 {
          Table::row(1162065600, 21600, 0, "+06")
         } else {
          Table::row(1174766400, 21600, 3600, "+07")
         }
        } else {
         if i < 58 {
          Table::row(1193515200, 21600, 0, "+06")
         } else {
          Table::row(1206820800, 21600, 3600, "+07")
         }
        }
       }
      } else {
       if i < 63 {
        if i < 61 {
         if i < 60 {
          Table::row(1224964800, 21600, 0, "+06")
         } else {
          Table::row(1238270400, 21600, 3600, "+07")
         }
        } else {
         if i < 62 {
          Table::row(1256414400, 21600, 0, "+06")
         } else {
          Table::row(1269720000, 21600, 3600, "+07")
         }
        }
       } else {
        if i < 65 {
         if i < 64 {
          Table::row(1288468800, 21600, 0, "+06")
         } else {
          Table::row(1301169600, 25200, 0, "+07")
         }
        } else {
         if i < 66 {
          Table::row(1414263600, 21600, 0, "+06")
         } else {
          if i < 67 {
           Table::row(1469304000, 25200, 0, "+07")
          } else {
           Table::row(2147483647, 25200, 0, "+07")
          }
         }
        }
       }
      }
     }
    }
}

/// The rows of the table of the zone `Asia/Novosibirsk`.
pub open spec fn novosibirsk_rows() -> spec_fn(int) -> (i64, FixedTimespan) {
    |i: int| novosibirsk_row(i)
}

/// The table of the zone `Asia/Novosibirsk`.
pub open spec fn novosibirsk() -> Table {
    Table::listed(Table::row(0, 19900, 0, "LMT").1, 68, novosibirsk_rows())
}

/// Row `i` of the table of the zone `Asia/Omsk`.
pub open spec fn omsk_row(i: int) -> (i64, FixedTimespan) {
    if i < 33 {
     if i < 16 {
      if i < 8 {
       if i < 4 {
        if i < 2 {
         if i < 1 {
          Table::row(-1582088010, 18000, 0, "+05")
         } else {
          Table::row(-1247547600, 21600, 0, "+06")
         }
        } else {
         if i < 3 {
          Table::row(354909600, 21600, 3600, "+07")
         } else {
          Table::row(370717200, 21600, 0, "+06")
         }
        }
       } else {
        if i < 6 {
         if i < 5 {
          Table::row(386445600, 21600, 3600, "+07")
         } else {
          Table::row(402253200, 21600, 0, "+06")
         }
        } else {
         if i < 7 {
          Table::row(417981600, 21600, 3600, "+07")
         } else {
          Table::row(433789200, 21600, 0, "+06")
         }
        }
       }
      } else {
       if i < 12 {
        if i < 10 {
         if i < 9 {
          Table::row(449604000, 21600, 3600, "+07")
         } else {
          Table::row(465336000, 21600, 0, "+06")
         }
        } else {
         if i < 11 {
          Table::row(481060800, 21600, 3600, "+07")
         } else {
          Table::row(496785600, 21600, 0, "+06")
         }
        }
       } else {
        if i < 14 {
         if i < 13 {
          Table::row(512510400, 21600, 3600, "+07")
         } else {
          Table::row(528235200, 21600, 0, "+06")
         }
        } else {
         if i < 15 {
          Table::row(543960000, 21600, 3600, "+07")
         } else {
          Table::row(559684800, 21600, 0, "+06")
         }
        }
       }
      }
     } else {
      if i < 24 {
       if i < 20 {
        if i < 18 {
         if i < 17 {
          Table::row(575409600, 21600, 3600, "+07")
         } else {
          Table::row(591134400, 21600, 0, "+06")
         }
        } else {
         if i < 19 {
          Table::row(606859200, 21600, 3600, "+07")
         } else {
          Table::row(622584000, 21600, 0, "+06")
         }
        }
       } else {
        if i < 22 {
         if i < 21 {
          Table::row(638308800, 21600, 3600, "+07")
         } else {
          Table::row(654638400, 21600, 0, "+06")
         }
        } else {
         if i < 23 {
          Table::row(670363200, 18000, 3600, "+06")
         } else {
          Table::row(686091600, 18000, 0, "+05")
         }
        }
       }
      } else {
       if i < 28 {
        if i < 26 {
         if i < 25 {
          Table::row(695768400, 21600, 0, "+06")
         } else {
          Table::row(701812800, 21600, 3600, "+07")
         }
        } else {
         if i < 27 {
          Table::row(717537600, 21600, 0, "+06")
         } else {
          Table::row(733262400, 21600, 3600, "+07")
         }
        }
       } else {
        if i < 30 {
         if i < 29 {
          Table::row(748987200, 21600, 0, "+06")
         } else {
          Table::row(764712000, 21600, 3600, "+07")
         }
        } else {
         if i < 31 {
          Table::row(780436800, 21600, 0, "+06")
         } else {
          if i < 32 {
           Table::row(796161600, 21600, 3600, "+07")
          } else {
           Table::row(811886400, 21600, 0, "+06")
          }
         }
        }
       }
      }
     }
    } else {
     if i < 49 {
      if i < 41 {
       if i < 37 {
        if i < 35 {
         if i < 34 {
          Table::row(828216000, 21600, 3600, "+07")
         } else {
          Table::row(846360000, 21600, 0, "+06")
         }
        } else {
         if i < 36 {
          Table::row(859665600, 21600, 3600, "+07")
         } else {
          Table::row(877809600, 21600, 0, "+06")
         }
        }
       } else {
        if i < 39 {
         if i < 38 {
          Table::row(891115200, 21600, 3600, "+07")
         } else {
          Table::row(909259200, 21600, 0, "+06")
         }
        } else {
         if i < 40 {
          Table::row(922564800, 21600, 3600, "+07")
         } else {
          Table::row(941313600, 21600, 0, "+06")
         }
        }
       }
      } else {
       if i < 45 {
        if i < 43 {
         if i < 42 {
          Table::row(954014400, 21600, 3600, "+07")
         } else {
          Table::row(972763200, 21600, 0, "+06")
         }
        } else {
         if i < 44 {
          Table::row(985464000, 21600, 3600, "+07")
         } else {
          Table::row(1004212800, 21600, 0, "+06")
         }
        }
       } else {
        if i < 47 {
         if i < 46 {
          Table::row(1017518400, 21600, 3600, "+07")
         } else {
          Table::row(1035662400, 21600, 0, "+06")
         }
        } else {
         if i < 48 {
          Table::row(1048968000, 21600, 3600, "+07")
         } else {
          Table::row(1067112000, 21600, 0, "+06")
         }
        }
       }
      }
     } else {
      if i < 57 {
       if i < 53 {
        if i < 51 {
         if i < 50 {
          Table::row(1080417600, 21600, 3600, "+07")
         } else {
          Table::row(1099166400, 21600, 0, "+06")
         }
        } else {
         if i < 52 {
          Table::row(1111867200, 21600, 3600, "+07")
         } else {
          Table::row(1130616000, 21600, 0, "+06")
         }
        }
       } else {
        if i < 55 {
         if i < 54 {
          Table::row(1143316800, 21600, 3600, "+07")
         } else {
          Table::row(1162065600, 21600, 0, "+06")
         }
        } else {
         if i < 56 {
          Table::row(1174766400, 21600, 3600, "+07")
         } else {
          Table::row(1193515200, 21600, 0, "+06")
         }
        }
       }
      } else {
       if i < 61 {
        if i < 59 {
         if i < 58 {
          Table::row(1206820800, 21600, 3600, "+07")
         } else {
          Table::row(1224964800, 21600, 0, "+06")
         }
        } else {
         if i < 60 {
          Table::row(1238270400, 21600, 3600, "+07")
         } else {
          Table::row(1256414400, 21600, 0, "+06")
         }
        }
       } else {
        if i < 63 {
         if i < 62 {
          Table::row(1269720000, 21600, 3600, "+07")
         } else {
          Table::row(1288468800, 21600, 0, "+06")
         }
        } else {
         if i < 64 {
          Table::row(1301169600, 25200, 0, "+07")
         } else {
          if i < 65 {
           Table::row(1414263600, 21600, 0, "+06")
          } else {
           Table::row(2147483647, 21600, 0, "+06")
          }
         }
        }
       }
      }
     }
    }
}

/// The rows of the table of the zone `Asia/Omsk`.
pub open spec fn omsk_rows() -> spec_fn(int) -> (i64, FixedTimespan) {
    |i: int| omsk_row(i)
}

/// The table of the zone `Asia/Omsk`.
pub open spec fn omsk() -> Table {
    Table::listed(Table::row(0, 17610, 0, "LMT").1, 66, omsk_rows())
}

/// Row `i` of the table of the zone `Asia/Oral`.
pub open spec fn oral_row(i: int) -> (i64, FixedTimespan) {
    if i < 26 {
     if i < 13 {
      if i < 6 {
       if i < 3 {
        if i < 1 {
         Table::row(-1441164324, 10800, 0, "+03")
        } else {
         if i < 2 {
          Table::row(-1247540400, 18000, 0, "+05")
         } else {
          Table::row(354913200, 18000, 3600, "+06")
         }
        }
       } else {
        if i < 4 {
         Table::row(370720800, 21600, 0, "+06")
        } else {
         if i < 5 {
          Table::row(386445600, 18000, 3600, "+06")
         } else {
          Table::row(402256800, 18000, 0, "+05")
         }
        }
       }
      } else {
       if i < 9 {
        if i < 7 {
         Table::row(417985200, 18000, 3600, "+06")
        } else {
         if i < 8 {
          Table::row(433792800, 18000, 0, "+05")
         } else {
          Table::row(449607600, 18000, 3600, "+06")
         }
        }
       } else {
        if i < 11 {
         if i < 10 {
          Table::row(465339600, 18000, 0, "+05")
         } else {
          Table::row(481064400, 18000, 3600, "+06")
         }
        } else {
         if i < 12 {
          Table::row(496789200, 18000, 0, "+05")
         } else {
          Table::row(512514000, 18000, 3600, "+06")
         }
        }
       }
      }
     } else {
      if i < 19 {
       if i < 16 {
        if i < 14 {
         Table::row(528238800, 18000, 0, "+05")
        } else {
         if i < 15 {
          Table::row(543963600, 18000, 3600, "+06")
         } else {
          Table::row(559688400, 18000, 0, "+05")
         }
        }
       } else {
        if i < 17 {
         Table::row(575413200, 18000, 3600, "+06")
        } else {
         if i < 18 {
          Table::row(591138000, 18000, 0, "+05")
         } else {
          Table::row(606862800, 14400, 3600, "+05")
         }
        }
       }
      } else {
       if i < 22 {
        if i < 20 {
         Table::row(622591200, 14400, 0, "+04")
        } else {
         if i < 21 {
          Table::row(638316000, 14400, 3600, "+05")
         } else {
          Table::row(654645600, 14400, 0, "+04")
         }
        }
       } else {
        if i < 24 {
         if i < 23 {
          Table::row(670370400, 14400, 3600, "+05")
         } else {
          Table::row(686095200, 14400, 0, "+04")
         }
        } else {
         if i < 25 {
          Table::row(695772000, 18000, 0, "+05")
         } else {
          Table::row(701816400, 14400, 3600, "+05")
         }
        }
       }
      }
     }
    } else {
     if i < 39 {
      if i < 32 {
       if i < 29 {
        if i < 27 {
         Table::row(717544800, 14400, 0, "+04")
        } else {
         if i < 28 {
          Table::row(733269600, 14400, 3600, "+05")
         } else {
          Table::row(748994400, 14400, 0, "+04")
         }
        }
       } else {
        if i < 30 {
         Table::row(764719200, 14400, 3600, "+05")
        } else {
         if i < 31 {
          Table::row(780444000, 14400, 0, "+04")
         } else {
          Table::row(796168800, 14400, 3600, "+05")
         }
        }
       }
      } else {
       if i < 35 {
        if i < 33 {
         Table::row(811893600, 14400, 0, "+04")
        } else {
         if i < 34 {
          Table::row(828223200, 14400, 3600, "+05")
         } else {
          Table::row(846367200, 14400, 0, "+04")
         }
        }
       } else {
        if i < 37 {
         if i < 36 {
          Table::row(859672800, 14400, 3600, "+05")
         } else {
          Table::row(877816800, 14400, 0, "+04")
         }
        } else {
         if i < 38 {
          Table::row(891122400, 14400, 3600, "+05")
         } else {
          Table::row(909266400, 14400, 0, "+04")
         }
        }
       }
      }
     } else {
      if i < 45 {
       if i < 42 {
        if i < 40 {
         Table::row(922572000, 14400, 3600, "+05")
        } else {
         if i < 41 {
          Table::row(941320800, 14400, 0, "+04")
         } else {
          Table::row(954021600, 14400, 3600, "+05")
         }
        }
       } else {
        if i < 43 {
         Table::row(972770400, 14400, 0, "+04")
        } else {
         if i < 44 {
          Table::row(985471200, 14400, 3600, "+05")
         } else {
          Table::row(1004220000, 14400, 0, "+04")
         }
        }
       }
      } else {
       if i < 48 {
        if i < 46 {
         Table::row(1017525600, 14400, 3600, "+05")
        } else {
         if i < 47 {
          Table::row(1035669600, 14400, 0, "+04")
         } else {
          Table::row(1048975200, 14400, 3600, "+05")
         }
        }
       } else {
        if i < 50 {
         if i < 49 {
          Table::row(1067119200, 14400, 0, "+04")
         } else {
          Table::row(1080424800, 14400, 3600, "+05")
         }
        } else {
         if i < 51 {
          Table::row(1099173600, 18000, 0, "+05")
         } else {
          Table::row(2147483647, 18000, 0, "+05")
         }
        }
       }
      }
     }
    }
}

/// The rows of the table of the zone `Asia/Oral`.
pub open spec fn oral_rows() -> spec_fn(int) -> (i64, FixedTimespan) {
    |i: int| oral_row(i)
}

/// The table of the zone `Asia/Oral`.
pub open spec fn oral() -> Table {
    Table::listed(Table::row(0, 12324, 0, "LMT").1, 52, oral_rows())
}

/// Row `i` of the table of the zone `Asia/Phnom_Penh`.
pub open spec fn phnom_penh_row(i: int) -> (i64, FixedTimespan) {
    if i < 3 {
     if i < 1 {
      Table::row(-2004073180, 25590, 0, "PLMT")
     } else {
      if i < 2 {
       Table::row(-1851577590, 25200, 0, "+07")
      } else {
       Table::row(-852105600, 28800, 0, "+08")
      }
     }
    } else {
     if i < 4 {
      Table::row(-782643600, 32400, 0, "+09")
     } else {
      if i < 5 {
       Table::row(-767869200, 25200, 0, "+07")
      } else {
       Table::row(2147483647, 25200, 0, "+07")
      }
     }
    }
}

/// The rows of the table of the zone `Asia/Phnom_Penh`.
pub open spec fn phnom_penh_rows() -> spec_fn(int) -> (i64, FixedTimespan) {
    |i: int| phnom_penh_row(i)
}

/// The table of the zone `Asia/Phnom_Penh`.
pub open spec fn phnom_penh() -> Table {
    Table::listed(Table::row(0, 25180, 0, "LMT").1, 6, phnom_penh_rows())
}

/// Row `i` of the table of the zone `Asia/Pontianak`.
pub open spec fn pontianak_row(i: int) -> (i64, FixedTimespan) {
    if i < 4 {
     if i < 2 {
      if i < 1 {
       Table::row(-1946186240, 26240, 0, "PMT")
      } else {
       Table::row(-1172906240, 27000, 0, "+0730")
      }
     } else {
      if i < 3 {
       Table::row(-881220600, 32400, 0, "+09")
      } else {
       Table::row(-766054800, 27000, 0, "+0730")
      }
     }
    } else {
     if i < 6 {
      if i < 5 {
       Table::row(-683883000, 28800, 0, "+08")
      } else {
       Table::row(-620812800, 27000, 0, "+0730")
      }
     } else {
      if i < 7 {
       Table::row(-189415800, 28800, 0, "WITA")
      } else {
       Table::row(567964800, 25200, 0, "WIB")
      }
     }
    }
}

/// The rows of the table of the zone `Asia/Pontianak`.
pub open spec fn pontianak_rows() -> spec_fn(int) -> (i64, FixedTimespan) {
    |i: int| pontianak_row(i)
}

/// The table of the zone `Asia/Pontianak`.
pub open spec fn pontianak() -> Table {
    Table::listed(Table::row(0, 26240, 0, "LMT").1, 8, pontianak_rows())
}

/// Row `i` of the table of the zone `Asia/Pyongyang`.
pub open spec fn pyongyang_row(i: int) -> (i64, FixedTimespan) {
    if i < 2 {
     if i < 1 {
      Table::row(-1948782180, 30600, 0, "KST")
     } else {
      Table::row(-1830414600, 32400, 0, "JST")
     }
    } else {
     if i < 3 {
      Table::row(-768646800, 32400, 0, "KST")
     } else {
      if i < 4 {
       Table::row(1439564400, 30600, 0, "KST")
      } else {
       Table::row(1525446000, 32400, 0, "KST")
      }
     }
    }
}

/// The rows of the table of the zone `Asia/Pyongyang`.
pub open spec fn pyongyang_rows() -> spec_fn(int) -> (i64, FixedTimespan) {
    |i: int| pyongyang_row(i)
}

/// The table of the zone `Asia/Pyongyang`.
pub open spec fn pyongyang() -> Table {
    Table::listed(Table::row(0, 30180, 0, "LMT").1, 5, pyongyang_rows())
}

/// Row `i` of the table of the zone `Asia/Qatar`.
pub open spec fn qatar_row(i: int) -> (i64, FixedTimespan) {
    if i < 1 {
     Table::row(-1577935568, 14400, 0, "+04")
    } else {
     if i < 2 {
      Table::row(76190400, 10800, 0, "+03")
     } else {
      Table::row(2147483647, 10800, 0, "+03")
     }
    }
}

/// The rows of the table of the zone `Asia/Qatar`.
pub open spec fn qatar_rows() -> spec_fn(int) -> (i64, FixedTimespan) {
    |i: int| qatar_row(i)
}

/// The table of the zone `Asia/Qatar`.
pub open spec fn qatar() -> Table {
    Table::listed(Table::row(0, 12368, 0, "LMT").1, 3, qatar_rows())
}

/// Row `i` of the table of the zone `Asia/Qostanay`.
pub open spec fn qostanay_row(i: int) -> (i64, FixedTimespan) {
    if i < 26 {
     if i < 13 {
      if i < 6 {
       if i < 3 {
        if i < 1 {
         Table::row(-1441167268, 14400, 0, "+04")
        } else {
         if i < 2 {
          Table::row(-1247544000, 18000, 0, "+05")
         } else {
          Table::row(354913200, 18000, 3600, "+06")
         }
        }
       } else {
        if i < 4 {
         Table::row(370720800, 21600, 0, "+06")
        } else {
         if i < 5 {
          Table::row(386445600, 18000, 3600, "+06")
         } else {
          Table::row(402256800, 18000, 0, "+05")
         }
        }
       }
      } else {
       if i < 9 {
        if i < 7 {
         Table::row(417985200, 18000, 3600, "+06")
        } else {
         if i < 8 {
          Table::row(433792800, 18000, 0, "+05")
         } else {
          Table::row(449607600, 18000, 3600, "+06")
         }
        }
       } else {
        if i < 11 {
         if i < 10 {
          Table::row(465339600, 18000, 0, "+05")
         } else {
          Table::row(481064400, 18000, 3600, "+06")
         }
        } else {
         if i < 12 {
          Table::row(496789200, 18000, 0, "+05")
         } else {
          Table::row(512514000, 18000, 3600, "+06")
         }
        }
       }
      }
     } else {
      if i < 19 {
       if i < 16 {
        if i < 14 {
         Table::row(528238800, 18000, 0, "+05")
        } else {
         if i < 15 {
          Table::row(543963600, 18000, 3600, "+06")
         } else {
          Table::row(559688400, 18000, 0, "+05")
         }
        }
       } else {
        if i < 17 {
         Table::row(575413200, 18000, 3600, "+06")
        } else {
         if i < 18 {
          Table::row(591138000, 18000, 0, "+05")
         } else {
          Table::row(606862800, 18000, 3600, "+06")
         }
        }
       }
      } else {
       if i < 22 {
        if i < 20 {
         Table::row(622587600, 18000, 0, "+05")
        } else {
         if i < 21 {
          Table::row(638312400, 18000, 3600, "+06")
         } else {
          Table::row(654642000, 18000, 0, "+05")
         }
        }
       } else {
        if i < 24 {
         if i < 23 {
          Table::row(670366800, 14400, 3600, "+05")
         } else {
          Table::row(686095200, 14400, 0, "+04")
         }
        } else {
         if i < 25 {
          Table::row(695772000, 18000, 0, "+05")
         } else {
          Table::row(701816400, 18000, 3600, "+06")
         }
        }
       }
      }
     }
    } else {
     if i < 39 {
      if i < 32 {
       if i < 29 {
        if i < 27 {
         Table::row(717541200, 18000, 0, "+05")
        } else {
         if i < 28 {
          Table::row(733266000, 18000, 3600, "+06")
         } else {
          Table::row(748990800, 18000, 0, "+05")
         }
        }
       } else {
        if i < 30 {
         Table::row(764715600, 18000, 3600, "+06")
        } else {
         if i < 31 {
          Table::row(780440400, 18000, 0, "+05")
         } else {
          Table::row(796165200, 18000, 3600, "+06")
         }
        }
       }
      } else {
       if i < 35 {
        if i < 33 {
         Table::row(811890000, 18000, 0, "+05")
        } else {
         if i < 34 {
          Table::row(828219600, 18000, 3600, "+06")
         } else {
          Table::row(846363600, 18000, 0, "+05")
         }
        }
       } else {
        if i < 37 {
         if i < 36 {
          Table::row(859669200, 18000, 3600, "+06")
         } else {
          Table::row(877813200, 18000, 0, "+05")
         }
        } else {
         if i < 38 {
          Table::row(891118800, 18000, 3600, "+06")
         } else {
          Table::row(909262800, 18000, 0, "+05")
         }
        }
       }
      }
     } else {
      if i < 46 {
       if i < 42 {
        if i < 40 {
         Table::row(922568400, 18000, 3600, "+06")
        } else {
         if i < 41 {
          Table::row(941317200, 18000, 0, "+05")
         } else {
          Table::row(954018000, 18000, 3600, "+06")
         }
        }
       } else {
        if i < 44 {
         if i < 43 {
          Table::row(972766800, 18000, 0, "+05")
         } else {
          Table::row(985467600, 18000, 3600, "+06")
         }
        } else {
         if i < 45 {
          Table::row(1004216400, 18000, 0, "+05")
         } else {
          Table::row(1017522000, 18000, 3600, "+06")
         }
        }
       }
      } else {
       if i < 49 {
        if i < 47 {
         Table::row(1035666000, 18000, 0, "+05")
        } else {
         if i < 48 {
          Table::row(1048971600, 18000, 3600, "+06")
         } else {
          Table::row(1067115600, 18000, 0, "+05")
         }
        }
       } else {
        if i < 51 {
         if i < 50 {
          Table::row(1080421200, 18000, 3600, "+06")
         } else {
          Table::row(1099170000, 21600, 0, "+06")
         }
        } else {
         if i < 52 {
          Table::row(1709229600, 18000, 0, "+05")
         } else {
          Table::row(2147483647, 18000, 0, "+05")
         }
        }
       }
      }
     }
    }
}

/// The rows of the table of the zone `Asia/Qostanay`.
pub open spec fn qostanay_rows() -> spec_fn(int) -> (i64, FixedTimespan) {
    |i: int| qostanay_row(i)
}

/// The table of the zone `Asia/Qostanay`.
pub open spec fn qostanay() -> Table {
    Table::listed(Table::row(0, 15268, 0, "LMT").1, 53, qostanay_rows())
}

/// Row `i` of the table of the zone `Asia/Qyzylorda`.
pub open spec fn qyzylorda_row(i: int) -> (i64, FixedTimespan) {
    if i < 26 {
     if i < 13 {
      if i < 6 {
       if i < 3 {
        if i < 1 {
         Table::row(-1441167712, 14400, 0, "+04")
        } else {
         if i < 2 {
          Table::row(-1247544000, 18000, 0, "+05")
         } else {
          Table::row(354913200, 18000, 3600, "+06")
         }
        }
       } else {
        if i < 4 {
         Table::row(370720800, 21600, 0, "+06")
        } else {
         if i < 5 {
          Table::row(386445600, 18000, 3600, "+06")
         } else {
          Table::row(402256800, 18000, 0, "+05")
         }
        }
       }
      } else {
       if i < 9 {
        if i < 7 {
         Table::row(417985200, 18000, 3600, "+06")
        } else {
         if i < 8 {
          Table::row(433792800, 18000, 0, "+05")
         } else {
          Table::row(449607600, 18000, 3600, "+06")
         }
        }
       } else {
        if i < 11 {
         if i < 10 {
          Table::row(465339600, 18000, 0, "+05")
         } else {
          Table::row(481064400, 18000, 3600, "+06")
         }
        } else {
         if i < 12 {
          Table::row(496789200, 18000, 0, "+05")
         } else {
          Table::row(512514000, 18000, 3600, "+06")
         }
        }
       }
      }
     } else {
      if i < 19 {
       if i < 16 {
        if i < 14 {
         Table::row(528238800, 18000, 0, "+05")
        } else {
         if i < 15 {
          Table::row(543963600, 18000, 3600, "+06")
         } else {
          Table::row(559688400, 18000, 0, "+05")
         }
        }
       } else {
        if i < 17 {
         Table::row(575413200, 18000, 3600, "+06")
        } else {
         if i < 18 {
          Table::row(591138000, 18000, 0, "+05")
         } else {
          Table::row(606862800, 18000, 3600, "+06")
         }
        }
       }
      } else {
       if i < 22 {
        if i < 20 {
         Table::row(622587600, 18000, 0, "+05")
        } else {
         if i < 21 {
          Table::row(638312400, 18000, 3600, "+06")
         } else {
          Table::row(654642000, 18000, 0, "+05")
         }
        }
       } else {
        if i < 24 {
         if i < 23 {
          Table::row(670366800, 14400, 3600, "+05")
         } else {
          Table::row(686095200, 18000, 0, "+05")
         }
        } else {
         if i < 25 {
          Table::row(695768400, 21600, 0, "+06")
         } else {
          Table::row(701812800, 18000, 3600, "+06")
         }
        }
       }
      }
     }
    } else {
     if i < 39 {
      if i < 32 {
       if i < 29 {
        if i < 27 {
         Table::row(717541200, 18000, 0, "+05")
        } else {
         if i < 28 {
          Table::row(733266000, 18000, 3600, "+06")
         } else {
          Table::row(748990800, 18000, 0, "+05")
         }
        }
       } else {
        if i < 30 {
         Table::row(764715600, 18000, 3600, "+06")
        } else {
         if i < 31 {
          Table::row(780440400, 18000, 0, "+05")
         } else {
          Table::row(796165200, 18000, 3600, "+06")
         }
        }
       }
      } else {
       if i < 35 {
        if i < 33 {
         Table::row(811890000, 18000, 0, "+05")
        } else {
         if i < 34 {
          Table::row(828219600, 18000, 3600, "+06")
         } else {
          Table::row(846363600, 18000, 0, "+05")
         }
        }
       } else {
        if i < 37 {
         if i < 36 {
          Table::row(859669200, 18000, 3600, "+06")
         } else {
          Table::row(877813200, 18000, 0, "+05")
         }
        } else {
         if i < 38 {
          Table::row(891118800, 18000, 3600, "+06")
         } else {
          Table::row(909262800, 18000, 0, "+05")
         }
        }
       }
      }
     } else {
      if i < 46 {
       if i < 42 {
        if i < 40 {
         Table::row(922568400, 18000, 3600, "+06")
        } else {
         if i < 41 {
          Table::row(941317200, 18000, 0, "+05")
         } else {
          Table::row(954018000, 18000, 3600, "+06")
         }
        }
       } else {
        if i < 44 {
         if i < 43 {
          Table::row(972766800, 18000, 0, "+05")
         } else {
          Table::row(985467600, 18000, 3600, "+06")
         }
        } else {
         if i < 45 {
          Table::row(1004216400, 18000, 0, "+05")
         } else {
          Table::row(1017522000, 18000, 3600, "+06")
         }
        }
       }
      } else {
       if i < 49 {
        if i < 47 {
         Table::row(1035666000, 18000, 0, "+05")
        } else {
         if i < 48 {
          Table::row(1048971600, 18000, 3600, "+06")
         } else {
          Table::row(1067115600, 18000, 0, "+05")
         }
        }
       } else {
        if i < 51 {
         if i < 50 {
          Table::row(1080421200, 18000, 3600, "+06")
         } else {
          Table::row(1099170000, 21600, 0, "+06")
         }
        } else {
         if i < 52 {
          Table::row(1545328800, 18000, 0, "+05")
         } else {
          Table::row(2147483647, 18000, 0, "+05")
         }
        }
       }
      }
     }
    }
}

/// The rows of the table of the zone `Asia/Qyzylorda`.
pub open spec fn qyzylorda_rows() -> spec_fn(int) -> (i64, FixedTimespan) {
    |i: int| qyzylorda_row(i)
}

/// The table of the zone `Asia/Qyzylorda`.
pub open spec fn qyzylorda() -> Table {
    Table::listed(Table::row(0, 15712, 0, "LMT").1, 53, qyzylorda_rows())
}

/// Row `i` of the table of the zone `Asia/Rangoon`.
pub open spec fn rangoon_row(i: int) -> (i64, FixedTimespan) {
    if i < 2 {
     if i < 1 {
      Table::row(-2840163887, 23087, 0, "RMT")
     } else {
      Table::row(-1577946287, 23400, 0, "+0630")
     }
    } else {
     if i < 3 {
      Table::row(-873268200, 32400, 0, "+09")
     } else {
      if i < 4 {
       Table::row(-778410000, 23400, 0, "+0630")
      } else {
       Table::row(2147483647, 23400, 0, "+0630")
      }
     }
    }
}

/// The rows of the table of the zone `Asia/Rangoon`.
pub open spec fn rangoon_rows() -> spec_fn(int) -> (i64, FixedTimespan) {
    |i: int| rangoon_row(i)
}

/// The table of the zone `Asia/Rangoon`.
pub open spec fn rangoon() -> Table {
    Table::listed(Table::row(0, 23087, 0, "LMT").1, 5, rangoon_rows())
}

/// Row `i` of the table of the zone `Asia/Riyadh`.
pub open spec fn riyadh_row(i: int) -> (i64, FixedTimespan) {
    if i < 1 {
     Table::row(-719636812, 10800, 0, "+03")
    } else {
     Table::row(2147483647, 10800, 0, "+03")
    }
}

/// The rows of the table of the zone `Asia/Riyadh`.
pub open spec fn riyadh_rows() -> spec_fn(int) -> (i64, FixedTimespan) {
    |i: int| riyadh_row(i)
}

/// The table of the zone `Asia/Riyadh`.
pub open spec fn riyadh() -> Table {
    Table::listed(Table::row(0, 11212, 0, "LMT").1, 2, riyadh_rows())
}

/// Row `i` of the table of the zone `Asia/Saigon`.
pub open spec fn saigon_row(i: int) -> (i64, FixedTimespan) {
    if i < 5 {
     if i < 2 {
      if i < 1 {
       Table::row(-2004073590, 25590, 0, "PLMT")
      } else {
       Table::row(-1851577590, 25200, 0, "+07")
      }
     } else {
      if i < 3 {
       Table::row(-852105600, 28800, 0, "+08")
      } else {
       if i < 4 {
        Table::row(-782643600, 32400, 0, "+09")
       } else {
        Table::row(-767869200, 25200, 0, "+07")
       }
      }
     }
    } else {
     if i < 7 {
      if i < 6 {
       Table::row(-718095600, 28800, 0, "+08")
      } else {
       Table::row(-457772400, 25200, 0, "+07")
      }
     } else {
      if i < 8 {
       Table::row(-315648000, 28800, 0, "+08")
      } else {
       if i < 9 {
        Table::row(171820800, 25200, 0, "+07")
       } else {
        Table::row(2147483647, 25200, 0, "+07")
       }
      }
     }
    }
}

/// The rows of the table of the zone `Asia/Saigon`.
pub open spec fn saigon_rows() -> spec_fn(int) -> (i64, FixedTimespan) {
    |i: int| saigon_row(i)
}

/// The table of the zone `Asia/Saigon`.
pub open spec fn saigon() -> Table {
    Table::listed(Table::row(0, 25590, 0, "LMT").1, 10, saigon_rows())
}

/// Row `i` of the table of the zone `Asia/Sakhalin`.
pub open spec fn sakhalin_row(i: int) -> (i64, FixedTimespan) {
    if i < 33 {
     if i < 16 {
      if i < 8 {
       if i < 4 {
        if i < 2 {
         if i < 1 {
          Table::row(-2031039048, 32400, 0, "+09")
         } else {
          Table::row(-768560400, 39600, 0, "+11")
         }
        } else {
         if i < 3 {
          Table::row(354891600, 39600, 3600, "+12")
         } else {
          Table::row(370699200, 39600, 0, "+11")
         }
        }
       } else {
        if i < 6 {
         if i < 5 {
          Table::row(386427600, 39600, 3600, "+12")
         } else {
          Table::row(402235200, 39600, 0, "+11")
         }
        } else {
         if i < 7 {
          Table::row(417963600, 39600, 3600, "+12")
         } else {
          Table::row(433771200, 39600, 0, "+11")
         }
        }
       }
      } else {
       if i < 12 {
        if i < 10 {
         if i < 9 {
          Table::row(449586000, 39600, 3600, "+12")
         } else {
          Table::row(465318000, 39600, 0, "+11")
         }
        } else {
         if i < 11 {
          Table::row(481042800, 39600, 3600, "+12")
         } else {
          Table::row(496767600, 39600, 0, "+11")
         }
        }
       } else {
        if i < 14 {
         if i < 13 {
          Table::row(512492400, 39600, 3600, "+12")
         } else {
          Table::row(528217200, 39600, 0, "+11")
         }
        } else {
         if i < 15 {
          Table::row(543942000, 39600, 3600, "+12")
         } else {
          Table::row(559666800, 39600, 0, "+11")
         }
        }
       }
      }
     } else {
      if i < 24 {
       if i < 20 {
        if i < 18 {
         if i < 17 {
          Table::row(575391600, 39600, 3600, "+12")
         } else {
          Table::row(591116400, 39600, 0, "+11")
         }
        } else {
         if i < 19 {
          Table::row(606841200, 39600, 3600, "+12")
         } else {
          Table::row(622566000, 39600, 0, "+11")
         }
        }
       } else {
        if i < 22 {
         if i < 21 {
          Table::row(638290800, 39600, 3600, "+12")
         } else {
          Table::row(654620400, 39600, 0, "+11")
         }
        } else {
         if i < 23 {
          Table::row(670345200, 36000, 3600, "+11")
         } else {
          Table::row(686073600, 36000, 0, "+10")
         }
        }
       }
      } else {
       if i < 28 {
        if i < 26 {
         if i < 25 {
          Table::row(695750400, 39600, 0, "+11")
         } else {
          Table::row(701794800, 39600, 3600, "+12")
         }
        } else {
         if i < 27 {
          Table::row(717519600, 39600, 0, "+11")
         } else {
          Table::row(733244400, 39600, 3600, "+12")
         }
        }
       } else {
        if i < 30 {
         if i < 29 {
          Table::row(748969200, 39600, 0, "+11")
         } else {
          Table::row(764694000, 39600, 3600, "+12")
         }
        } else {
         if i < 31 {
          Table::row(780418800, 39600, 0, "+11")
         } else {
          if i < 32 {
           Table::row(796143600, 39600, 3600, "+12")
          } else {
           Table::row(811868400, 39600, 0, "+11")
          }
         }
        }
       }
      }
     }
    } else {
     if i < 50 {
      if i < 41 {
       if i < 37 {
        if i < 35 {
         if i < 34 {
          Table::row(828198000, 39600, 3600, "+12")
         } else {
          Table::row(846342000, 39600, 0, "+11")
         }
        } else {
         if i < 36 {
          Table::row(859647600, 36000, 3600, "+11")
         } else {
          Table::row(877795200, 36000, 0, "+10")
         }
        }
       } else {
        if i < 39 {
         if i < 38 {
          Table::row(891100800, 36000, 3600, "+11")
         } else {
          Table::row(909244800, 36000, 0, "+10")
         }
        } else {
         if i < 40 {
          Table::row(922550400, 36000, 3600, "+11")
         } else {
          Table::row(941299200, 36000, 0, "+10")
         }
        }
       }
      } else {
       if i < 45 {
        if i < 43 {
         if i < 42 {
          Table::row(954000000, 36000, 3600, "+11")
         } else {
          Table::row(972748800, 36000, 0, "+10")
         }
        } else {
         if i < 44 {
          Table::row(985449600, 36000, 3600, "+11")
         } else {
          Table::row(1004198400, 36000, 0, "+10")
         }
        }
       } else {
        if i < 47 {
         if i < 46 {
          Table::row(1017504000, 36000, 3600, "+11")
         } else {
          Table::row(1035648000, 36000, 0, "+10")
         }
        } else {
         if i < 48 {
          Table::row(1048953600, 36000, 3600, "+11")
         } else {
          if i < 49 {
           Table::row(1067097600, 36000, 0, "+10")
          } else {
           Table::row(1080403200, 36000, 3600, "+11")
          }
         }
        }
       }
      }
     } else {
      if i < 58 {
       if i < 54 {
        if i < 52 {
         if i < 51 {
          Table::row(1099152000, 36000, 0, "+10")
         } else {
          Table::row(1111852800, 36000, 3600, "+11")
         }
        } else {
         if i < 53 {
          Table::row(1130601600, 36000, 0, "+10")
         } else {
          Table::row(1143302400, 36000, 3600, "+11")
         }
        }
       } else {
        if i < 56 {
         if i < 55 {
          Table::row(1162051200, 36000, 0, "+10")
         } else {
          Table::row(1174752000, 36000, 3600, "+11")
         }
        } else {
         if i < 57 {
          Table::row(1193500800, 36000, 0, "+10")
         } else {
          Table::row(1206806400, 36000, 3600, "+11")
         }
        }
       }
      } else {
       if i < 62 {
        if i < 60 {
         if i < 59 {
          Table::row(1224950400, 36000, 0, "+10")
         } else {
          Table::row(1238256000, 36000, 3600, "+11")
         }
        } else {
         if i < 61 {
          Table::row(1256400000, 36000, 0, "+10")
         } else {
          Table::row(1269705600, 36000, 3600, "+11")
         }
        }
       } else {
        if i < 64 {
         if i < 63 {
          Table::row(1288454400, 36000, 0, "+10")
         } else {
          Table::row(1301155200, 39600, 0, "+11")
         }
        } else {
         if i < 65 {
          Table::row(1414249200, 36000, 0, "+10")
         } else {
          if i < 66 {
           Table::row(1459008000, 39600, 0, "+11")
          } else {
           Table::row(2147483647, 39600, 0, "+11")
          }
         }
        }
       }
      }
     }
    }
}

/// The rows of the table of the zone `Asia/Sakhalin`.
pub open spec fn sakhalin_rows() -> spec_fn(int) -> (i64, FixedTimespan) {
    |i: int| sakhalin_row(i)
}

/// The table of the zone `Asia/Sakhalin`.
pub open spec fn sakhalin() -> Table {
    Table::listed(Table::row(0, 34248, 0, "LMT").1, 67, sakhalin_rows())
}

/// Row `i` of the table of the zone `Asia/Samarkand`.
pub open spec fn samarkand_row(i: int) -> (i64, FixedTimespan) {
    if i < 12 {
     if i < 6 {
      if i < 3 {
       if i < 1 {
        Table::row(-1441168073, 14400, 0, "+04")
       } else {
        if i < 2 {
         Table::row(-1247544000, 18000, 0, "+05")
        } else {
         Table::row(354913200, 18000, 3600, "+06")
        }
       }
      } else {
       if i < 4 {
        Table::row(370720800, 21600, 0, "+06")
       } else {
        if i < 5 {
         Table::row(386445600, 18000, 3600, "+06")
        } else {
         Table::row(402256800, 18000, 0, "+05")
        }
       }
      }
     } else {
      if i < 9 {
       if i < 7 {
        Table::row(417985200, 18000, 3600, "+06")
       } else {
        if i < 8 {
         Table::row(433792800, 18000, 0, "+05")
        } else {
         Table::row(449607600, 18000, 3600, "+06")
        }
       }
      } else {
       if i < 10 {
        Table::row(465339600, 18000, 0, "+05")
       } else {
        if i < 11 {
         Table::row(481064400, 18000, 3600, "+06")
        } else {
         Table::row(496789200, 18000, 0, "+05")
        }
       }
      }
     }
    } else {
     if i < 18 {
      if i < 15 {
       if i < 13 {
        Table::row(512514000, 18000, 3600, "+06")
       } else {
        if i < 14 {
         Table::row(528238800, 18000, 0, "+05")
        } else {
         Table::row(543963600, 18000, 3600, "+06")
        }
       }
      } else {
       if i < 16 {
        Table::row(559688400, 18000, 0, "+05")
       } else {
        if i < 17 {
         Table::row(575413200, 18000, 3600, "+06")
        } else {
         Table::row(591138000, 18000, 0, "+05")
        }
       }
      }
     } else {
      if i < 21 {
       if i < 19 {
        Table::row(606862800, 18000, 3600, "+06")
       } else {
        if i < 20 {
         Table::row(622587600, 18000, 0, "+05")
        } else {
         Table::row(638312400, 18000, 3600, "+06")
        }
       }
      } else {
       if i < 23 {
        if i < 22 {
         Table::row(654642000, 18000, 0, "+05")
        } else {
         Table::row(670366800, 18000, 3600, "+06")
        }
       } else {
        if i < 24 {
         Table::row(686091600, 18000, 0, "+05")
        } else {
         Table::row(2147483647, 18000, 0, "+05")
        }
       }
      }
     }
    }
}

/// The rows of the table of the zone `Asia/Samarkand`.
pub open spec fn samarkand_rows() -> spec_fn(int) -> (i64, FixedTimespan) {
    |i: int| samarkand_row(i)
}

/// The table of the zone `Asia/Samarkand`.
pub open spec fn samarkand() -> Table {
    Table::listed(Table::row(0, 16073, 0, "LMT").1, 25, samarkand_rows())
}

/// Row `i` of the table of the zone `Asia/Seoul`.
pub open spec fn seoul_row(i: int) -> (i64, FixedTimespan) {
    if i < 14 {
     if i < 7 {
      if i < 3 {
       if i < 1 {
        Table::row(-1948782472, 30600, 0, "KST")
       } else {
        if i < 2 {
         Table::row(-1830414600, 32400, 0, "JST")
        } else {
         Table::row(-767350800, 32400, 0, "KST")
        }
       }
      } else {
       if i < 5 {
        if i < 4 {
         Table::row(-681210000, 32400, 3600, "KDT")
        } else {
         Table::row(-672228000, 32400, 0, "KST")
        }
       } else {
        if i < 6 {
         Table::row(-654771600, 32400, 3600, "KDT")
        } else {
         Table::row(-640864800, 32400, 0, "KST")
        }
       }
      }
     } else {
      if i < 10 {
       if i < 8 {
        Table::row(-623408400, 32400, 3600, "KDT")
       } else {
        if i < 9 {
         Table::row(-609415200, 32400, 0, "KST")
        } else {
         Table::row(-588848400, 32400, 3600, "KDT")
        }
       }
      } else {
       if i < 12 {
        if i < 11 {
         Table::row(-577965600, 32400, 0, "KST")
        } else {
         Table::row(-498128400, 30600, 0, "KST")
        }
       } else {
        if i < 13 {
         Table::row(-462702600, 30600, 3600, "KDT")
        } else {
         Table::row(-451733400, 30600, 0, "KST")
        }
       }
      }
     }
    } else {
     if i < 21 {
      if i < 17 {
       if i < 15 {
        Table::row(-429784200, 30600, 3600, "KDT")
       } else {
        if i < 16 {
         Table::row(-418296600, 30600, 0, "KST")
        } else {
         Table::row(-399544200, 30600, 3600, "KDT")
        }
       }
      } else {
       if i < 19 {
        if i < 18 {
         Table::row(-387451800, 30600, 0, "KST")
        } else {
         Table::row(-368094600, 30600, 3600, "KDT")
        }
       } else {
        if i < 20 {
         Table::row(-356002200, 30600, 0, "KST")
        } else {
         Table::row(-336645000, 30600, 3600, "KDT")
        }
       }
      }
     } else {
      if i < 25 {
       if i < 23 {
        if i < 22 {
         Table::row(-324552600, 30600, 0, "KST")
        } else {
         Table::row(-305195400, 30600, 3600, "KDT")
        }
       } else {
        if i < 24 {
         Table::row(-293103000, 30600, 0, "KST")
        } else {
         Table::row(-264933000, 32400, 0, "KST")
        }
       }
      } else {
       if i < 27 {
        if i < 26 {
         Table::row(547578000, 32400, 3600, "KDT")
        } else {
         Table::row(560883600, 32400, 0, "KST")
        }
       } else {
        if i < 28 {
         Table::row(579027600, 32400, 3600, "KDT")
        } else {
         Table::row(592333200, 32400, 0, "KST")
        }
       }
      }
     }
    }
}

/// The rows of the table of the zone `Asia/Seoul`.
pub open spec fn seoul_rows() -> spec_fn(int) -> (i64, FixedTimespan) {
    |i: int| seoul_row(i)
}

/// The table of the zone `Asia/Seoul`.
pub open spec fn seoul() -> Table {
    Table::listed(Table::row(0, 30472, 0, "LMT").1, 29, seoul_rows())
}

/// Row `i` of the table of the zone `Asia/Shanghai`.
pub open spec fn shanghai_row(i: int) -> (i64, FixedTimespan) {
    if i < 14 {
     if i < 7 {
      if i < 3 {
       if i < 1 {
        Table::row(-2177481943, 28800, 0, "CST")
       } else {
        if i < 2 {
         Table::row(-1600675200, 28800, 3600, "CDT")
        } else {
         Table::row(-1585904400, 28800, 0, "CST")
        }
       }
      } else {
       if i < 5 {
        if i < 4 {
         Table::row(-933667200, 28800, 3600, "CDT")
        } else {
         Table::row(-922093200, 28800, 0, "CST")
        }
       } else {
        if i < 6 {
         Table::row(-908870400, 28800, 3600, "CDT")
        } else {
         Table::row(-888829200, 28800, 0, "CST")
        }
       }
      }
     } else {
      if i < 10 {
       if i < 8 {
        Table::row(-881049600, 28800, 3600, "CDT")
       } else {
        if i < 9 {
         Table::row(-767869200, 28800, 0, "CST")
        } else {
         Table::row(-745833600, 28800, 3600, "CDT")
        }
       }
      } else {
       if i < 12 {
        if i < 11 {
         Table::row(-733827600, 28800, 0, "CST")
        } else {
         Table::row(-716889600, 28800, 3600, "CDT")
        }
       } else {
        if i < 13 {
         Table::row(-699613200, 28800, 0, "CST")
        } else {
         Table::row(-683884800, 28800, 3600, "CDT")
        }
       }
      }
     }
    } else {
     if i < 21 {
      if i < 17 {
       if i < 15 {
        Table::row(-670669200, 28800, 0, "CST")
       } else {
        if i < 16 {
         Table::row(-652348800, 28800, 3600, "CDT")
        } else {
         Table::row(-650019600, 28800, 0, "CST")
        }
       }
      } else {
       if i < 19 {
        if i < 18 {
         Table::row(515527200, 28800, 3600, "CDT")
        } else {
         Table::row(527014800, 28800, 0, "CST")
        }
       } else {
        if i < 20 {
         Table::row(545162400, 28800, 3600, "CDT")
        } else {
         Table::row(558464400, 28800, 0, "CST")
        }
       }
      }
     } else {
      if i < 25 {
       if i < 23 {
        if i < 22 {
         Table::row(577216800, 28800, 3600, "CDT")
        } else {
         Table::row(589914000, 28800, 0, "CST")
        }
       } else {
        if i < 24 {
         Table::row(608666400, 28800, 3600, "CDT")
        } else {
         Table::row(621968400, 28800, 0, "CST")
        }
       }
      } else {
       if i < 27 {
        if i < 26 {
         Table::row(640116000, 28800, 3600, "CDT")
        } else {
         Table::row(653418000, 28800, 0, "CST")
        }
       } else {
        if i < 28 {
         Table::row(671565600, 28800, 3600, "CDT")
        } else {
         Table::row(684867600, 28800, 0, "CST")
        }
       }
      }
     }
    }
}

/// The rows of the table of the zone `Asia/Shanghai`.
pub open spec fn shanghai_rows() -> spec_fn(int) -> (i64, FixedTimespan) {
    |i: int| shanghai_row(i)
}

/// The table of the zone `Asia/Shanghai`.
pub open spec fn shanghai() -> Table {
    Table::listed(Table::row(0, 29143, 0, "LMT").1, 29, shanghai_rows())
}

/// Row `i` of the table of the zone `Asia/Singapore`.
pub open spec fn singapore_row(i: int) -> (i64, FixedTimespan) {
    if i < 4 {
     if i < 2 {
      if i < 1 {
       Table::row(-2177477725, 24925, 0, "SMT")
      } else {
       Table::row(-2038200925, 25200, 0, "+07")
      }
     } else {
      if i < 3 {
       Table::row(-1167634800, 25200, 1200, "+0720")
      } else {
       Table::row(-1073028000, 26400, 0, "+0720")
      }
     }
    } else {
     if i < 6 {
      if i < 5 {
       Table::row(-894180000, 27000, 0, "+0730")
      } else {
       Table::row(-879665400, 32400, 0, "+09")
      }
     } else {
      if i < 7 {
       Table::row(-767005200, 27000, 0, "+0730")
      } else {
       if i < 8 {
        Table::row(378662400, 28800, 0, "+08")
       } else {
        Table::row(2147483647, 28800, 0, "+08")
       }
      }
     }
    }
}

/// The rows of the table of the zone `Asia/Singapore`.
pub open spec fn singapore_rows() -> spec_fn(int) -> (i64, FixedTimespan) {
    |i: int| singapore_row(i)
}

/// The table of the zone `Asia/Singapore`.
pub open spec fn singapore() -> Table {
    Table::listed(Table::row(0, 24925, 0, "LMT").1, 9, singapore_rows())
}

/// Row `i` of the table of the zone `Asia/Srednekolymsk`.
pub open spec fn srednekolymsk_row(i: int) -> (i64, FixedTimespan) {
    if i < 33 {
     if i < 16 {
      if i < 8 {
       if i < 4 {
        if i < 2 {
         if i < 1 {
          Table::row(-1441188892, 36000, 0, "+10")
         } else {
          Table::row(-1247565600, 39600, 0, "+11")
         }
        } else {
         if i < 3 {
          Table::row(354891600, 39600, 3600, "+12")
         } else {
          Table::row(370699200, 39600, 0, "+11")
         }
        }
       } else {
        if i < 6 {
         if i < 5 {
          Table::row(386427600, 39600, 3600, "+12")
         } else {
          Table::row(402235200, 39600, 0, "+11")
         }
        } else {
         if i < 7 {
          Table::row(417963600, 39600, 3600, "+12")
         } else {
          Table::row(433771200, 39600, 0, "+11")
         }
        }
       }
      } else {
       if i < 12 {
        if i < 10 {
         if i < 9 {
          Table::row(449586000, 39600, 3600, "+12")
         } else {
          Table::row(465318000, 39600, 0, "+11")
         }
        } else {
         if i < 11 {
          Table::row(481042800, 39600, 3600, "+12")
         } else {
          Table::row(496767600, 39600, 0, "+11")
         }
        }
       } else {
        if i < 14 {
         if i < 13 {
          Table::row(512492400, 39600, 3600, "+12")
         } else {
          Table::row(528217200, 39600, 0, "+11")
         }
        } else {
         if i < 15 {
          Table::row(543942000, 39600, 3600, "+12")
         } else {
          Table::row(559666800, 39600, 0, "+11")
         }
        }
       }
      }
     } else {
      if i < 24 {
       if i < 20 {
        if i < 18 {
         if i < 17 {
          Table::row(575391600, 39600, 3600, "+12")
         } else {
          Table::row(591116400, 39600, 0, "+11")
         }
        } else {
         if i < 19 {
          Table::row(606841200, 39600, 3600, "+12")
         } else {
          Table::row(622566000, 39600, 0, "+11")
         }
        }
       } else {
        if i < 22 {
         if i < 21 {
          Table::row(638290800, 39600, 3600, "+12")
         } else {
          Table::row(654620400, 39600, 0, "+11")
         }
        } else {
         if i < 23 {
          Table::row(670345200, 36000, 3600, "+11")
         } else {
          Table::row(686073600, 36000, 0, "+10")
         }
        }
       }
      } else {
       if i < 28 {
        if i < 26 {
         if i < 25 {
          Table::row(695750400, 39600, 0, "+11")
         } else {
          Table::row(701794800, 39600, 3600, "+12")
         }
        } else {
         if i < 27 {
          Table::row(717519600, 39600, 0, "+11")
         } else {
          Table::row(733244400, 39600, 3600, "+12")
         }
        }
       } else {
        if i < 30 {
         if i < 29 {
          Table::row(748969200, 39600, 0, "+11")
         } else {
          Table::row(764694000, 39600, 3600, "+12")
         }
        } else {
         if i < 31 {
          Table::row(780418800, 39600, 0, "+11")
         } else {
          if i < 32 {
           Table::row(796143600, 39600, 3600, "+12")
          } else {
           Table::row(811868400, 39600, 0, "+11")
          }
         }
        }
       }
      }
     }
    } else {
     if i < 49 {
      if i < 41 {
       if i < 37 {
        if i < 35 {
         if i < 34 {
          Table::row(828198000, 39600, 3600, "+12")
         } else {
          Table::row(846342000, 39600, 0, "+11")
         }
        } else {
         if i < 36 {
          Table::row(859647600, 39600, 3600, "+12")
         } else {
          Table::row(877791600, 39600, 0, "+11")
         }
        }
       } else {
        if i < 39 {
         if i < 38 {
          Table::row(891097200, 39600, 3600, "+12")
         } else {
          Table::row(909241200, 39600, 0, "+11")
         }
        } else {
         if i < 40 {
          Table::row(922546800, 39600, 3600, "+12")
         } else {
          Table::row(941295600, 39600, 0, "+11")
         }
        }
       }
      } else {
       if i < 45 {
        if i < 43 {
         if i < 42 {
          Table::row(953996400, 39600, 3600, "+12")
         } else {
          Table::row(972745200, 39600, 0, "+11")
         }
        } else {
         if i < 44 {
          Table::row(985446000, 39600, 3600, "+12")
         } else {
          Table::row(1004194800, 39600, 0, "+11")
         }
        }
       } else {
        if i < 47 {
         if i < 46 {
          Table::row(1017500400, 39600, 3600, "+12")
         } else {
          Table::row(1035644400, 39600, 0, "+11")
         }
        } else {
         if i < 48 {
          Table::row(1048950000, 39600, 3600, "+12")
         } else {
          Table::row(1067094000, 39600, 0, "+11")
         }
        }
       }
      }
     } else {
      if i < 57 {
       if i < 53 {
        if i < 51 {
         if i < 50 {
          Table::row(1080399600, 39600, 3600, "+12")
         } else {
          Table::row(1099148400, 39600, 0, "+11")
         }
        } else {
         if i < 52 {
          Table::row(1111849200, 39600, 3600, "+12")
         } else {
          Table::row(1130598000, 39600, 0, "+11")
         }
        }
       } else {
        if i < 55 {
         if i < 54 {
          Table::row(1143298800, 39600, 3600, "+12")
         } else {
          Table::row(1162047600, 39600, 0, "+11")
         }
        } else {
         if i < 56 {
          Table::row(1174748400, 39600, 3600, "+12")
         } else {
          Table::row(1193497200, 39600, 0, "+11")
         }
        }
       }
      } else {
       if i < 61 {
        if i < 59 {
         if i < 58 {
          Table::row(1206802800, 39600, 3600, "+12")
         } else {
          Table::row(1224946800, 39600, 0, "+11")
         }
        } else {
         if i < 60 {
          Table::row(1238252400, 39600, 3600, "+12")
         } else {
          Table::row(1256396400, 39600, 0, "+11")
         }
        }
       } else {
        if i < 63 {
         if i < 62 {
          Table::row(1269702000, 39600, 3600, "+12")
         } else {
          Table::row(1288450800, 39600, 0, "+11")
         }
        } else {
         if i < 64 {
          Table::row(1301151600, 43200, 0, "+12")
         } else {
          if i < 65 {
           Table::row(1414245600, 39600, 0, "+11")
          } else {
           Table::row(2147483647, 39600, 0, "+11")
          }
         }
        }
       }
      }
     }
    }
}

/// The rows of the table of the zone `Asia/Srednekolymsk`.
pub open spec fn srednekolymsk_rows() -> spec_fn(int) -> (i64, FixedTimespan) {
    |i: int| srednekolymsk_row(i)
}

/// The table of the zone `Asia/Srednekolymsk`.
pub open spec fn srednekolymsk() -> Table {
    Table::listed(Table::row(0, 36892, 0, "LMT").1, 66, srednekolymsk_rows())
}

/// Row `i` of the table of the zone `Asia/Taipei`.
pub open spec fn taipei_row(i: int) -> (i64, FixedTimespan) {
    if i < 20 {
     if i < 10 {
      if i < 5 {
       if i < 2 {
        if i < 1 {
         Table::row(-2335248360, 28800, 0, "CST")
        } else {
         Table::row(-1017820800, 32400, 0, "JST")
        }
       } else {
        if i < 3 {
         Table::row(-766224000, 28800, 0, "CST")
        } else {
         if i < 4 {
          Table::row(-745833600, 28800, 3600, "CDT")
         } else {
          Table::row(-733827600, 28800, 0, "CST")
         }
        }
       }
      } else {
       if i < 7 {
        if i < 6 {
         Table::row(-716889600, 28800, 3600, "CDT")
        } else {
         Table::row(-699613200, 28800, 0, "CST")
        }
       } else {
        if i < 8 {
         Table::row(-683884800, 28800, 3600, "CDT")
        } else {
         if i < 9 {
          Table::row(-670669200, 28800, 0, "CST")
         } else {
          Table::row(-652348800, 28800, 3600, "CDT")
         }
        }
       }
      }
     } else {
      if i < 15 {
       if i < 12 {
        if i < 11 {
         Table::row(-639133200, 28800, 0, "CST")
        } else {
         Table::row(-620812800, 28800, 3600, "CDT")
        }
       } else {
        if i < 13 {
         Table::row(-607597200, 28800, 0, "CST")
        } else {
         if i < 14 {
          Table::row(-589276800, 28800, 3600, "CDT")
         } else {
          Table::row(-576061200, 28800, 0, "CST")
         }
        }
       }
      } else {
       if i < 17 {
        if i < 16 {
         Table::row(-562924800, 28800, 3600, "CDT")
        } else {
         Table::row(-541760400, 28800, 0, "CST")
        }
       } else {
        if i < 18 {
         Table::row(-528710400, 28800, 3600, "CDT")
        } else {
         if i < 19 {
          Table::row(-510224400, 28800, 0, "CST")
         } else {
          Table::row(-497174400, 28800, 3600, "CDT")
         }
        }
       }
      }
     }
    } else {
     if i < 30 {
      if i < 25 {
       if i < 22 {
        if i < 21 {
         Table::row(-478688400, 28800, 0, "CST")
        } else {
         Table::row(-465638400, 28800, 3600, "CDT")
        }
       } else {
        if i < 23 {
         Table::row(-449830800, 28800, 0, "CST")
        } else {
         if i < 24 {
          Table::row(-434016000, 28800, 3600, "CDT")
         } else {
          Table::row(-418208400, 28800, 0, "CST")
         }
        }
       }
      } else {
       if i < 27 {
        if i < 26 {
         Table::row(-402480000, 28800, 3600, "CDT")
        } else {
         Table::row(-386672400, 28800, 0, "CST")
        }
       } else {
        if i < 28 {
         Table::row(-370944000, 28800, 3600, "CDT")
        } else {
         if i < 29 {
          Table::row(-355136400, 28800, 0, "CST")
         } else {
          Table::row(-339408000, 28800, 3600, "CDT")
         }
        }
       }
      }
     } else {
      if i < 35 {
       if i < 32 {
        if i < 31 {
         Table::row(-323600400, 28800, 0, "CST")
        } else {
         Table::row(-302515200, 28800, 3600, "CDT")
        }
       } else {
        if i < 33 {
         Table::row(-291978000, 28800, 0, "CST")
        } else {
         if i < 34 {
          Table::row(-270979200, 28800, 3600, "CDT")
         } else {
          Table::row(-260442000, 28800, 0, "CST")
         }
        }
       }
      } else {
       if i < 38 {
        if i < 36 {
         Table::row(133977600, 28800, 3600, "CDT")
        } else {
         if i < 37 {
          Table::row(149785200, 28800, 0, "CST")
         } else {
          Table::row(165513600, 28800, 3600, "CDT")
         }
        }
       } else {
        if i < 39 {
         Table::row(181321200, 28800, 0, "CST")
        } else {
         if i < 40 {
          Table::row(299606400, 28800, 3600, "CDT")
         } else {
          Table::row(307551600, 28800, 0, "CST")
         }
        }
       }
      }
     }
    }
}

/// The rows of the table of the zone `Asia/Taipei`.
pub open spec fn taipei_rows() -> spec_fn(int) -> (i64, FixedTimespan) {
    |i: int| taipei_row(i)
}

/// The table of the zone `Asia/Taipei`.
pub open spec fn taipei() -> Table {
    Table::listed(Table::row(0, 29160, 0, "LMT").1, 41, taipei_rows())
}

/// Row `i` of the table of the zone `Asia/Tashkent`.
pub open spec fn tashkent_row(i: int) -> (i64, FixedTimespan) {
    if i < 12 {
     if i < 6 {
      if i < 3 {
       if i < 1 {
        Table::row(-1441168631, 18000, 0, "+05")
       } else {
        if i < 2 {
         Table::row(-1247547600, 21600, 0, "+06")
        } else {
         Table::row(354909600, 21600, 3600, "+07")
        }
       }
      } else {
       if i < 4 {
        Table::row(370717200, 21600, 0, "+06")
       } else {
        if i < 5 {
         Table::row(386445600, 21600, 3600, "+07")
        } else {
         Table::row(402253200, 21600, 0, "+06")
        }
       }
      }
     } else {
      if i < 9 {
       if i < 7 {
        Table::row(417981600, 21600, 3600, "+07")
       } else {
        if i < 8 {
         Table::row(433789200, 21600, 0, "+06")
        } else {
         Table::row(449604000, 21600, 3600, "+07")
        }
       }
      } else {
       if i < 10 {
        Table::row(465336000, 21600, 0, "+06")
       } else {
        if i < 11 {
         Table::row(481060800, 21600, 3600, "+07")
        } else {
         Table::row(496785600, 21600, 0, "+06")
        }
       }
      }
     }
    } else {
     if i < 18 {
      if i < 15 {
       if i < 13 {
        Table::row(512510400, 21600, 3600, "+07")
       } else {
        if i < 14 {
         Table::row(528235200, 21600, 0, "+06")
        } else {
         Table::row(543960000, 21600, 3600, "+07")
        }
       }
      } else {
       if i < 16 {
        Table::row(559684800, 21600, 0, "+06")
       } else {
        if i < 17 {
         Table::row(575409600, 21600, 3600, "+07")
        } else {
         Table::row(591134400, 21600, 0, "+06")
        }
       }
      }
     } else {
      if i < 21 {
       if i < 19 {
        Table::row(606859200, 21600, 3600, "+07")
       } else {
        if i < 20 {
         Table::row(622584000, 21600, 0, "+06")
        } else {
         Table::row(638308800, 21600, 3600, "+07")
        }
       }
      } else {
       if i < 23 {
        if i < 22 {
         Table::row(654638400, 21600, 0, "+06")
        } else {
         Table::row(670363200, 18000, 3600, "+06")
        }
       } else {
        if i < 24 {
         Table::row(686091600, 18000, 0, "+05")
        } else {
         Table::row(2147483647, 18000, 0, "+05")
        }
       }
      }
     }
    }
}

/// The rows of the table of the zone `Asia/Tashkent`.
pub open spec fn tashkent_rows() -> spec_fn(int) -> (i64, FixedTimespan) {
    |i: int| tashkent_row(i)
}

/// The table of the zone `Asia/Tashkent`.
pub open spec fn tashkent() -> Table {
    Table::listed(Table::row(0, 16631, 0, "LMT").1, 25, tashkent_rows())
}

/// Row `i` of the table of the zone `Asia/Tbilisi`.
pub open spec fn tbilisi_row(i: int) -> (i64, FixedTimespan) {
    if i < 26 {
     if i < 13 {
      if i < 6 {
       if i < 3 {
        if i < 1 {
         Table::row(-2840151551, 10751, 0, "TBMT")
        } else {
         if i < 2 {
          Table::row(-1441162751, 10800, 0, "+03")
         } else {
          Table::row(-405140400, 14400, 0, "+04")
         }
        }
       } else {
        if i < 4 {
         Table::row(354916800, 14400, 3600, "+05")
        } else {
         if i < 5 {
          Table::row(370724400, 14400, 0, "+04")
         } else {
          Table::row(386452800, 14400, 3600, "+05")
         }
        }
       }
      } else {
       if i < 9 {
        if i < 7 {
         Table::row(402260400, 14400, 0, "+04")
        } else {
         if i < 8 {
          Table::row(417988800, 14400, 3600, "+05")
         } else {
          Table::row(433796400, 14400, 0, "+04")
         }
        }
       } else {
        if i < 11 {
         if i < 10 {
          Table::row(449611200, 14400, 3600, "+05")
         } else {
          Table::row(465343200, 14400, 0, "+04")
         }
        } else {
         if i < 12 {
          Table::row(481068000, 14400, 3600, "+05")
         } else {
          Table::row(496792800, 14400, 0, "+04")
         }
        }
       }
      }
     } else {
      if i < 19 {
       if i < 16 {
        if i < 14 {
         Table::row(512517600, 14400, 3600, "+05")
        } else {
         if i < 15 {
          Table::row(528242400, 14400, 0, "+04")
         } else {
          Table::row(543967200, 14400, 3600, "+05")
         }
        }
       } else {
        if i < 17 {
         Table::row(559692000, 14400, 0, "+04")
        } else {
         if i < 18 {
          Table::row(575416800, 14400, 3600, "+05")
         } else {
          Table::row(591141600, 14400, 0, "+04")
         }
        }
       }
      } else {
       if i < 22 {
        if i < 20 {
         Table::row(606866400, 14400, 3600, "+05")
        } else {
         if i < 21 {
          Table::row(622591200, 14400, 0, "+04")
         } else {
          Table::row(638316000, 14400, 3600, "+05")
         }
        }
       } else {
        if i < 24 {
         if i < 23 {
          Table::row(654645600, 14400, 0, "+04")
         } else {
          Table::row(670370400, 10800, 3600, "+04")
         }
        } else {
         if i < 25 {
          Table::row(686098800, 10800, 0, "+03")
         } else {
          Table::row(701816400, 10800, 3600, "+04")
         }
        }
       }
      }
     }
    } else {
     if i < 39 {
      if i < 32 {
       if i < 29 {
        if i < 27 {
         Table::row(717537600, 10800, 0, "+03")
        } else {
         if i < 28 {
          Table::row(733266000, 10800, 3600, "+04")
         } else {
          Table::row(748987200, 10800, 0, "+03")
         }
        }
       } else {
        if i < 30 {
         Table::row(764715600, 10800, 3600, "+04")
        } else {
         if i < 31 {
          Table::row(780436800, 14400, 0, "+04")
         } else {
          Table::row(796161600, 14400, 3600, "+05")
         }
        }
       }
      } else {
       if i < 35 {
        if i < 33 {
         Table::row(811882800, 14400, 0, "+04")
        } else {
         if i < 34 {
          Table::row(828216000, 14400, 3600, "+05")
         } else {
          Table::row(859662000, 14400, 3600, "+05")
         }
        }
       } else {
        if i < 37 {
         if i < 36 {
          Table::row(877806000, 14400, 0, "+04")
         } else {
          Table::row(891115200, 14400, 3600, "+05")
         }
        } else {
         if i < 38 {
          Table::row(909255600, 14400, 0, "+04")
         } else {
          Table::row(922564800, 14400, 3600, "+05")
         }
        }
       }
      }
     } else {
      if i < 46 {
       if i < 42 {
        if i < 40 {
         Table::row(941310000, 14400, 0, "+04")
        } else {
         if i < 41 {
          Table::row(954014400, 14400, 3600, "+05")
         } else {
          Table::row(972759600, 14400, 0, "+04")
         }
        }
       } else {
        if i < 44 {
         if i < 43 {
          Table::row(985464000, 14400, 3600, "+05")
         } else {
          Table::row(1004209200, 14400, 0, "+04")
         }
        } else {
         if i < 45 {
          Table::row(1017518400, 14400, 3600, "+05")
         } else {
          Table::row(1035658800, 14400, 0, "+04")
         }
        }
       }
      } else {
       if i < 49 {
        if i < 47 {
         Table::row(1048968000, 14400, 3600, "+05")
        } else {
         if i < 48 {
          Table::row(1067108400, 14400, 0, "+04")
         } else {
          Table::row(1080417600, 14400, 3600, "+05")
         }
        }
       } else {
        if i < 51 {
         if i < 50 {
          Table::row(1088276400, 10800, 3600, "+04")
         } else {
          Table::row(1099177200, 10800, 0, "+03")
         }
        } else {
         if i < 52 {
          Table::row(1111878000, 14400, 0, "+04")
         } else {
          Table::row(2147483647, 14400, 0, "+04")
         }
        }
       }
      }
     }
    }
}

/// The rows of the table of the zone `Asia/Tbilisi`.
pub open spec fn tbilisi_rows() -> spec_fn(int) -> (i64, FixedTimespan) {
    |i: int| tbilisi_row(i)
}

/// The table of the zone `Asia/Tbilisi`.
pub open spec fn tbilisi() -> Table {
    Table::listed(Table::row(0, 10751, 0, "LMT").1, 53, tbilisi_rows())
}

/// Row `i` of the table of the zone `Asia/Tehran`.
pub open spec fn tehran_row(i: int) -> (i64, FixedTimespan) {
    if i < 36 {
     if i < 18 {
      if i < 9 {
       if i < 4 {
        if i < 2 {
         if i < 1 {
          Table::row(-1704165944, 12344, 0, "TMT")
         } else {
          Table::row(-1090466744, 12600, 0, "+0330")
         }
        } else {
         if i < 3 {
          Table::row(227820600, 12600, 3600, "+0430")
         } else {
          Table::row(246223800, 14400, 0, "+04")
         }
        }
       } else {
        if i < 6 {
         if i < 5 {
          Table::row(259617600, 14400, 3600, "+05")
         } else {
          Table::row(271108800, 14400, 0, "+04")
         }
        } else {
         if i < 7 {
          Table::row(279576000, 12600, 0, "+0330")
         } else {
          if i < 8 {
           Table::row(296598600, 12600, 3600, "+0430")
          } else {
           Table::row(306531000, 12600, 0, "+0330")
          }
         }
        }
       }
      } else {
       if i < 13 {
        if i < 11 {
         if i < 10 {
          Table::row(322432200, 12600, 3600, "+0430")
         } else {
          Table::row(338499000, 12600, 0, "+0330")
         }
        } else {
         if i < 12 {
          Table::row(673216200, 12600, 3600, "+0430")
         } else {
          Table::row(685481400, 12600, 0, "+0330")
         }
        }
       } else {
        if i < 15 {
         if i < 14 {
          Table::row(701209800, 12600, 3600, "+0430")
         } else {
          Table::row(717103800, 12600, 0, "+0330")
         }
        } else {
         if i < 16 {
          Table::row(732745800, 12600, 3600, "+0430")
         } else {
          if i < 17 {
           Table::row(748639800, 12600, 0, "+0330")
          } else {
           Table::row(764281800, 12600, 3600, "+0430")
          }
         }
        }
       }
      }
     } else {
      if i < 27 {
       if i < 22 {
        if i < 20 {
         if i < 19 {
          Table::row(780175800, 12600, 0, "+0330")
         } else {
          Table::row(795817800, 12600, 3600, "+0430")
         }
        } else {
         if i < 21 {
          Table::row(811711800, 12600, 0, "+0330")
         } else {
          Table::row(827353800, 12600, 3600, "+0430")
         }
        }
       } else {
        if i < 24 {
         if i < 23 {
          Table::row(843247800, 12600, 0, "+0330")
         } else {
          Table::row(858976200, 12600, 3600, "+0430")
         }
        } else {
         if i < 25 {
          Table::row(874870200, 12600, 0, "+0330")
         } else {
          if i < 26 {
           Table::row(890512200, 12600, 3600, "+0430")
          } else {
           Table::row(906406200, 12600, 0, "+0330")
          }
         }
        }
       }
      } else {
       if i < 31 {
        if i < 29 {
         if i < 28 {
          Table::row(922048200, 12600, 3600, "+0430")
         } else {
          Table::row(937942200, 12600, 0, "+0330")
         }
        } else {
         if i < 30 {
          Table::row(953584200, 12600, 3600, "+0430")
         } else {
          Table::row(969478200, 12600, 0, "+0330")
         }
        }
       } else {
        if i < 33 {
         if i < 32 {
          Table::row(985206600, 12600, 3600, "+0430")
         } else {
          Table::row(1001100600, 12600, 0, "+0330")
         }
        } else {
         if i < 34 {
          Table::row(1016742600, 12600, 3600, "+0430")
         } else {
          if i < 35 {
           Table::row(1032636600, 12600, 0, "+0330")
          } else {
           Table::row(1048278600, 12600, 3600, "+0430")
          }
         }
        }
       }
      }
     }
    } else {
     if i < 54 {
      if i < 45 {
       if i < 40 {
        if i < 38 {
         if i < 37 {
          Table::row(1064172600, 12600, 0, "+0330")
         } else {
          Table::row(1079814600, 12600, 3600, "+0430")
         }
        } else {
         if i < 39 {
          Table::row(1095708600, 12600, 0, "+0330")
         } else {
          Table::row(1111437000, 12600, 3600, "+0430")
         }
        }
       } else {
        if i < 42 {
         if i < 41 {
          Table::row(1127331000, 12600, 0, "+0330")
         } else {
          Table::row(1206045000, 12600, 3600, "+0430")
         }
        } else {
         if i < 43 {
          Table::row(1221939000, 12600, 0, "+0330")
         } else {
          if i < 44 {
           Table::row(1237667400, 12600, 3600, "+0430")
          } else {
           Table::row(1253561400, 12600, 0, "+0330")
          }
         }
        }
       }
      } else {
       if i < 49 {
        if i < 47 {
         if i < 46 {
          Table::row(1269203400, 12600, 3600, "+0430")
         } else {
          Table::row(1285097400, 12600, 0, "+0330")
         }
        } else {
         if i < 48 {
          Table::row(1300739400, 12600, 3600, "+0430")
         } else {
          Table::row(1316633400, 12600, 0, "+0330")
         }
        }
       } else {
        if i < 51 {
         if i < 50 {
          Table::row(1332275400, 12600, 3600, "+0430")
         } else {
          Table::row(1348169400, 12600, 0, "+0330")
         }
        } else {
         if i < 52 {
          Table::row(1363897800, 12600, 3600, "+0430")
         } else {
          if i < 53 {
           Table::row(1379791800, 12600, 0, "+0330")
          } else {
           Table::row(1395433800, 12600, 3600, "+0430")
          }
         }
        }
       }
      }
     } else {
      if i < 63 {
       if i < 58 {
        if i < 56 {
         if i < 55 {
          Table::row(1411327800, 12600, 0, "+0330")
         } else {
          Table::row(1426969800, 12600, 3600, "+0430")
         }
        } else {
         if i < 57 {
          Table::row(1442863800, 12600, 0, "+0330")
         } else {
          Table::row(1458505800, 12600, 3600, "+0430")
         }
        }
       } else {
        if i < 60 {
         if i < 59 {
          Table::row(1474399800, 12600, 0, "+0330")
         } else {
          Table::row(1490128200, 12600, 3600, "+0430")
         }
        } else {
         if i < 61 {
          Table::row(1506022200, 12600, 0, "+0330")
         } else {
          if i < 62 {
           Table::row(1521664200, 12600, 3600, "+0430")
          } else {
           Table::row(1537558200, 12600, 0, "+0330")
          }
         }
        }
       }
      } else {
       if i < 67 {
        if i < 65 {
         if i < 64 {
          Table::row(1553200200, 12600, 3600, "+0430")
         } else {
          Table::row(1569094200, 12600, 0, "+0330")
         }
        } else {
         if i < 66 {
          Table::row(1584736200, 12600, 3600, "+0430")
         } else {
          Table::row(1600630200, 12600, 0, "+0330")
         }
        }
       } else {
        if i < 69 {
         if i < 68 {
          Table::row(1616358600, 12600, 3600, "+0430")
         } else {
          Table::row(1632252600, 12600, 0, "+0330")
         }
        } else {
         if i < 70 {
          Table::row(1647894600, 12600, 3600, "+0430")
         } else {
          if i < 71 {
           Table::row(1663788600, 12600, 0, "+0330")
          } else {
           Table::row(2147483647, 12600, 0, "+0330")
          }
         }
        }
       }
      }
     }
    }
}

/// The rows of the table of the zone `Asia/Tehran`.
pub open spec fn tehran_rows() -> spec_fn(int) -> (i64, FixedTimespan) {
    |i: int| tehran_row(i)
}

/// The table of the zone `Asia/Tehran`.
pub open spec fn tehran() -> Table {
    Table::listed(Table::row(0, 12344, 0, "LMT").1, 72, tehran_rows())
}

/// Row `i` of the table of the zone `Asia/Tel_Aviv`.
pub open spec fn tel_aviv_row(i: int) -> (i64, FixedTimespan) {
    if i < 74 {
     if i < 37 {
      if i < 18 {
       if i < 9 {
        if i < 4 {
         if i < 2 {
          if i < 1 {
           Table::row(-2840149254, 8440, 0, "JMT")
          } else {
           Table::row(-1641003640, 7200, 0, "IST")
          }
         } else {
          if i < 3 {
           Table::row(-933638400, 7200, 3600, "IDT")
          } else {
           Table::row(-923097600, 7200, 0, "IST")
          }
         }
        } else {
         if i < 6 {
          if i < 5 {
           Table::row(-919036800, 7200, 3600, "IDT")
          } else {
           Table::row(-857347200, 7200, 0, "IST")
          }
         } else {
          if i < 7 {
           Table::row(-844300800, 7200, 3600, "IDT")
          } else {
           if i < 8 {
            Table::row(-825811200, 7200, 0, "IST")
           } else {
            Table::row(-812678400, 7200, 3600, "IDT")
           }
          }
         }
        }
       } else {
        if i < 13 {
         if i < 11 {
          if i < 10 {
           Table::row(-794188800, 7200, 0, "IST")
          } else {
           Table::row(-779846400, 7200, 3600, "IDT")
          }
         } else {
          if i < 12 {
           Table::row(-762652800, 7200, 0, "IST")
          } else {
           Table::row(-748310400, 7200, 3600, "IDT")
          }
         }
        } else {
         if i < 15 {
          if i < 14 {
           Table::row(-731116800, 7200, 0, "IST")
          } else {
           Table::row(-681955200, 7200, 7200, "IDDT")
          }
         } else {
          if i < 16 {
           Table::row(-673228800, 7200, 3600, "IDT")
          } else {
           if i < 17 {
            Table::row(-667958400, 7200, 0, "IST")
           } else {
            Table::row(-652320000, 7200, 3600, "IDT")
           }
          }
         }
        }
       }
      } else {
       if i < 27 {
        if i < 22 {
         if i < 20 {
          if i < 19 {
           Table::row(-636422400, 7200, 0, "IST")
          } else {
           Table::row(-622080000, 7200, 3600, "IDT")
          }
         } else {
          if i < 21 {
           Table::row(-608947200, 7200, 0, "IST")
          } else {
           Table::row(-591840000, 7200, 3600, "IDT")
          }
         }
        } else {
         if i < 24 {
          if i < 23 {
           Table::row(-572486400, 7200, 0, "IST")
          } else {
           Table::row(-558576000, 7200, 3600, "IDT")
          }
         } else {
          if i < 25 {
           Table::row(-542851200, 7200, 0, "IST")
          } else {
           if i < 26 {
            Table::row(-527731200, 7200, 3600, "IDT")
           } else {
            Table::row(-514425600, 7200, 0, "IST")
           }
          }
         }
        }
       } else {
        if i < 32 {
         if i < 29 {
          if i < 28 {
           Table::row(-490838400, 7200, 3600, "IDT")
          } else {
           Table::row(-482976000, 7200, 0, "IST")
          }
         } else {
          if i < 30 {
           Table::row(-459388800, 7200, 3600, "IDT")
          } else {
           if i < 31 {
            Table::row(-451526400, 7200, 0, "IST")
           } else {
            Table::row(-428544000, 7200, 3600, "IDT")
           }
          }
         }
        } else {
         if i < 34 {
          if i < 33 {
           Table::row(-418262400, 7200, 0, "IST")
          } else {
           Table::row(-400118400, 7200, 3600, "IDT")
          }
         } else {
          if i < 35 {
           Table::row(-387417600, 7200, 0, "IST")
          } else {
           if i < 36 {
            Table::row(142380000, 7200, 3600, "IDT")
           } else {
            Table::row(150843600, 7200, 0, "IST")
           }
          }
         }
        }
       }
      }
     } else {
      if i < 55 {
       if i < 46 {
        if i < 41 {
         if i < 39 {
          if i < 38 {
           Table::row(167176800, 7200, 3600, "IDT")
          } else {
           Table::row(178664400, 7200, 0, "IST")
          }
         } else {
          if i < 40 {
           Table::row(334101600, 7200, 3600, "IDT")
          } else {
           Table::row(337730400, 7200, 0, "IST")
          }
         }
        } else {
         if i < 43 {
          if i < 42 {
           Table::row(452642400, 7200, 3600, "IDT")
          } else {
           Table::row(462319200, 7200, 0, "IST")
          }
         } else {
          if i < 44 {
           Table::row(482277600, 7200, 3600, "IDT")
          } else {
           if i < 45 {
            Table::row(494370000, 7200, 0, "IST")
           } else {
            Table::row(516751200, 7200, 3600, "IDT")
           }
          }
         }
        }
       } else {
        if i < 50 {
         if i < 48 {
          if i < 47 {
           Table::row(526424400, 7200, 0, "IST")
          } else {
           Table::row(545436000, 7200, 3600, "IDT")
          }
         } else {
          if i < 49 {
           Table::row(558478800, 7200, 0, "IST")
          } else {
           Table::row(576626400, 7200, 3600, "IDT")
          }
         }
        } else {
         if i < 52 {
          if i < 51 {
           Table::row(589323600, 7200, 0, "IST")
          } else {
           Table::row(609890400, 7200, 3600, "IDT")
          }
         } else {
          if i < 53 {
           Table::row(620773200, 7200, 0, "IST")
          } else {
           if i < 54 {
            Table::row(638316000, 7200, 3600, "IDT")
           } else {
            Table::row(651618000, 7200, 0, "IST")
           }
          }
         }
        }
       }
      } else {
       if i < 64 {
        if i < 59 {
         if i < 57 {
          if i < 56 {
           Table::row(669765600, 7200, 3600, "IDT")
          } else {
           Table::row(683672400, 7200, 0, "IST")
          }
         } else {
          if i < 58 {
           Table::row(701820000, 7200, 3600, "IDT")
          } else {
           Table::row(715726800, 7200, 0, "IST")
          }
         }
        } else {
         if i < 61 {
          if i < 60 {
           Table::row(733701600, 7200, 3600, "IDT")
          } else {
           Table::row(747176400, 7200, 0, "IST")
          }
         } else {
          if i < 62 {
           Table::row(765151200, 7200, 3600, "IDT")
          } else {
           if i < 63 {
            Table::row(778021200, 7200, 0, "IST")
           } else {
            Table::row(796600800, 7200, 3600, "IDT")
           }
          }
         }
        }
       } else {
        if i < 69 {
         if i < 66 {
          if i < 65 {
           Table::row(810075600, 7200, 0, "IST")
          } else {
           Table::row(826840800, 7200, 3600, "IDT")
          }
         } else {
          if i < 67 {
           Table::row(842821200, 7200, 0, "IST")
          } else {
           if i < 68 {
            Table::row(858895200, 7200, 3600, "IDT")
           } else {
            Table::row(874184400, 7200, 0, "IST")
           }
          }
         }
        } else {
         if i < 71 {
          if i < 70 {
           Table::row(890344800, 7200, 3600, "IDT")
          } else {
           Table::row(905029200, 7200, 0, "IST")
          }
         } else {
          if i < 72 {
           Table::row(923011200, 7200, 3600, "IDT")
          } else {
           if i < 73 {
            Table::row(936313200, 7200, 0, "IST")
           } else {
            Table::row(955670400, 7200, 3600, "IDT")
           }
          }
         }
        }
       }
      }
     }
    } else {
     if i < 111 {
      if i < 92 {
       if i < 83 {
        if i < 78 {
         if i < 76 {
          if i < 75 {
           Table::row(970783200, 7200, 0, "IST")
          } else {
           Table::row(986770800, 7200, 3600, "IDT")
          }
         } else {
          if i < 77 {
           Table::row(1001282400, 7200, 0, "IST")
          } else {
           Table::row(1017356400, 7200, 3600, "IDT")
          }
         }
        } else {
         if i < 80 {
          if i < 79 {
           Table::row(1033941600, 7200, 0, "IST")
          } else {
           Table::row(1048806000, 7200, 3600, "IDT")
          }
         } else {
          if i < 81 {
           Table::row(1065132000, 7200, 0, "IST")
          } else {
           if i < 82 {
            Table::row(1081292400, 7200, 3600, "IDT")
           } else {
            Table::row(1095804000, 7200, 0, "IST")
           }
          }
         }
        }
       } else {
        if i < 87 {
         if i < 85 {
          if i < 84 {
           Table::row(1112313600, 7200, 3600, "IDT")
          } else {
           Table::row(1128812400, 7200, 0, "IST")
          }
         } else {
          if i < 86 {
           Table::row(1143763200, 7200, 3600, "IDT")
          } else {
           Table::row(1159657200, 7200, 0, "IST")
          }
         }
        } else {
         if i < 89 {
          if i < 88 {
           Table::row(1175212800, 7200, 3600, "IDT")
          } else {
           Table::row(1189897200, 7200, 0, "IST")
          }
         } else {
          if i < 90 {
           Table::row(1206662400, 7200, 3600, "IDT")
          } else {
           if i < 91 {
            Table::row(1223161200, 7200, 0, "IST")
           } else {
            Table::row(1238112000, 7200, 3600, "IDT")
           }
          }
         }
        }
       }
      } else {
       if i < 101 {
        if i < 96 {
         if i < 94 {
          if i < 93 {
           Table::row(1254006000, 7200, 0, "IST")
          } else {
           Table::row(1269561600, 7200, 3600, "IDT")
          }
         } else {
          if i < 95 {
           Table::row(1284246000, 7200, 0, "IST")
          } else {
           Table::row(1301616000, 7200, 3600, "IDT")
          }
         }
        } else {
         if i < 98 {
          if i < 97 {
           Table::row(1317510000, 7200, 0, "IST")
          } else {
           Table::row(1333065600, 7200, 3600, "IDT")
          }
         } else {
          if i < 99 {
           Table::row(1348354800, 7200, 0, "IST")
          } else {
           if i < 100 {
            Table::row(1364515200, 7200, 3600, "IDT")
           } else {
            Table::row(1382828400, 7200, 0, "IST")
           }
          }
         }
        }
       } else {
        if i < 106 {
         if i < 103 {
          if i < 102 {
           Table::row(1395964800, 7200, 3600, "IDT")
          } else {
           Table::row(1414278000, 7200, 0, "IST")
          }
         } else {
          if i < 104 {
           Table::row(1427414400, 7200, 3600, "IDT")
          } else {
           if i < 105 {
            Table::row(1445727600, 7200, 0, "IST")
           } else {
            Table::row(1458864000, 7200, 3600, "IDT")
           }
          }
         }
        } else {
         if i < 108 {
          if i < 107 {
           Table::row(1477782000, 7200, 0, "IST")
          } else {
           Table::row(1490313600, 7200, 3600, "IDT")
          }
         } else {
          if i < 109 {
           Table::row(1509231600, 7200, 0, "IST")
          } else {
           if i < 110 {
            Table::row(1521763200, 7200, 3600, "IDT")
           } else {
            Table::row(1540681200, 7200, 0, "IST")
           }
          }
         }
        }
       }
      }
     } else {
      if i < 130 {
       if i < 120 {
        if i < 115 {
         if i < 113 {
          if i < 112 {
           Table::row(1553817600, 7200, 3600, "IDT")
          } else {
           Table::row(1572130800, 7200, 0, "IST")
          }
         } else {
          if i < 114 {
           Table::row(1585267200, 7200, 3600, "IDT")
          } else {
           Table::row(1603580400, 7200, 0, "IST")
          }
         }
        } else {
         if i < 117 {
          if i < 116 {
           Table::row(1616716800, 7200, 3600, "IDT")
          } else {
           Table::row(1635634800, 7200, 0, "IST")
          }
         } else {
          if i < 118 {
           Table::row(1648166400, 7200, 3600, "IDT")
          } else {
           if i < 119 {
            Table::row(1667084400, 7200, 0, "IST")
           } else {
            Table::row(1679616000, 7200, 3600, "IDT")
           }
          }
         }
        }
       } else {
        if i < 125 {
         if i < 122 {
          if i < 121 {
           Table::row(1698534000, 7200, 0, "IST")
          } else {
           Table::row(1711670400, 7200, 3600, "IDT")
          }
         } else {
          if i < 123 {
           Table::row(1729983600, 7200, 0, "IST")
          } else {
           if i < 124 {
            Table::row(1743120000, 7200, 3600, "IDT")
           } else {
            Table::row(1761433200, 7200, 0, "IST")
           }
          }
         }
        } else {
         if i < 127 {
          if i < 126 {
           Table::row(1774569600, 7200, 3600, "IDT")
          } else {
           Table::row(1792882800, 7200, 0, "IST")
          }
         } else {
          if i < 128 {
           Table::row(1806019200, 7200, 3600, "IDT")
          } else {
           if i < 129 {
            Table::row(1824937200, 7200, 0, "IST")
           } else {
            Table::row(1837468800, 7200, 3600, "IDT")
           }
          }
         }
        }
       }
      } else {
       if i < 139 {
        if i < 134 {
         if i < 132 {
          if i < 131 {
           Table::row(1856386800, 7200, 0, "IST")
          } else {
           Table::row(1868918400, 7200, 3600, "IDT")
          }
         } else {
          if i < 133 {
           Table::row(1887836400, 7200, 0, "IST")
          } else {
           Table::row(1900972800, 7200, 3600, "IDT")
          }
         }
        } else {
         if i < 136 {
          if i < 135 {
           Table::row(1919286000, 7200, 0, "IST")
          } else {
           Table::row(1932422400, 7200, 3600, "IDT")
          }
         } else {
          if i < 137 {
           Table::row(1950735600, 7200, 0, "IST")
          } else {
           if i < 138 {
            Table::row(1963872000, 7200, 3600, "IDT")
           } else {
            Table::row(1982790000, 7200, 0, "IST")
           }
          }
         }
        }
       } else {
        if i < 144 {
         if i < 141 {
          if i < 140 {
           Table::row(1995321600, 7200, 3600, "IDT")
          } else {
           Table::row(2014239600, 7200, 0, "IST")
          }
         } else {
          if i < 142 {
           Table::row(2026771200, 7200, 3600, "IDT")
          } else {
           if i < 143 {
            Table::row(2045689200, 7200, 0, "IST")
           } else {
            Table::row(2058220800, 7200, 3600, "IDT")
           }
          }
         }
        } else {
         if i < 146 {
          if i < 145 {
           Table::row(2077138800, 7200, 0, "IST")
          } else {
           Table::row(2090275200, 7200, 3600, "IDT")
          }
         } else {
          if i < 147 {
           Table::row(2108588400, 7200, 0, "IST")
          } else {
           if i < 148 {
            Table::row(2121724800, 7200, 3600, "IDT")
           } else {
            Table::row(2140038000, 7200, 0, "IST")
           }
          }
         }
        }
       }
      }
     }
    }
}

/// The rows of the table of the zone `Asia/Tel_Aviv`.
pub open spec fn tel_aviv_rows() -> spec_fn(int) -> (i64, FixedTimespan) {
    |i: int| tel_aviv_row(i)
}

/// The table of the zone `Asia/Tel_Aviv`.
pub open spec fn tel_aviv() -> Table {
    Table::listed(Table::row(0, 8454, 0, "LMT").1, 149, tel_aviv_rows())
}

/// Row `i` of the table of the zone `Asia/Thimbu`.
pub open spec fn thimbu_row(i: int) -> (i64, FixedTimespan) {
    if i < 1 {
     Table::row(-706341516, 19800, 0, "+0530")
    } else {
     if i < 2 {
      Table::row(560025000, 21600, 0, "+06")
     } else {
      Table::row(2147483647, 21600, 0, "+06")
     }
    }
}

/// The rows of the table of the zone `Asia/Thimbu`.
pub open spec fn thimbu_rows() -> spec_fn(int) -> (i64, FixedTimespan) {
    |i: int| thimbu_row(i)
}

/// The table of the zone `Asia/Thimbu`.
pub open spec fn thimbu() -> Table {
    Table::listed(Table::row(0, 21516, 0, "LMT").1, 3, thimbu_rows())
}

/// Row `i` of the table of the zone `Asia/Thimphu`.
pub open spec fn thimphu_row(i: int) -> (i64, FixedTimespan) {
    if i < 1 {
     Table::row(-706341516, 19800, 0, "+0530")
    } else {
     if i < 2 {
      Table::row(560025000, 21600, 0, "+06")
     } else {
      Table::row(2147483647, 21600, 0, "+06")
     }
    }
}

/// The rows of the table of the zone `Asia/Thimphu`.
pub open spec fn thimphu_rows() -> spec_fn(int) -> (i64, FixedTimespan) {
    |i: int| thimphu_row(i)
}

/// The table of the zone `Asia/Thimphu`.
pub open spec fn thimphu() -> Table {
    Table::listed(Table::row(0, 21516, 0, "LMT").1, 3, thimphu_rows())
}

/// Row `i` of the table of the zone `Asia/Tokyo`.
pub open spec fn tokyo_row(i: int) -> (i64, FixedTimespan) {
    if i < 4 {
     if i < 2 {
      if i < 1 {
       Table::row(-2587712400, 32400, 0, "JST")
      } else {
       Table::row(-683802000, 32400, 3600, "JDT")
      }
     } else {
      if i < 3 {
       Table::row(-672310800, 32400, 0, "JST")
      } else {
       Table::row(-654771600, 32400, 3600, "JDT")
      }
     }
    } else {
     if i < 6 {
      if i < 5 {
       Table::row(-640861200, 32400, 0, "JST")
      } else {
       Table::row(-620298000, 32400, 3600, "JDT")
      }
     } else {
      if i < 7 {
       Table::row(-609411600, 32400, 0, "JST")
      } else {
       if i < 8 {
        Table::row(-588848400, 32400, 3600, "JDT")
       } else {
        Table::row(-577962000, 32400, 0, "JST")
       }
      }
     }
    }
}

/// The rows of the table of the zone `Asia/Tokyo`.
pub open spec fn tokyo_rows() -> spec_fn(int) -> (i64, FixedTimespan) {
    |i: int| tokyo_row(i)
}

/// The table of the zone `Asia/Tokyo`.
pub open spec fn tokyo() -> Table {
    Table::listed(Table::row(0, 33539, 0, "LMT").1, 9, tokyo_rows())
}

/// Row `i` of the table of the zone `Asia/Tomsk`.
pub open spec fn tomsk_row(i: int) -> (i64, FixedTimespan) {
    if i < 34 {
     if i < 17 {
      if i < 8 {
       if i < 4 {
        if i < 2 {
         if i < 1 {
          Table::row(-1578807591, 21600, 0, "+06")
         } else {
          Table::row(-1247551200, 25200, 0, "+07")
         }
        } else {
         if i < 3 {
          Table::row(354906000, 25200, 3600, "+08")
         } else {
          Table::row(370713600, 25200, 0, "+07")
         }
        }
       } else {
        if i < 6 {
         if i < 5 {
          Table::row(386442000, 25200, 3600, "+08")
         } else {
          Table::row(402249600, 25200, 0, "+07")
         }
        } else {
         if i < 7 {
          Table::row(417978000, 25200, 3600, "+08")
         } else {
          Table::row(433785600, 25200, 0, "+07")
         }
        }
       }
      } else {
       if i < 12 {
        if i < 10 {
         if i < 9 {
          Table::row(449600400, 25200, 3600, "+08")
         } else {
          Table::row(465332400, 25200, 0, "+07")
         }
        } else {
         if i < 11 {
          Table::row(481057200, 25200, 3600, "+08")
         } else {
          Table::row(496782000, 25200, 0, "+07")
         }
        }
       } else {
        if i < 14 {
         if i < 13 {
          Table::row(512506800, 25200, 3600, "+08")
         } else {
          Table::row(528231600, 25200, 0, "+07")
         }
        } else {
         if i < 15 {
          Table::row(543956400, 25200, 3600, "+08")
         } else {
          if i < 16 {
           Table::row(559681200, 25200, 0, "+07")
          } else {
           Table::row(575406000, 25200, 3600, "+08")
          }
         }
        }
       }
      }
     } else {
      if i < 25 {
       if i < 21 {
        if i < 19 {
         if i < 18 {
          Table::row(591130800, 25200, 0, "+07")
         } else {
          Table::row(606855600, 25200, 3600, "+08")
         }
        } else {
         if i < 20 {
          Table::row(622580400, 25200, 0, "+07")
         } else {
          Table::row(638305200, 25200, 3600, "+08")
         }
        }
       } else {
        if i < 23 {
         if i < 22 {
          Table::row(654634800, 25200, 0, "+07")
         } else {
          Table::row(670359600, 21600, 3600, "+07")
         }
        } else {
         if i < 24 {
          Table::row(686088000, 21600, 0, "+06")
         } else {
          Table::row(695764800, 25200, 0, "+07")
         }
        }
       }
      } else {
       if i < 29 {
        if i < 27 {
         if i < 26 {
          Table::row(701809200, 25200, 3600, "+08")
         } else {
          Table::row(717534000, 25200, 0, "+07")
         }
        } else {
         if i < 28 {
          Table::row(733258800, 25200, 3600, "+08")
         } else {
          Table::row(748983600, 25200, 0, "+07")
         }
        }
       } else {
        if i < 31 {
         if i < 30 {
          Table::row(764708400, 25200, 3600, "+08")
         } else {
          Table::row(780433200, 25200, 0, "+07")
         }
        } else {
         if i < 32 {
          Table::row(796158000, 25200, 3600, "+08")
         } else {
          if i < 33 {
           Table::row(811882800, 25200, 0, "+07")
          } else {
           Table::row(828212400, 25200, 3600, "+08")
          }
         }
        }
       }
      }
     }
    } else {
     if i < 51 {
      if i < 42 {
       if i < 38 {
        if i < 36 {
         if i < 35 {
          Table::row(846356400, 25200, 0, "+07")
         } else {
          Table::row(859662000, 25200, 3600, "+08")
         }
        } else {
         if i < 37 {
          Table::row(877806000, 25200, 0, "+07")
         } else {
          Table::row(891111600, 25200, 3600, "+08")
         }
        }
       } else {
        if i < 40 {
         if i < 39 {
          Table::row(909255600, 25200, 0, "+07")
         } else {
          Table::row(922561200, 25200, 3600, "+08")
         }
        } else {
         if i < 41 {
          Table::row(941310000, 25200, 0, "+07")
         } else {
          Table::row(954010800, 25200, 3600, "+08")
         }
        }
       }
      } else {
       if i < 46 {
        if i < 44 {
         if i < 43 {
          Table::row(972759600, 25200, 0, "+07")
         } else {
          Table::row(985460400, 25200, 3600, "+08")
         }
        } else {
         if i < 45 {
          Table::row(1004209200, 25200, 0, "+07")
         } else {
          Table::row(1017514800, 25200, 3600, "+08")
         }
        }
       } else {
        if i < 48 {
         if i < 47 {
          Table::row(1020193200, 21600, 3600, "+07")
         } else {
          Table::row(1035662400, 21600, 0, "+06")
         }
        } else {
         if i < 49 {
          Table::row(1048968000, 21600, 3600, "+07")
         } else {
          if i < 50 {
           Table::row(1067112000, 21600, 0, "+06")
          } else {
           Table::row(1080417600, 21600, 3600, "+07")
          }
         }
        }
       }
      }
     } else {
      if i < 59 {
       if i < 55 {
        if i < 53 {
         if i < 52 {
          Table::row(1099166400, 21600, 0, "+06")
         } else {
          Table::row(1111867200, 21600, 3600, "+07")
         }
        } else {
         if i < 54 {
          Table::row(1130616000, 21600, 0, "+06")
         } else {
          Table::row(1143316800, 21600, 3600, "+07")
         }
        }
       } else {
        if i < 57 {
         if i < 56 {
          Table::row(1162065600, 21600, 0, "+06")
         } else {
          Table::row(1174766400, 21600, 3600, "+07")
         }
        } else {
         if i < 58 {
          Table::row(1193515200, 21600, 0, "+06")
         } else {
          Table::row(1206820800, 21600, 3600, "+07")
         }
        }
       }
      } else {
       if i < 63 {
        if i < 61 {
         if i < 60 {
          Table::row(1224964800, 21600, 0, "+06")
         } else {
          Table::row(1238270400, 21600, 3600, "+07")
         }
        } else {
         if i < 62 {
          Table::row(1256414400, 21600, 0, "+06")
         } else {
          Table::row(1269720000, 21600, 3600, "+07")
         }
        }
       } else {
        if i < 65 {
         if i < 64 {
          Table::row(1288468800, 21600, 0, "+06")
         } else {
          Table::row(1301169600, 25200, 0, "+07")
         }
        } else {
         if i < 66 {
          Table::row(1414263600, 21600, 0, "+06")
         } else {
          if i < 67 {
           Table::row(1464465600, 25200, 0, "+07")
          } else {
           Table::row(2147483647, 25200, 0, "+07")
          }
         }
        }
       }
      }
     }
    }
}

/// The rows of the table of the zone `Asia/Tomsk`.
pub open spec fn tomsk_rows() -> spec_fn(int) -> (i64, FixedTimespan) {
    |i: int| tomsk_row(i)
}

/// The table of the zone `Asia/Tomsk`.
pub open spec fn tomsk() -> Table {
    Table::listed(Table::row(0, 20391, 0, "LMT").1, 68, tomsk_rows())
}

/// Row `i` of the table of the zone `Asia/Ujung_Pandang`.
pub open spec fn ujung_pandang_row(i: int) -> (i64, FixedTimespan) {
    if i < 2 {
     if i < 1 {
      Table::row(-1577951856, 28656, 0, "MMT")
     } else {
      Table::row(-1172908656, 28800, 0, "+08")
     }
    } else {
     if i < 3 {
      Table::row(-880272000, 32400, 0, "+09")
     } else {
      Table::row(-766054800, 28800, 0, "WITA")
     }
    }
}

/// The rows of the table of the zone `Asia/Ujung_Pandang`.
pub open spec fn ujung_pandang_rows() -> spec_fn(int) -> (i64, FixedTimespan) {
    |i: int| ujung_pandang_row(i)
}

/// The table of the zone `Asia/Ujung_Pandang`.
pub open spec fn ujung_pandang() -> Table {
    Table::listed(Table::row(0, 28656, 0, "LMT").1, 4, ujung_pandang_rows())
}

/// Row `i` of the table of the zone `Asia/Ulaanbaatar`.
pub open spec fn ulaanbaatar_row(i: int) -> (i64, FixedTimespan) {
    if i < 25 {
     if i < 12 {
      if i < 6 {
       if i < 3 {
        if i < 1 {
         Table::row(-2032931252, 25200, 0, "+07")
        } else {
         if i < 2 {
          Table::row(252435600, 28800, 0, "+08")
         } else {
          Table::row(417974400, 28800, 3600, "+09")
         }
        }
       } else {
        if i < 4 {
         Table::row(433782000, 28800, 0, "+08")
        } else {
         if i < 5 {
          Table::row(449596800, 28800, 3600, "+09")
         } else {
          Table::row(465318000, 28800, 0, "+08")
         }
        }
       }
      } else {
       if i < 9 {
        if i < 7 {
         Table::row(481046400, 28800, 3600, "+09")
        } else {
         if i < 8 {
          Table::row(496767600, 28800, 0, "+08")
         } else {
          Table::row(512496000, 28800, 3600, "+09")
         }
        }
       } else {
        if i < 10 {
         Table::row(528217200, 28800, 0, "+08")
        } else {
         if i < 11 {
          Table::row(543945600, 28800, 3600, "+09")
         } else {
          Table::row(559666800, 28800, 0, "+08")
         }
        }
       }
      }
     } else {
      if i < 18 {
       if i < 15 {
        if i < 13 {
         Table::row(575395200, 28800, 3600, "+09")
        } else {
         if i < 14 {
          Table::row(591116400, 28800, 0, "+08")
         } else {
          Table::row(606844800, 28800, 3600, "+09")
         }
        }
       } else {
        if i < 16 {
         Table::row(622566000, 28800, 0, "+08")
        } else {
         if i < 17 {
          Table::row(638294400, 28800, 3600, "+09")
         } else {
          Table::row(654620400, 28800, 0, "+08")
         }
        }
       }
      } else {
       if i < 21 {
        if i < 19 {
         Table::row(670348800, 28800, 3600, "+09")
        } else {
         if i < 20 {
          Table::row(686070000, 28800, 0, "+08")
         } else {
          Table::row(701798400, 28800, 3600, "+09")
         }
        }
       } else {
        if i < 23 {
         if i < 22 {
          Table::row(717519600, 28800, 0, "+08")
         } else {
          Table::row(733248000, 28800, 3600, "+09")
         }
        } else {
         if i < 24 {
          Table::row(748969200, 28800, 0, "+08")
         } else {
          Table::row(764697600, 28800, 3600, "+09")
         }
        }
       }
      }
     }
    } else {
     if i < 38 {
      if i < 31 {
       if i < 28 {
        if i < 26 {
         Table::row(780418800, 28800, 0, "+08")
        } else {
         if i < 27 {
          Table::row(796147200, 28800, 3600, "+09")
         } else {
          Table::row(811868400, 28800, 0, "+08")
         }
        }
       } else {
        if i < 29 {
         Table::row(828201600, 28800, 3600, "+09")
        } else {
         if i < 30 {
          Table::row(843922800, 28800, 0, "+08")
         } else {
          Table::row(859651200, 28800, 3600, "+09")
         }
        }
       }
      } else {
       if i < 34 {
        if i < 32 {
         Table::row(875372400, 28800, 0, "+08")
        } else {
         if i < 33 {
          Table::row(891100800, 28800, 3600, "+09")
         } else {
          Table::row(906822000, 28800, 0, "+08")
         }
        }
       } else {
        if i < 36 {
         if i < 35 {
          Table::row(988394400, 28800, 3600, "+09")
         } else {
          Table::row(1001696400, 28800, 0, "+08")
         }
        } else {
         if i < 37 {
          Table::row(1017424800, 28800, 3600, "+09")
         } else {
          Table::row(1033146000, 28800, 0, "+08")
         }
        }
       }
      }
     } else {
      if i < 44 {
       if i < 41 {
        if i < 39 {
         Table::row(1048874400, 28800, 3600, "+09")
        } else {
         if i < 40 {
          Table::row(1064595600, 28800, 0, "+08")
         } else {
          Table::row(1080324000, 28800, 3600, "+09")
         }
        }
       } else {
        if i < 42 {
         Table::row(1096045200, 28800, 0, "+08")
        } else {
         if i < 43 {
          Table::row(1111773600, 28800, 3600, "+09")
         } else {
          Table::row(1127494800, 28800, 0, "+08")
         }
        }
       }
      } else {
       if i < 47 {
        if i < 45 {
         Table::row(1143223200, 28800, 3600, "+09")
        } else {
         if i < 46 {
          Table::row(1159549200, 28800, 0, "+08")
         } else {
          Table::row(1427479200, 28800, 3600, "+09")
         }
        }
       } else {
        if i < 49 {
         if i < 48 {
          Table::row(1443193200, 28800, 0, "+08")
         } else {
          Table::row(1458928800, 28800, 3600, "+09")
         }
        } else {
         if i < 50 {
          Table::row(1474642800, 28800, 0, "+08")
         } else {
          Table::row(2147483647, 28800, 0, "+08")
         }
        }
       }
      }
     }
    }
}

/// The rows of the table of the zone `Asia/Ulaanbaatar`.
pub open spec fn ulaanbaatar_rows() -> spec_fn(int) -> (i64, FixedTimespan) {
    |i: int| ulaanbaatar_row(i)
}

/// The table of the zone `Asia/Ulaanbaatar`.
pub open spec fn ulaanbaatar() -> Table {
    Table::listed(Table::row(0, 25652, 0, "LMT").1, 51, ulaanbaatar_rows())
}

/// Row `i` of the table of the zone `Asia/Ulan_Bator`.
pub open spec fn ulan_bator_row(i: int) -> (i64, FixedTimespan) {
    if i < 25 {
     if i < 12 {
      if i < 6 {
       if i < 3 {
        if i < 1 {
         Table::row(-2032931252, 25200, 0, "+07")
        } else {
         if i < 2 {
          Table::row(252435600, 28800, 0, "+08")
         } else {
          Table::row(417974400, 28800, 3600, "+09")
         }
        }
       } else {
        if i < 4 {
         Table::row(433782000, 28800, 0, "+08")
        } else {
         if i < 5 {
          Table::row(449596800, 28800, 3600, "+09")
         } else {
          Table::row(465318000, 28800, 0, "+08")
         }
        }
       }
      } else {
       if i < 9 {
        if i < 7 {
         Table::row(481046400, 28800, 3600, "+09")
        } else {
         if i < 8 {
          Table::row(496767600, 28800, 0, "+08")
         } else {
          Table::row(512496000, 28800, 3600, "+09")
         }
        }
       } else {
        if i < 10 {
         Table::row(528217200, 28800, 0, "+08")
        } else {
         if i < 11 {
          Table::row(543945600, 28800, 3600, "+09")
         } else {
          Table::row(559666800, 28800, 0, "+08")
         }
        }
       }
      }
     } else {
      if i < 18 {
       if i < 15 {
        if i < 13 {
         Table::row(575395200, 28800, 3600, "+09")
        } else {
         if i < 14 {
          Table::row(591116400, 28800, 0, "+08")
         } else {
          Table::row(606844800, 28800, 3600, "+09")
         }
        }
       } else {
        if i < 16 {
         Table::row(622566000, 28800, 0, "+08")
        } else {
         if i < 17 {
          Table::row(638294400, 28800, 3600, "+09")
         } else {
          Table::row(654620400, 28800, 0, "+08")
         }
        }
       }
      } else {
       if i < 21 {
        if i < 19 {
         Table::row(670348800, 28800, 3600, "+09")
        } else {
         if i < 20 {
          Table::row(686070000, 28800, 0, "+08")
         } else {
          Table::row(701798400, 28800, 3600, "+09")
         }
        }
       } else {
        if i < 23 {
         if i < 22 {
          Table::row(717519600, 28800, 0, "+08")
         } else {
          Table::row(733248000, 28800, 3600, "+09")
         }
        } else {
         if i < 24 {
          Table::row(748969200, 28800, 0, "+08")
         } else {
          Table::row(764697600, 28800, 3600, "+09")
         }
        }
       }
      }
     }
    } else {
     if i < 38 {
      if i < 31 {
       if i < 28 {
        if i < 26 {
         Table::row(780418800, 28800, 0, "+08")
        } else {
         if i < 27 {
          Table::row(796147200, 28800, 3600, "+09")
         } else {
          Table::row(811868400, 28800, 0, "+08")
         }
        }
       } else {
        if i < 29 {
         Table::row(828201600, 28800, 3600, "+09")
        } else {
         if i < 30 {
          Table::row(843922800, 28800, 0, "+08")
         } else {
          Table::row(859651200, 28800, 3600, "+09")
         }
        }
       }
      } else {
       if i < 34 {
        if i < 32 {
         Table::row(875372400, 28800, 0, "+08")
        } else {
         if i < 33 {
          Table::row(891100800, 28800, 3600, "+09")
         } else {
          Table::row(906822000, 28800, 0, "+08")
         }
        }
       } else {
        if i < 36 {
         if i < 35 {
          Table::row(988394400, 28800, 3600, "+09")
         } else {
          Table::row(1001696400, 28800, 0, "+08")
         }
        } else {
         if i < 37 {
          Table::row(1017424800, 28800, 3600, "+09")
         } else {
          Table::row(1033146000, 28800, 0, "+08")
         }
        }
       }
      }
     } else {
      if i < 44 {
       if i < 41 {
        if i < 39 {
         Table::row(1048874400, 28800, 3600, "+09")
        } else {
         if i < 40 {
          Table::row(1064595600, 28800, 0, "+08")
         } else {
          Table::row(1080324000, 28800, 3600, "+09")
         }
        }
       } else {
        if i < 42 {
         Table::row(1096045200, 28800, 0, "+08")
        } else {
         if i < 43 {
          Table::row(1111773600, 28800, 3600, "+09")
         } else {
          Table::row(1127494800, 28800, 0, "+08")
         }
        }
       }
      } else {
       if i < 47 {
        if i < 45 {
         Table::row(1143223200, 28800, 3600, "+09")
        } else {
         if i < 46 {
          Table::row(1159549200, 28800, 0, "+08")
         } else {
          Table::row(1427479200, 28800, 3600, "+09")
         }
        }
       } else {
        if i < 49 {
         if i < 48 {
          Table::row(1443193200, 28800, 0, "+08")
         } else {
          Table::row(1458928800, 28800, 3600, "+09")
         }
        } else {
         if i < 50 {
          Table::row(1474642800, 28800, 0, "+08")
         } else {
          Table::row(2147483647, 28800, 0, "+08")
         }
        }
       }
      }
     }
    }
}

/// The rows of the table of the zone `Asia/Ulan_Bator`.
pub open spec fn ulan_bator_rows() -> spec_fn(int) -> (i64, FixedTimespan) {
    |i: int| ulan_bator_row(i)
}

/// The table of the zone `Asia/Ulan_Bator`.
pub open spec fn ulan_bator() -> Table {
    Table::listed(Table::row(0, 25652, 0, "LMT").1, 51, ulan_bator_rows())
}

/// Row `i` of the table of the zone `Asia/Urumqi`.
pub open spec fn urumqi_row(i: int) -> (i64, FixedTimespan) {
    if i < 1 {
     Table::row(-1325483420, 21600, 0, "+06")
    } else {
     Table::row(2147483647, 21600, 0, "+06")
    }
}

/// The rows of the table of the zone `Asia/Urumqi`.
pub open spec fn urumqi_rows() -> spec_fn(int) -> (i64, FixedTimespan) {
    |i: int| urumqi_row(i)
}

/// The table of the zone `Asia/Urumqi`.
pub open spec fn urumqi() -> Table {
    Table::listed(Table::row(0, 21020, 0, "LMT").1, 2, urumqi_rows())
}

/// Row `i` of the table of the zone `Asia/Ust-Nera`.
pub open spec fn ust_nera_row(i: int) -> (i64, FixedTimespan) {
    if i < 33 {
     if i < 16 {
      if i < 8 {
       if i < 4 {
        if i < 2 {
         if i < 1 {
          Table::row(-1579426374, 28800, 0, "+08")
         } else {
          Table::row(-1247558400, 32400, 0, "+09")
         }
        } else {
         if i < 3 {
          Table::row(354898800, 32400, 10800, "+12")
         } else {
          Table::row(370699200, 39600, 0, "+11")
         }
        }
       } else {
        if i < 6 {
         if i < 5 {
          Table::row(386427600, 39600, 3600, "+12")
         } else {
          Table::row(402235200, 39600, 0, "+11")
         }
        } else {
         if i < 7 {
          Table::row(417963600, 39600, 3600, "+12")
         } else {
          Table::row(433771200, 39600, 0, "+11")
         }
        }
       }
      } else {
       if i < 12 {
        if i < 10 {
         if i < 9 {
          Table::row(449586000, 39600, 3600, "+12")
         } else {
          Table::row(465318000, 39600, 0, "+11")
         }
        } else {
         if i < 11 {
          Table::row(481042800, 39600, 3600, "+12")
         } else {
          Table::row(496767600, 39600, 0, "+11")
         }
        }
       } else {
        if i < 14 {
         if i < 13 {
          Table::row(512492400, 39600, 3600, "+12")
         } else {
          Table::row(528217200, 39600, 0, "+11")
         }
        } else {
         if i < 15 {
          Table::row(543942000, 39600, 3600, "+12")
         } else {
          Table::row(559666800, 39600, 0, "+11")
         }
        }
       }
      }
     } else {
      if i < 24 {
       if i < 20 {
        if i < 18 {
         if i < 17 {
          Table::row(575391600, 39600, 3600, "+12")
         } else {
          Table::row(591116400, 39600, 0, "+11")
         }
        } else {
         if i < 19 {
          Table::row(606841200, 39600, 3600, "+12")
         } else {
          Table::row(622566000, 39600, 0, "+11")
         }
        }
       } else {
        if i < 22 {
         if i < 21 {
          Table::row(638290800, 39600, 3600, "+12")
         } else {
          Table::row(654620400, 39600, 0, "+11")
         }
        } else {
         if i < 23 {
          Table::row(670345200, 36000, 3600, "+11")
         } else {
          Table::row(686073600, 36000, 0, "+10")
         }
        }
       }
      } else {
       if i < 28 {
        if i < 26 {
         if i < 25 {
          Table::row(695750400, 39600, 0, "+11")
         } else {
          Table::row(701794800, 39600, 3600, "+12")
         }
        } else {
         if i < 27 {
          Table::row(717519600, 39600, 0, "+11")
         } else {
          Table::row(733244400, 39600, 3600, "+12")
         }
        }
       } else {
        if i < 30 {
         if i < 29 {
          Table::row(748969200, 39600, 0, "+11")
         } else {
          Table::row(764694000, 39600, 3600, "+12")
         }
        } else {
         if i < 31 {
          Table::row(780418800, 39600, 0, "+11")
         } else {
          if i < 32 {
           Table::row(796143600, 39600, 3600, "+12")
          } else {
           Table::row(811868400, 39600, 0, "+11")
          }
         }
        }
       }
      }
     }
    } else {
     if i < 50 {
      if i < 41 {
       if i < 37 {
        if i < 35 {
         if i < 34 {
          Table::row(828198000, 39600, 3600, "+12")
         } else {
          Table::row(846342000, 39600, 0, "+11")
         }
        } else {
         if i < 36 {
          Table::row(859647600, 39600, 3600, "+12")
         } else {
          Table::row(877791600, 39600, 0, "+11")
         }
        }
       } else {
        if i < 39 {
         if i < 38 {
          Table::row(891097200, 39600, 3600, "+12")
         } else {
          Table::row(909241200, 39600, 0, "+11")
         }
        } else {
         if i < 40 {
          Table::row(922546800, 39600, 3600, "+12")
         } else {
          Table::row(941295600, 39600, 0, "+11")
         }
        }
       }
      } else {
       if i < 45 {
        if i < 43 {
         if i < 42 {
          Table::row(953996400, 39600, 3600, "+12")
         } else {
          Table::row(972745200, 39600, 0, "+11")
         }
        } else {
         if i < 44 {
          Table::row(985446000, 39600, 3600, "+12")
         } else {
          Table::row(1004194800, 39600, 0, "+11")
         }
        }
       } else {
        if i < 47 {
         if i < 46 {
          Table::row(1017500400, 39600, 3600, "+12")
         } else {
          Table::row(1035644400, 39600, 0, "+11")
         }
        } else {
         if i < 48 {
          Table::row(1048950000, 39600, 3600, "+12")
         } else {
          if i < 49 {
           Table::row(1067094000, 39600, 0, "+11")
          } else {
           Table::row(1080399600, 39600, 3600, "+12")
          }
         }
        }
       }
      }
     } else {
      if i < 58 {
       if i < 54 {
        if i < 52 {
         if i < 51 {
          Table::row(1099148400, 39600, 0, "+11")
         } else {
          Table::row(1111849200, 39600, 3600, "+12")
         }
        } else {
         if i < 53 {
          Table::row(1130598000, 39600, 0, "+11")
         } else {
          Table::row(1143298800, 39600, 3600, "+12")
         }
        }
       } else {
        if i < 56 {
         if i < 55 {
          Table::row(1162047600, 39600, 0, "+11")
         } else {
          Table::row(1174748400, 39600, 3600, "+12")
         }
        } else {
         if i < 57 {
          Table::row(1193497200, 39600, 0, "+11")
         } else {
          Table::row(1206802800, 39600, 3600, "+12")
         }
        }
       }
      } else {
       if i < 62 {
        if i < 60 {
         if i < 59 {
          Table::row(1224946800, 39600, 0, "+11")
         } else {
          Table::row(1238252400, 39600, 3600, "+12")
         }
        } else {
         if i < 61 {
          Table::row(1256396400, 39600, 0, "+11")
         } else {
          Table::row(1269702000, 39600, 3600, "+12")
         }
        }
       } else {
        if i < 64 {
         if i < 63 {
          Table::row(1288450800, 39600, 0, "+11")
         } else {
          Table::row(1301151600, 43200, 0, "+12")
         }
        } else {
         if i < 65 {
          Table::row(1315828800, 39600, 0, "+11")
         } else {
          if i < 66 {
           Table::row(1414249200, 36000, 0, "+10")
          } else {
           Table::row(2147483647, 36000, 0, "+10")
          }
         }
        }
       }
      }
     }
    }
}

/// The rows of the table of the zone `Asia/Ust-Nera`.
pub open spec fn ust_nera_rows() -> spec_fn(int) -> (i64, FixedTimespan) {
    |i: int| ust_nera_row(i)
}

/// The table of the zone `Asia/Ust-Nera`.
pub open spec fn ust_nera() -> Table {
    Table::listed(Table::row(0, 34374, 0, "LMT").1, 67, ust_nera_rows())
}

/// Row `i` of the table of the zone `Asia/Vientiane`.
pub open spec fn vientiane_row(i: int) -> (i64, FixedTimespan) {
    if i < 4 {
     if i < 2 {
      if i < 1 {
       Table::row(-2004072624, 25590, 0, "PLMT")
      } else {
       Table::row(-1851577590, 25200, 0, "+07")
      }
     } else {
      if i < 3 {
       Table::row(-852105600, 28800, 0, "+08")
      } else {
       Table::row(-782643600, 32400, 0, "+09")
      }
     }
    } else {
     if i < 6 {
      if i < 5 {
       Table::row(-767869200, 25200, 0, "+07")
      } else {
       Table::row(-718095600, 28800, 0, "+08")
      }
     } else {
      if i < 7 {
       Table::row(-464428800, 25200, 0, "+07")
      } else {
       Table::row(2147483647, 25200, 0, "+07")
      }
     }
    }
}

/// The rows of the table of the zone `Asia/Vientiane`.
pub open spec fn vientiane_rows() -> spec_fn(int) -> (i64, FixedTimespan) {
    |i: int| vientiane_row(i)
}

/// The table of the zone `Asia/Vientiane`.
pub open spec fn vientiane() -> Table {
    Table::listed(Table::row(0, 24624, 0, "LMT").1, 8, vientiane_rows())
}

/// Row `i` of the table of the zone `Asia/Vladivostok`.
pub open spec fn vladivostok_row(i: int) -> (i64, FixedTimespan) {
    if i < 33 {
     if i < 16 {
      if i < 8 {
       if i < 4 {
        if i < 2 {
         if i < 1 {
          Table::row(-1487321251, 32400, 0, "+09")
         } else {
          Table::row(-1247562000, 36000, 0, "+10")
         }
        } else {
         if i < 3 {
          Table::row(354895200, 36000, 3600, "+11")
         } else {
          Table::row(370702800, 36000, 0, "+10")
         }
        }
       } else {
        if i < 6 {
         if i < 5 {
          Table::row(386431200, 36000, 3600, "+11")
         } else {
          Table::row(402238800, 36000, 0, "+10")
         }
        } else {
         if i < 7 {
          Table::row(417967200, 36000, 3600, "+11")
         } else {
          Table::row(433774800, 36000, 0, "+10")
         }
        }
       }
      } else {
       if i < 12 {
        if i < 10 {
         if i < 9 {
          Table::row(449589600, 36000, 3600, "+11")
         } else {
          Table::row(465321600, 36000, 0, "+10")
         }
        } else {
         if i < 11 {
          Table::row(481046400, 36000, 3600, "+11")
         } else {
          Table::row(496771200, 36000, 0, "+10")
         }
        }
       } else {
        if i < 14 {
         if i < 13 {
          Table::row(512496000, 36000, 3600, "+11")
         } else {
          Table::row(528220800, 36000, 0, "+10")
         }
        } else {
         if i < 15 {
          Table::row(543945600, 36000, 3600, "+11")
         } else {
          Table::row(559670400, 36000, 0, "+10")
         }
        }
       }
      }
     } else {
      if i < 24 {
       if i < 20 {
        if i < 18 {
         if i < 17 {
          Table::row(575395200, 36000, 3600, "+11")
         } else {
          Table::row(591120000, 36000, 0, "+10")
         }
        } else {
         if i < 19 {
          Table::row(606844800, 36000, 3600, "+11")
         } else {
          Table::row(622569600, 36000, 0, "+10")
         }
        }
       } else {
        if i < 22 {
         if i < 21 {
          Table::row(638294400, 36000, 3600, "+11")
         } else {
          Table::row(654624000, 36000, 0, "+10")
         }
        } else {
         if i < 23 {
          Table::row(670348800, 32400, 3600, "+10")
         } else {
          Table::row(686077200, 32400, 0, "+09")
         }
        }
       }
      } else {
       if i < 28 {
        if i < 26 {
         if i < 25 {
          Table::row(695754000, 36000, 0, "+10")
         } else {
          Table::row(701798400, 36000, 3600, "+11")
         }
        } else {
         if i < 27 {
          Table::row(717523200, 36000, 0, "+10")
         } else {
          Table::row(733248000, 36000, 3600, "+11")
         }
        }
       } else {
        if i < 30 {
         if i < 29 {
          Table::row(748972800, 36000, 0, "+10")
         } else {
          Table::row(764697600, 36000, 3600, "+11")
         }
        } else {
         if i < 31 {
          Table::row(780422400, 36000, 0, "+10")
         } else {
          if i < 32 {
           Table::row(796147200, 36000, 3600, "+11")
          } else {
           Table::row(811872000, 36000, 0, "+10")
          }
         }
        }
       }
      }
     }
    } else {
     if i < 49 {
      if i < 41 {
       if i < 37 {
        if i < 35 {
         if i < 34 {
          Table::row(828201600, 36000, 3600, "+11")
         } else {
          Table::row(846345600, 36000, 0, "+10")
         }
        } else {
         if i < 36 {
          Table::row(859651200, 36000, 3600, "+11")
         } else {
          Table::row(877795200, 36000, 0, "+10")
         }
        }
       } else {
        if i < 39 {
         if i < 38 {
          Table::row(891100800, 36000, 3600, "+11")
         } else {
          Table::row(909244800, 36000, 0, "+10")
         }
        } else {
         if i < 40 {
          Table::row(922550400, 36000, 3600, "+11")
         } else {
          Table::row(941299200, 36000, 0, "+10")
         }
        }
       }
      } else {
       if i < 45 {
        if i < 43 {
         if i < 42 {
          Table::row(954000000, 36000, 3600, "+11")
         } else {
          Table::row(972748800, 36000, 0, "+10")
         }
        } else {
         if i < 44 {
          Table::row(985449600, 36000, 3600, "+11")
         } else {
          Table::row(1004198400, 36000, 0, "+10")
         }
        }
       } else {
        if i < 47 {
         if i < 46 {
          Table::row(1017504000, 36000, 3600, "+11")
         } else {
          Table::row(1035648000, 36000, 0, "+10")
         }
        } else {
         if i < 48 {
          Table::row(1048953600, 36000, 3600, "+11")
         } else {
          Table::row(1067097600, 36000, 0, "+10")
         }
        }
       }
      }
     } else {
      if i < 57 {
       if i < 53 {
        if i < 51 {
         if i < 50 {
          Table::row(1080403200, 36000, 3600, "+11")
         } else {
          Table::row(1099152000, 36000, 0, "+10")
         }
        } else {
         if i < 52 {
          Table::row(1111852800, 36000, 3600, "+11")
         } else {
          Table::row(1130601600, 36000, 0, "+10")
         }
        }
       } else {
        if i < 55 {
         if i < 54 {
          Table::row(1143302400, 36000, 3600, "+11")
         } else {
          Table::row(1162051200, 36000, 0, "+10")
         }
        } else {
         if i < 56 {
          Table::row(1174752000, 36000, 3600, "+11")
         } else {
          Table::row(1193500800, 36000, 0, "+10")
         }
        }
       }
      } else {
       if i < 61 {
        if i < 59 {
         if i < 58 {
          Table::row(1206806400, 36000, 3600, "+11")
         } else {
          Table::row(1224950400, 36000, 0, "+10")
         }
        } else {
         if i < 60 {
          Table::row(1238256000, 36000, 3600, "+11")
         } else {
          Table::row(1256400000, 36000, 0, "+10")
         }
        }
       } else {
        if i < 63 {
         if i < 62 {
          Table::row(1269705600, 36000, 3600, "+11")
         } else {
          Table::row(1288454400, 36000, 0, "+10")
         }
        } else {
         if i < 64 {
          Table::row(1301155200, 39600, 0, "+11")
         } else {
          if i < 65 {
           Table::row(1414249200, 36000, 0, "+10")
          } else {
           Table::row(2147483647, 36000, 0, "+10")
          }
         }
        }
       }
      }
     }
    }
}

/// The rows of the table of the zone `Asia/Vladivostok`.
pub open spec fn vladivostok_rows() -> spec_fn(int) -> (i64, FixedTimespan) {
    |i: int| vladivostok_row(i)
}

/// The table of the zone `Asia/Vladivostok`.
pub open spec fn vladivostok() -> Table {
    Table::listed(Table::row(0, 31651, 0, "LMT").1, 66, vladivostok_rows())
}

/// Row `i` of the table of the zone `Asia/Yakutsk`.
pub open spec fn yakutsk_row(i: int) -> (i64, FixedTimespan) {
    if i < 33 {
     if i < 16 {
      if i < 8 {
       if i < 4 {
        if i < 2 {
         if i < 1 {
          Table::row(-1579423138, 28800, 0, "+08")
         } else {
          Table::row(-1247558400, 32400, 0, "+09")
         }
        } else {
         if i < 3 {
          Table::row(354898800, 32400, 3600, "+10")
         } else {
          Table::row(370706400, 32400, 0, "+09")
         }
        }
       } else {
        if i < 6 {
         if i < 5 {
          Table::row(386434800, 32400, 3600, "+10")
         } else {
          Table::row(402242400, 32400, 0, "+09")
         }
        } else {
         if i < 7 {
          Table::row(417970800, 32400, 3600, "+10")
         } else {
          Table::row(433778400, 32400, 0, "+09")
         }
        }
       }
      } else {
       if i < 12 {
        if i < 10 {
         if i < 9 {
          Table::row(449593200, 32400, 3600, "+10")
         } else {
          Table::row(465325200, 32400, 0, "+09")
         }
        } else {
         if i < 11 {
          Table::row(481050000, 32400, 3600, "+10")
         } else {
          Table::row(496774800, 32400, 0, "+09")
         }
        }
       } else {
        if i < 14 {
         if i < 13 {
          Table::row(512499600, 32400, 3600, "+10")
         } else {
          Table::row(528224400, 32400, 0, "+09")
         }
        } else {
         if i < 15 {
          Table::row(543949200, 32400, 3600, "+10")
         } else {
          Table::row(559674000, 32400, 0, "+09")
         }
        }
       }
      }
     } else {
      if i < 24 {
       if i < 20 {
        if i < 18 {
         if i < 17 {
          Table::row(575398800, 32400, 3600, "+10")
         } else {
          Table::row(591123600, 32400, 0, "+09")
         }
        } else {
         if i < 19 {
          Table::row(606848400, 32400, 3600, "+10")
         } else {
          Table::row(622573200, 32400, 0, "+09")
         }
        }
       } else {
        if i < 22 {
         if i < 21 {
          Table::row(638298000, 32400, 3600, "+10")
         } else {
          Table::row(654627600, 32400, 0, "+09")
         }
        } else {
         if i < 23 {
          Table::row(670352400, 28800, 3600, "+09")
         } else {
          Table::row(686080800, 28800, 0, "+08")
         }
        }
       }
      } else {
       if i < 28 {
        if i < 26 {
         if i < 25 {
          Table::row(695757600, 32400, 0, "+09")
         } else {
          Table::row(701802000, 32400, 3600, "+10")
         }
        } else {
         if i < 27 {
          Table::row(717526800, 32400, 0, "+09")
         } else {
          Table::row(733251600, 32400, 3600, "+10")
         }
        }
       } else {
        if i < 30 {
         if i < 29 {
          Table::row(748976400, 32400, 0, "+09")
         } else {
          Table::row(764701200, 32400, 3600, "+10")
         }
        } else {
         if i < 31 {
          Table::row(780426000, 32400, 0, "+09")
         } else {
          if i < 32 {
           Table::row(796150800, 32400, 3600, "+10")
          } else {
           Table::row(811875600, 32400, 0, "+09")
          }
         }
        }
       }
      }
     }
    } else {
     if i < 49 {
      if i < 41 {
       if i < 37 {
        if i < 35 {
         if i < 34 {
          Table::row(828205200, 32400, 3600, "+10")
         } else {
          Table::row(846349200, 32400, 0, "+09")
         }
        } else {
         if i < 36 {
          Table::row(859654800, 32400, 3600, "+10")
         } else {
          Table::row(877798800, 32400, 0, "+09")
         }
        }
       } else {
        if i < 39 {
         if i < 38 {
          Table::row(891104400, 32400, 3600, "+10")
         } else {
          Table::row(909248400, 32400, 0, "+09")
         }
        } else {
         if i < 40 {
          Table::row(922554000, 32400, 3600, "+10")
         } else {
          Table::row(941302800, 32400, 0, "+09")
         }
        }
       }
      } else {
       if i < 45 {
        if i < 43 {
         if i < 42 {
          Table::row(954003600, 32400, 3600, "+10")
         } else {
          Table::row(972752400, 32400, 0, "+09")
         }
        } else {
         if i < 44 {
          Table::row(985453200, 32400, 3600, "+10")
         } else {
          Table::row(1004202000, 32400, 0, "+09")
         }
        }
       } else {
        if i < 47 {
         if i < 46 {
          Table::row(1017507600, 32400, 3600, "+10")
         } else {
          Table::row(1035651600, 32400, 0, "+09")
         }
        } else {
         if i < 48 {
          Table::row(1048957200, 32400, 3600, "+10")
         } else {
          Table::row(1067101200, 32400, 0, "+09")
         }
        }
       }
      }
     } else {
      if i < 57 {
       if i < 53 {
        if i < 51 {
         if i < 50 {
          Table::row(1080406800, 32400, 3600, "+10")
         } else {
          Table::row(1099155600, 32400, 0, "+09")
         }
        } else {
         if i < 52 {
          Table::row(1111856400, 32400, 3600, "+10")
         } else {
          Table::row(1130605200, 32400, 0, "+09")
         }
        }
       } else {
        if i < 55 {
         if i < 54 {
          Table::row(1143306000, 32400, 3600, "+10")
         } else {
          Table::row(1162054800, 32400, 0, "+09")
         }
        } else {
         if i < 56 {
          Table::row(1174755600, 32400, 3600, "+10")
         } else {
          Table::row(1193504400, 32400, 0, "+09")
         }
        }
       }
      } else {
       if i < 61 {
        if i < 59 {
         if i < 58 {
          Table::row(1206810000, 32400, 3600, "+10")
         } else {
          Table::row(1224954000, 32400, 0, "+09")
         }
        } else {
         if i < 60 {
          Table::row(1238259600, 32400, 3600, "+10")
         } else {
          Table::row(1256403600, 32400, 0, "+09")
         }
        }
       } else {
        if i < 63 {
         if i < 62 {
          Table::row(1269709200, 32400, 3600, "+10")
         } else {
          Table::row(1288458000, 32400, 0, "+09")
         }
        } else {
         if i < 64 {
          Table::row(1301158800, 36000, 0, "+10")
         } else {
          if i < 65 {
           Table::row(1414252800, 32400, 0, "+09")
          } else {
           Table::row(2147483647, 32400, 0, "+09")
          }
         }
        }
       }
      }
     }
    }
}

/// The rows of the table of the zone `Asia/Yakutsk`.
pub open spec fn yakutsk_rows() -> spec_fn(int) -> (i64, FixedTimespan) {
    |i: int| yakutsk_row(i)
}

/// The table of the zone `Asia/Yakutsk`.
pub open spec fn yakutsk() -> Table {
    Table::listed(Table::row(0, 31138, 0, "LMT").1, 66, yakutsk_rows())
}

/// Row `i` of the table of the zone `Asia/Yangon`.
pub open spec fn yangon_row(i: int) -> (i64, FixedTimespan) {
    if i < 2 {
     if i < 1 {
      Table::row(-2840163887, 23087, 0, "RMT")
     } else {
      Table::row(-1577946287, 23400, 0, "+0630")
     }
    } else {
     if i < 3 {
      Table::row(-873268200, 32400, 0, "+09")
     } else {
      if i < 4 {
       Table::row(-778410000, 23400, 0, "+0630")
      } else {
       Table::row(2147483647, 23400, 0, "+0630")
      }
     }
    }
}

/// The rows of the table of the zone `Asia/Yangon`.
pub open spec fn yangon_rows() -> spec_fn(int) -> (i64, FixedTimespan) {
    |i: int| yangon_row(i)
}

/// The table of the zone `Asia/Yangon`.
pub open spec fn yangon() -> Table {
    Table::listed(Table::row(0, 23087, 0, "LMT").1, 5, yangon_rows())
}

/// Row `i` of the table of the zone `Asia/Yekaterinburg`.
pub open spec fn yekaterinburg_row(i: int) -> (i64, FixedTimespan) {
    if i < 33 {
     if i < 16 {
      if i < 8 {
       if i < 4 {
        if i < 2 {
         if i < 1 {
          Table::row(-1688270553, 13505, 0, "PMT")
         } else {
          Table::row(-1592610305, 14400, 0, "+04")
         }
        } else {
         if i < 3 {
          Table::row(-1247544000, 18000, 0, "+05")
         } else {
          Table::row(354913200, 18000, 3600, "+06")
         }
        }
       } else {
        if i < 6 {
         if i < 5 {
          Table::row(370720800, 18000, 0, "+05")
         } else {
          Table::row(386449200, 18000, 3600, "+06")
         }
        } else {
         if i < 7 {
          Table::row(402256800, 18000, 0, "+05")
         } else {
          Table::row(417985200, 18000, 3600, "+06")
         }
        }
       }
      } else {
       if i < 12 {
        if i < 10 {
         if i < 9 {
          Table::row(433792800, 18000, 0, "+05")
         } else {
          Table::row(449607600, 18000, 3600, "+06")
         }
        } else {
         if i < 11 {
          Table::row(465339600, 18000, 0, "+05")
         } else {
          Table::row(481064400, 18000, 3600, "+06")
         }
        }
       } else {
        if i < 14 {
         if i < 13 {
          Table::row(496789200, 18000, 0, "+05")
         } else {
          Table::row(512514000, 18000, 3600, "+06")
         }
        } else {
         if i < 15 {
          Table::row(528238800, 18000, 0, "+05")
         } else {
          Table::row(543963600, 18000, 3600, "+06")
         }
        }
       }
      }
     } else {
      if i < 24 {
       if i < 20 {
        if i < 18 {
         if i < 17 {
          Table::row(559688400, 18000, 0, "+05")
         } else {
          Table::row(575413200, 18000, 3600, "+06")
         }
        } else {
         if i < 19 {
          Table::row(591138000, 18000, 0, "+05")
         } else {
          Table::row(606862800, 18000, 3600, "+06")
         }
        }
       } else {
        if i < 22 {
         if i < 21 {
          Table::row(622587600, 18000, 0, "+05")
         } else {
          Table::row(638312400, 18000, 3600, "+06")
         }
        } else {
         if i < 23 {
          Table::row(654642000, 18000, 0, "+05")
         } else {
          Table::row(670366800, 14400, 3600, "+05")
         }
        }
       }
      } else {
       if i < 28 {
        if i < 26 {
         if i < 25 {
          Table::row(686095200, 14400, 0, "+04")
         } else {
          Table::row(695772000, 18000, 0, "+05")
         }
        } else {
         if i < 27 {
          Table::row(701816400, 18000, 3600, "+06")
         } else {
          Table::row(717541200, 18000, 0, "+05")
         }
        }
       } else {
        if i < 30 {
         if i < 29 {
          Table::row(733266000, 18000, 3600, "+06")
         } else {
          Table::row(748990800, 18000, 0, "+05")
         }
        } else {
         if i < 31 {
          Table::row(764715600, 18000, 3600, "+06")
         } else {
          if i < 32 {
           Table::row(780440400, 18000, 0, "+05")
          } else {
           Table::row(796165200, 18000, 3600, "+06")
          }
         }
        }
       }
      }
     }
    } else {
     if i < 50 {
      if i < 41 {
       if i < 37 {
        if i < 35 {
         if i < 34 {
          Table::row(811890000, 18000, 0, "+05")
         } else {
          Table::row(828219600, 18000, 3600, "+06")
         }
        } else {
         if i < 36 {
          Table::row(846363600, 18000, 0, "+05")
         } else {
          Table::row(859669200, 18000, 3600, "+06")
         }
        }
       } else {
        if i < 39 {
         if i < 38 {
          Table::row(877813200, 18000, 0, "+05")
         } else {
          Table::row(891118800, 18000, 3600, "+06")
         }
        } else {
         if i < 40 {
          Table::row(909262800, 18000, 0, "+05")
         } else {
          Table::row(922568400, 18000, 3600, "+06")
         }
        }
       }
      } else {
       if i < 45 {
        if i < 43 {
         if i < 42 {
          Table::row(941317200, 18000, 0, "+05")
         } else {
          Table::row(954018000, 18000, 3600, "+06")
         }
        } else {
         if i < 44 {
          Table::row(972766800, 18000, 0, "+05")
         } else {
          Table::row(985467600, 18000, 3600, "+06")
         }
        }
       } else {
        if i < 47 {
         if i < 46 {
          Table::row(1004216400, 18000, 0, "+05")
         } else {
          Table::row(1017522000, 18000, 3600, "+06")
         }
        } else {
         if i < 48 {
          Table::row(1035666000, 18000, 0, "+05")
         } else {
          if i < 49 {
           Table::row(1048971600, 18000, 3600, "+06")
          } else {
           Table::row(1067115600, 18000, 0, "+05")
          }
         }
        }
       }
      }
     } else {
      if i < 58 {
       if i < 54 {
        if i < 52 {
         if i < 51 {
          Table::row(1080421200, 18000, 3600, "+06")
         } else {
          Table::row(1099170000, 18000, 0, "+05")
         }
        } else {
         if i < 53 {
          Table::row(1111870800, 18000, 3600, "+06")
         } else {
          Table::row(1130619600, 18000, 0, "+05")
         }
        }
       } else {
        if i < 56 {
         if i < 55 {
          Table::row(1143320400, 18000, 3600, "+06")
         } else {
          Table::row(1162069200, 18000, 0, "+05")
         }
        } else {
         if i < 57 {
          Table::row(1174770000, 18000, 3600, "+06")
         } else {
          Table::row(1193518800, 18000, 0, "+05")
         }
        }
       }
      } else {
       if i < 62 {
        if i < 60 {
         if i < 59 {
          Table::row(1206824400, 18000, 3600, "+06")
         } else {
          Table::row(1224968400, 18000, 0, "+05")
         }
        } else {
         if i < 61 {
          Table::row(1238274000, 18000, 3600, "+06")
         } else {
          Table::row(1256418000, 18000, 0, "+05")
         }
        }
       } else {
        if i < 64 {
         if i < 63 {
          Table::row(1269723600, 18000, 3600, "+06")
         } else {
          Table::row(1288472400, 18000, 0, "+05")
         }
        } else {
         if i < 65 {
          Table::row(1301173200, 21600, 0, "+06")
         } else {
          if i < 66 {
           Table::row(1414267200, 18000, 0, "+05")
          } else {
           Table::row(2147483647, 18000, 0, "+05")
          }
         }
        }
       }
      }
     }
    }
}

/// The rows of the table of the zone `Asia/Yekaterinburg`.
pub open spec fn yekaterinburg_rows() -> spec_fn(int) -> (i64, FixedTimespan) {
    |i: int| yekaterinburg_row(i)
}

/// The table of the zone `Asia/Yekaterinburg`.
pub open spec fn yekaterinburg() -> Table {
    Table::listed(Table::row(0, 14553, 0, "LMT").1, 67, yekaterinburg_rows())
}

/// Row `i` of the table of the zone `Asia/Yerevan`.
pub open spec fn yerevan_row(i: int) -> (i64, FixedTimespan) {
    if i < 31 {
     if i < 15 {
      if i < 7 {
       if i < 3 {
        if i < 1 {
         Table::row(-1441162680, 10800, 0, "+03")
        } else {
         if i < 2 {
          Table::row(-405140400, 14400, 0, "+04")
         } else {
          Table::row(354916800, 14400, 3600, "+05")
         }
        }
       } else {
        if i < 5 {
         if i < 4 {
          Table::row(370724400, 14400, 0, "+04")
         } else {
          Table::row(386452800, 14400, 3600, "+05")
         }
        } else {
         if i < 6 {
          Table::row(402260400, 14400, 0, "+04")
         } else {
          Table::row(417988800, 14400, 3600, "+05")
         }
        }
       }
      } else {
       if i < 11 {
        if i < 9 {
         if i < 8 {
          Table::row(433796400, 14400, 0, "+04")
         } else {
          Table::row(449611200, 14400, 3600, "+05")
         }
        } else {
         if i < 10 {
          Table::row(465343200, 14400, 0, "+04")
         } else {
          Table::row(481068000, 14400, 3600, "+05")
         }
        }
       } else {
        if i < 13 {
         if i < 12 {
          Table::row(496792800, 14400, 0, "+04")
         } else {
          Table::row(512517600, 14400, 3600, "+05")
         }
        } else {
         if i < 14 {
          Table::row(528242400, 14400, 0, "+04")
         } else {
          Table::row(543967200, 14400, 3600, "+05")
         }
        }
       }
      }
     } else {
      if i < 23 {
       if i < 19 {
        if i < 17 {
         if i < 16 {
          Table::row(559692000, 14400, 0, "+04")
         } else {
          Table::row(575416800, 14400, 3600, "+05")
         }
        } else {
         if i < 18 {
          Table::row(591141600, 14400, 0, "+04")
         } else {
          Table::row(606866400, 14400, 3600, "+05")
         }
        }
       } else {
        if i < 21 {
         if i < 20 {
          Table::row(622591200, 14400, 0, "+04")
         } else {
          Table::row(638316000, 14400, 3600, "+05")
         }
        } else {
         if i < 22 {
          Table::row(654645600, 14400, 0, "+04")
         } else {
          Table::row(670370400, 10800, 3600, "+04")
         }
        }
       }
      } else {
       if i < 27 {
        if i < 25 {
         if i < 24 {
          Table::row(686098800, 10800, 0, "+03")
         } else {
          Table::row(701823600, 10800, 3600, "+04")
         }
        } else {
         if i < 26 {
          Table::row(717548400, 10800, 0, "+03")
         } else {
          Table::row(733273200, 10800, 3600, "+04")
         }
        }
       } else {
        if i < 29 {
         if i < 28 {
          Table::row(748998000, 10800, 0, "+03")
         } else {
          Table::row(764722800, 10800, 3600, "+04")
         }
        } else {
         if i < 30 {
          Table::row(780447600, 10800, 0, "+03")
         } else {
          Table::row(796172400, 10800, 3600, "+04")
         }
        }
       }
      }
     }
    } else {
     if i < 47 {
      if i < 39 {
       if i < 35 {
        if i < 33 {
         if i < 32 {
          Table::row(811897200, 14400, 0, "+04")
         } else {
          Table::row(859672800, 14400, 3600, "+05")
         }
        } else {
         if i < 34 {
          Table::row(877816800, 14400, 0, "+04")
         } else {
          Table::row(891122400, 14400, 3600, "+05")
         }
        }
       } else {
        if i < 37 {
         if i < 36 {
          Table::row(909266400, 14400, 0, "+04")
         } else {
          Table::row(922572000, 14400, 3600, "+05")
         }
        } else {
         if i < 38 {
          Table::row(941320800, 14400, 0, "+04")
         } else {
          Table::row(954021600, 14400, 3600, "+05")
         }
        }
       }
      } else {
       if i < 43 {
        if i < 41 {
         if i < 40 {
          Table::row(972770400, 14400, 0, "+04")
         } else {
          Table::row(985471200, 14400, 3600, "+05")
         }
        } else {
         if i < 42 {
          Table::row(1004220000, 14400, 0, "+04")
         } else {
          Table::row(1017525600, 14400, 3600, "+05")
         }
        }
       } else {
        if i < 45 {
         if i < 44 {
          Table::row(1035669600, 14400, 0, "+04")
         } else {
          Table::row(1048975200, 14400, 3600, "+05")
         }
        } else {
         if i < 46 {
          Table::row(1067119200, 14400, 0, "+04")
         } else {
          Table::row(1080424800, 14400, 3600, "+05")
         }
        }
       }
      }
     } else {
      if i < 55 {
       if i < 51 {
        if i < 49 {
         if i < 48 {
          Table::row(1099173600, 14400, 0, "+04")
         } else {
          Table::row(1111874400, 14400, 3600, "+05")
         }
        } else {
         if i < 50 {
          Table::row(1130623200, 14400, 0, "+04")
         } else {
          Table::row(1143324000, 14400, 3600, "+05")
         }
        }
       } else {
        if i < 53 {
         if i < 52 {
          Table::row(1162072800, 14400, 0, "+04")
         } else {
          Table::row(1174773600, 14400, 3600, "+05")
         }
        } else {
         if i < 54 {
          Table::row(1193522400, 14400, 0, "+04")
         } else {
          Table::row(1206828000, 14400, 3600, "+05")
         }
        }
       }
      } else {
       if i < 59 {
        if i < 57 {
         if i < 56 {
          Table::row(1224972000, 14400, 0, "+04")
         } else {
          Table::row(1238277600, 14400, 3600, "+05")
         }
        } else {
         if i < 58 {
          Table::row(1256421600, 14400, 0, "+04")
         } else {
          Table::row(1269727200, 14400, 3600, "+05")
         }
        }
       } else {
        if i < 61 {
         if i < 60 {
          Table::row(1288476000, 14400, 0, "+04")
         } else {
          Table::row(1301176800, 14400, 3600, "+05")
         }
        } else {
         if i < 62 {
          Table::row(1319925600, 14400, 0, "+04")
         } else {
          Table::row(2147483647, 14400, 0, "+04")
         }
        }
       }
      }
     }
    }
}

/// The rows of the table of the zone `Asia/Yerevan`.
pub open spec fn yerevan_rows() -> spec_fn(int) -> (i64, FixedTimespan) {
    |i: int| yerevan_row(i)
}

/// The table of the zone `Asia/Yerevan`.
pub open spec fn yerevan() -> Table {
    Table::listed(Table::row(0, 10680, 0, "LMT").1, 63, yerevan_rows())
}

} // verus!
