//! The tables of the zones of the Indian Ocean.

use crate::timezone_impl::{FixedTimespan, Table};
use vstd::prelude::*;

verus! {

/// Row `i` of the table of the zone `Indian/Antananarivo`.
pub open spec fn antananarivo_row(i: int) -> (i64, FixedTimespan) {
    if i < 1 {
     Table::row(-1846293004, 10800, 0, "EAT")
    } else {
     if i < 2 {
      Table::row(-499924800, 10800, 3600, "EAST")
     } else {
      Table::row(-492062400, 10800, 0, "EAT")
     }
    }
}

/// The rows of the table of the zone `Indian/Antananarivo`.
pub open spec fn antananarivo_rows() -> spec_fn(int) -> (i64, FixedTimespan) {
    |i: int| antananarivo_row(i)
}

/// The table of the zone `Indian/Antananarivo`.
pub open spec fn antananarivo() -> Table {
    Table::listed(Table::row(0, 11404, 0, "LMT").1, 3, antananarivo_rows())
}

/// Row `i` of the table of the zone `Indian/Chagos`.
pub open spec fn chagos_row(i: int) -> (i64, FixedTimespan) {
    if i < 1 {
     Table::row(-1988167780, 18000, 0, "+05")
    } else {
     if i < 2 {
      Table::row(820436400, 21600, 0, "+06")
     } else {
      Table::row(2147483647, 21600, 0, "+06")
     }
    }
}

/// The rows of the table of the zone `Indian/Chagos`.
pub open spec fn chagos_rows() -> spec_fn(int) -> (i64, FixedTimespan) {
    |i: int| chagos_row(i)
}

/// The table of the zone `Indian/Chagos`.
pub open spec fn chagos() -> Table {
    Table::listed(Table::row(0, 17380, 0, "LMT").1, 3, chagos_rows())
}

/// Row `i` of the table of the zone `Indian/Christmas`.
pub open spec fn christmas_row(i: int) -> (i64, FixedTimespan) {
    if i < 1 {
     Table::row(-2364102172, 25200, 0, "+07")
    } else {
     Table::row(2147483647, 25200, 0, "+07")
    }
}

/// The rows of the table of the zone `Indian/Christmas`.
pub open spec fn christmas_rows() -> spec_fn(int) -> (i64, FixedTimespan) {
    |i: int| christmas_row(i)
}

/// The table of the zone `Indian/Christmas`.
pub open spec fn christmas() -> Table {
    Table::listed(Table::row(0, 25372, 0, "LMT").1, 2, christmas_rows())
}

/// Row `i` of the table of the zone `Indian/Cocos`.
pub open spec fn cocos_row(i: int) -> (i64, FixedTimespan) {
    if i < 1 {
     Table::row(-2209012060, 23400, 0, "+0630")
    } else {
     Table::row(2147483647, 23400, 0, "+0630")
    }
}

/// The rows of the table of the zone `Indian/Cocos`.
pub open spec fn cocos_rows() -> spec_fn(int) -> (i64, FixedTimespan) {
    |i: int| cocos_row(i)
}

/// The table of the zone `Indian/Cocos`.
pub open spec fn cocos() -> Table {
    Table::listed(Table::row(0, 23260, 0, "LMT").1, 2, cocos_rows())
}

/// Row `i` of the table of the zone `Indian/Comoro`.
pub open spec fn comoro_row(i: int) -> (i64, FixedTimespan) {
    Table::row(-1846291984, 10800, 0, "EAT")
}

/// The rows of the table of the zone `Indian/Comoro`.
pub open spec fn comoro_rows() -> spec_fn(int) -> (i64, FixedTimespan) {
    |i: int| comoro_row(i)
}

/// The table of the zone `Indian/Comoro`.
pub open spec fn comoro() -> Table {
    Table::listed(Table::row(0, 10384, 0, "LMT").1, 1, comoro_rows())
}

/// Row `i` of the table of the zone `Indian/Kerguelen`.
pub open spec fn kerguelen_row(i: int) -> (i64, FixedTimespan) {
    if i < 1 {
     Table::row(-631152000, 18000, 0, "+05")
    } else {
     Table::row(2147483647, 18000, 0, "+05")
    }
}

/// The rows of the table of the zone `Indian/Kerguelen`.
pub open spec fn kerguelen_rows() -> spec_fn(int) -> (i64, FixedTimespan) {
    |i: int| kerguelen_row(i)
}

/// The table of the zone `Indian/Kerguelen`.
pub open spec fn kerguelen() -> Table {
    Table::listed(Table::row(0, 0, 0, "-00").1, 2, kerguelen_rows())
}

/// Row `i` of the table of the zone `Indian/Mahe`.
pub open spec fn mahe_row(i: int) -> (i64, FixedTimespan) {
    if i < 1 {
     Table::row(-1988163708, 14400, 0, "+04")
    } else {
     Table::row(2147483647, 14400, 0, "+04")
    }
}

/// The rows of the table of the zone `Indian/Mahe`.
pub open spec fn mahe_rows() -> spec_fn(int) -> (i64, FixedTimespan) {
    |i: int| mahe_row(i)
}

/// The table of the zone `Indian/Mahe`.
pub open spec fn mahe() -> Table {
    Table::listed(Table::row(0, 13308, 0, "LMT").1, 2, mahe_rows())
}

/// Row `i` of the table of the zone `Indian/Maldives`.
pub open spec fn maldives_row(i: int) -> (i64, FixedTimespan) {
    if i < 1 {
     Table::row(-2840158440, 17640, 0, "MMT")
    } else {
     if i < 2 {
      Table::row(-315636840, 18000, 0, "+05")
     } else {
      Table::row(2147483647, 18000, 0, "+05")
     }
    }
}

/// The rows of the table of the zone `Indian/Maldives`.
pub open spec fn maldives_rows() -> spec_fn(int) -> (i64, FixedTimespan) {
    |i: int| maldives_row(i)
}

/// The table of the zone `Indian/Maldives`.
pub open spec fn maldives() -> Table {
    Table::listed(Table::row(0, 17640, 0, "LMT").1, 3, maldives_rows())
}

/// Row `i` of the table of the zone `Indian/Mauritius`.
pub open spec fn mauritius_row(i: int) -> (i64, FixedTimespan) {
    if i < 3 {
     if i < 1 {
      Table::row(-1988164200, 14400, 0, "+04")
     } else {
      if i < 2 {
       Table::row(403041600, 14400, 3600, "+05")
      } else {
       Table::row(417034800, 14400, 0, "+04")
      }
     }
    } else {
     if i < 4 {
      Table::row(1224972000, 14400, 3600, "+05")
     } else {
      if i < 5 {
       Table::row(1238274000, 14400, 0, "+04")
      } else {
       Table::row(2147483647, 14400, 0, "+04")
      }
     }
    }
}

/// The rows of the table of the zone `Indian/Mauritius`.
pub open spec fn mauritius_rows() -> spec_fn(int) -> (i64, FixedTimespan) {
    |i: int| mauritius_row(i)
}

/// The table of the zone `Indian/Mauritius`.
pub open spec fn mauritius() -> Table {
    Table::listed(Table::row(0, 13800, 0, "LMT").1, 6, mauritius_rows())
}

/// Row `i` of the table of the zone `Indian/Mayotte`.
pub open spec fn mayotte_row(i: int) -> (i64, FixedTimespan) {
    Table::row(-1846292456, 10800, 0, "EAT")
}

/// The rows of the table of the zone `Indian/Mayotte`.
pub open spec fn mayotte_rows() -> spec_fn(int) -> (i64, FixedTimespan) {
    |i: int| mayotte_row(i)
}

/// The table of the zone `Indian/Mayotte`.
pub open spec fn mayotte() -> Table {
    Table::listed(Table::row(0, 10856, 0, "LMT").1, 1, mayotte_rows())
}

/// Row `i` of the table of the zone `Indian/Reunion`.
pub open spec fn reunion_row(i: int) -> (i64, FixedTimespan) {
    if i < 1 {
     Table::row(-1848886912, 14400, 0, "+04")
    } else {
     Table::row(2147483647, 14400, 0, "+04")
    }
}

/// The rows of the table of the zone `Indian/Reunion`.
pub open spec fn reunion_rows() -> spec_fn(int) -> (i64, FixedTimespan) {
    |i: int| reunion_row(i)
}

/// The table of the zone `Indian/Reunion`.
pub open spec fn reunion() -> Table {
    Table::listed(Table::row(0, 13312, 0, "LMT").1, 2, reunion_rows())
}

} // verus!
