//! The tables of the zones that follow no place.

use crate::timezone_impl::{FixedTimespan, Table};
use vstd::prelude::*;

verus! {

/// Row `i` of the table of the zone `Etc/GMT`.
pub open spec fn gmt_row(i: int) -> (i64, FixedTimespan) {
    Table::row(0, 0, 0, "GMT")
}

/// The rows of the table of the zone `Etc/GMT`.
pub open spec fn gmt_rows() -> spec_fn(int) -> (i64, FixedTimespan) {
    |i: int| gmt_row(i)
}

/// The table of the zone `Etc/GMT`.
pub open spec fn gmt() -> Table {
    Table::listed(Table::row(0, 0, 0, "GMT").1, 0, gmt_rows())
}

/// Row `i` of the table of the zone `Etc/GMT+0`.
pub open spec fn gmt_plus_0_row(i: int) -> (i64, FixedTimespan) {
    Table::row(0, 0, 0, "GMT")
}

/// The rows of the table of the zone `Etc/GMT+0`.
pub open spec fn gmt_plus_0_rows() -> spec_fn(int) -> (i64, FixedTimespan) {
    |i: int| gmt_plus_0_row(i)
}

/// The table of the zone `Etc/GMT+0`.
pub open spec fn gmt_plus_0() -> Table {
    Table::listed(Table::row(0, 0, 0, "GMT").1, 0, gmt_plus_0_rows())
}

/// Row `i` of the table of the zone `Etc/GMT+1`.
pub open spec fn gmt_plus_1_row(i: int) -> (i64, FixedTimespan) {
    Table::row(0, -3600, 0, "-01")
}

/// The rows of the table of the zone `Etc/GMT+1`.
pub open spec fn gmt_plus_1_rows() -> spec_fn(int) -> (i64, FixedTimespan) {
    |i: int| gmt_plus_1_row(i)
}

/// The table of the zone `Etc/GMT+1`.
pub open spec fn gmt_plus_1() -> Table {
    Table::listed(Table::row(0, -3600, 0, "-01").1, 0, gmt_plus_1_rows())
}

/// Row `i` of the table of the zone `Etc/GMT+10`.
pub open spec fn gmt_plus_10_row(i: int) -> (i64, FixedTimespan) {
    Table::row(0, -36000, 0, "-10")
}

/// The rows of the table of the zone `Etc/GMT+10`.
pub open spec fn gmt_plus_10_rows() -> spec_fn(int) -> (i64, FixedTimespan) {
    |i: int| gmt_plus_10_row(i)
}

/// The table of the zone `Etc/GMT+10`.
pub open spec fn gmt_plus_10() -> Table {
    Table::listed(Table::row(0, -36000, 0, "-10").1, 0, gmt_plus_10_rows())
}

/// Row `i` of the table of the zone `Etc/GMT+11`.
pub open spec fn gmt_plus_11_row(i: int) -> (i64, FixedTimespan) {
    Table::row(0, -39600, 0, "-11")
}

/// The rows of the table of the zone `Etc/GMT+11`.
pub open spec fn gmt_plus_11_rows() -> spec_fn(int) -> (i64, FixedTimespan) {
    |i: int| gmt_plus_11_row(i)
}

/// The table of the zone `Etc/GMT+11`.
pub open spec fn gmt_plus_11() -> Table {
    Table::listed(Table::row(0, -39600, 0, "-11").1, 0, gmt_plus_11_rows())
}

/// Row `i` of the table of the zone `Etc/GMT+12`.
pub open spec fn gmt_plus_12_row(i: int) -> (i64, FixedTimespan) {
    Table::row(0, -43200, 0, "-12")
}

/// The rows of the table of the zone `Etc/GMT+12`.
pub open spec fn gmt_plus_12_rows() -> spec_fn(int) -> (i64, FixedTimespan) {
    |i: int| gmt_plus_12_row(i)
}

/// The table of the zone `Etc/GMT+12`.
pub open spec fn gmt_plus_12() -> Table {
    Table::listed(Table::row(0, -43200, 0, "-12").1, 0, gmt_plus_12_rows())
}

/// Row `i` of the table of the zone `Etc/GMT+2`.
pub open spec fn gmt_plus_2_row(i: int) -> (i64, FixedTimespan) {
    Table::row(0, -7200, 0, "-02")
}

/// The rows of the table of the zone `Etc/GMT+2`.
pub open spec fn gmt_plus_2_rows() -> spec_fn(int) -> (i64, FixedTimespan) {
    |i: int| gmt_plus_2_row(i)
}

/// The table of the zone `Etc/GMT+2`.
pub open spec fn gmt_plus_2() -> Table {
    Table::listed(Table::row(0, -7200, 0, "-02").1, 0, gmt_plus_2_rows())
}

/// Row `i` of the table of the zone `Etc/GMT+3`.
pub open spec fn gmt_plus_3_row(i: int) -> (i64, FixedTimespan) {
    Table::row(0, -10800, 0, "-03")
}

/// The rows of the table of the zone `Etc/GMT+3`.
pub open spec fn gmt_plus_3_rows() -> spec_fn(int) -> (i64, FixedTimespan) {
    |i: int| gmt_plus_3_row(i)
}

/// The table of the zone `Etc/GMT+3`.
pub open spec fn gmt_plus_3() -> Table {
    Table::listed(Table::row(0, -10800, 0, "-03").1, 0, gmt_plus_3_rows())
}

/// Row `i` of the table of the zone `Etc/GMT+4`.
pub open spec fn gmt_plus_4_row(i: int) -> (i64, FixedTimespan) {
    Table::row(0, -14400, 0, "-04")
}

/// The rows of the table of the zone `Etc/GMT+4`.
pub open spec fn gmt_plus_4_rows() -> spec_fn(int) -> (i64, FixedTimespan) {
    |i: int| gmt_plus_4_row(i)
}

/// The table of the zone `Etc/GMT+4`.
pub open spec fn gmt_plus_4() -> Table {
    Table::listed(Table::row(0, -14400, 0, "-04").1, 0, gmt_plus_4_rows())
}

/// Row `i` of the table of the zone `Etc/GMT+5`.
pub open spec fn gmt_plus_5_row(i: int) -> (i64, FixedTimespan) {
    Table::row(0, -18000, 0, "-05")
}

/// The rows of the table of the zone `Etc/GMT+5`.
pub open spec fn gmt_plus_5_rows() -> spec_fn(int) -> (i64, FixedTimespan) {
    |i: int| gmt_plus_5_row(i)
}

/// The table of the zone `Etc/GMT+5`.
pub open spec fn gmt_plus_5() -> Table {
    Table::listed(Table::row(0, -18000, 0, "-05").1, 0, gmt_plus_5_rows())
}

/// Row `i` of the table of the zone `Etc/GMT+6`.
pub open spec fn gmt_plus_6_row(i: int) -> (i64, FixedTimespan) {
    Table::row(0, -21600, 0, "-06")
}

/// The rows of the table of the zone `Etc/GMT+6`.
pub open spec fn gmt_plus_6_rows() -> spec_fn(int) -> (i64, FixedTimespan) {
    |i: int| gmt_plus_6_row(i)
}

/// The table of the zone `Etc/GMT+6`.
pub open spec fn gmt_plus_6() -> Table {
    Table::listed(Table::row(0, -21600, 0, "-06").1, 0, gmt_plus_6_rows())
}

/// Row `i` of the table of the zone `Etc/GMT+7`.
pub open spec fn gmt_plus_7_row(i: int) -> (i64, FixedTimespan) {
    Table::row(0, -25200, 0, "-07")
}

/// The rows of the table of the zone `Etc/GMT+7`.
pub open spec fn gmt_plus_7_rows() -> spec_fn(int) -> (i64, FixedTimespan) {
    |i: int| gmt_plus_7_row(i)
}

/// The table of the zone `Etc/GMT+7`.
pub open spec fn gmt_plus_7() -> Table {
    Table::listed(Table::row(0, -25200, 0, "-07").1, 0, gmt_plus_7_rows())
}

/// Row `i` of the table of the zone `Etc/GMT+8`.
pub open spec fn gmt_plus_8_row(i: int) -> (i64, FixedTimespan) {
    Table::row(0, -28800, 0, "-08")
}

/// The rows of the table of the zone `Etc/GMT+8`.
pub open spec fn gmt_plus_8_rows() -> spec_fn(int) -> (i64, FixedTimespan) {
    |i: int| gmt_plus_8_row(i)
}

/// The table of the zone `Etc/GMT+8`.
pub open spec fn gmt_plus_8() -> Table {
    Table::listed(Table::row(0, -28800, 0, "-08").1, 0, gmt_plus_8_rows())
}

/// Row `i` of the table of the zone `Etc/GMT+9`.
pub open spec fn gmt_plus_9_row(i: int) -> (i64, FixedTimespan) {
    Table::row(0, -32400, 0, "-09")
}

/// The rows of the table of the zone `Etc/GMT+9`.
pub open spec fn gmt_plus_9_rows() -> spec_fn(int) -> (i64, FixedTimespan) {
    |i: int| gmt_plus_9_row(i)
}

/// The table of the zone `Etc/GMT+9`.
pub open spec fn gmt_plus_9() -> Table {
    Table::listed(Table::row(0, -32400, 0, "-09").1, 0, gmt_plus_9_rows())
}

/// Row `i` of the table of the zone `Etc/GMT-0`.
pub open spec fn gmt_minus_0_row(i: int) -> (i64, FixedTimespan) {
    Table::row(0, 0, 0, "GMT")
}

/// The rows of the table of the zone `Etc/GMT-0`.
pub open spec fn gmt_minus_0_rows() -> spec_fn(int) -> (i64, FixedTimespan) {
    |i: int| gmt_minus_0_row(i)
}

/// The table of the zone `Etc/GMT-0`.
pub open spec fn gmt_minus_0() -> Table {
    Table::listed(Table::row(0, 0, 0, "GMT").1, 0, gmt_minus_0_rows())
}

/// Row `i` of the table of the zone `Etc/GMT-1`.
pub open spec fn gmt_minus_1_row(i: int) -> (i64, FixedTimespan) {
    Table::row(0, 3600, 0, "+01")
}

/// The rows of the table of the zone `Etc/GMT-1`.
pub open spec fn gmt_minus_1_rows() -> spec_fn(int) -> (i64, FixedTimespan) {
    |i: int| gmt_minus_1_row(i)
}

/// The table of the zone `Etc/GMT-1`.
pub open spec fn gmt_minus_1() -> Table {
    Table::listed(Table::row(0, 3600, 0, "+01").1, 0, gmt_minus_1_rows())
}

/// Row `i` of the table of the zone `Etc/GMT-10`.
pub open spec fn gmt_minus_10_row(i: int) -> (i64, FixedTimespan) {
    Table::row(0, 36000, 0, "+10")
}

/// The rows of the table of the zone `Etc/GMT-10`.
pub open spec fn gmt_minus_10_rows() -> spec_fn(int) -> (i64, FixedTimespan) {
    |i: int| gmt_minus_10_row(i)
}

/// The table of the zone `Etc/GMT-10`.
pub open spec fn gmt_minus_10() -> Table {
    Table::listed(Table::row(0, 36000, 0, "+10").1, 0, gmt_minus_10_rows())
}

/// Row `i` of the table of the zone `Etc/GMT-11`.
pub open spec fn gmt_minus_11_row(i: int) -> (i64, FixedTimespan) {
    Table::row(0, 39600, 0, "+11")
}

/// The rows of the table of the zone `Etc/GMT-11`.
pub open spec fn gmt_minus_11_rows() -> spec_fn(int) -> (i64, FixedTimespan) {
    |i: int| gmt_minus_11_row(i)
}

/// The table of the zone `Etc/GMT-11`.
pub open spec fn gmt_minus_11() -> Table {
    Table::listed(Table::row(0, 39600, 0, "+11").1, 0, gmt_minus_11_rows())
}

/// Row `i` of the table of the zone `Etc/GMT-12`.
pub open spec fn gmt_minus_12_row(i: int) -> (i64, FixedTimespan) {
    Table::row(0, 43200, 0, "+12")
}

/// The rows of the table of the zone `Etc/GMT-12`.
pub open spec fn gmt_minus_12_rows() -> spec_fn(int) -> (i64, FixedTimespan) {
    |i: int| gmt_minus_12_row(i)
}

/// The table of the zone `Etc/GMT-12`.
pub open spec fn gmt_minus_12() -> Table {
    Table::listed(Table::row(0, 43200, 0, "+12").1, 0, gmt_minus_12_rows())
}

/// Row `i` of the table of the zone `Etc/GMT-13`.
pub open spec fn gmt_minus_13_row(i: int) -> (i64, FixedTimespan) {
    Table::row(0, 46800, 0, "+13")
}

/// The rows of the table of the zone `Etc/GMT-13`.
pub open spec fn gmt_minus_13_rows() -> spec_fn(int) -> (i64, FixedTimespan) {
    |i: int| gmt_minus_13_row(i)
}

/// The table of the zone `Etc/GMT-13`.
pub open spec fn gmt_minus_13() -> Table {
    Table::listed(Table::row(0, 46800, 0, "+13").1, 0, gmt_minus_13_rows())
}

/// Row `i` of the table of the zone `Etc/GMT-14`.
pub open spec fn gmt_minus_14_row(i: int) -> (i64, FixedTimespan) {
    Table::row(0, 50400, 0, "+14")
}

/// The rows of the table of the zone `Etc/GMT-14`.
pub open spec fn gmt_minus_14_rows() -> spec_fn(int) -> (i64, FixedTimespan) {
    |i: int| gmt_minus_14_row(i)
}

/// The table of the zone `Etc/GMT-14`.
pub open spec fn gmt_minus_14() -> Table {
    Table::listed(Table::row(0, 50400, 0, "+14").1, 0, gmt_minus_14_rows())
}

/// Row `i` of the table of the zone `Etc/GMT-2`.
pub open spec fn gmt_minus_2_row(i: int) -> (i64, FixedTimespan) {
    Table::row(0, 7200, 0, "+02")
}

/// The rows of the table of the zone `Etc/GMT-2`.
pub open spec fn gmt_minus_2_rows() -> spec_fn(int) -> (i64, FixedTimespan) {
    |i: int| gmt_minus_2_row(i)
}

/// The table of the zone `Etc/GMT-2`.
pub open spec fn gmt_minus_2() -> Table {
    Table::listed(Table::row(0, 7200, 0, "+02").1, 0, gmt_minus_2_rows())
}

/// Row `i` of the table of the zone `Etc/GMT-3`.
pub open spec fn gmt_minus_3_row(i: int) -> (i64, FixedTimespan) {
    Table::row(0, 10800, 0, "+03")
}

/// The rows of the table of the zone `Etc/GMT-3`.
pub open spec fn gmt_minus_3_rows() -> spec_fn(int) -> (i64, FixedTimespan) {
    |i: int| gmt_minus_3_row(i)
}

/// The table of the zone `Etc/GMT-3`.
pub open spec fn gmt_minus_3() -> Table {
    Table::listed(Table::row(0, 10800, 0, "+03").1, 0, gmt_minus_3_rows())
}

/// Row `i` of the table of the zone `Etc/GMT-4`.
pub open spec fn gmt_minus_4_row(i: int) -> (i64, FixedTimespan) {
    Table::row(0, 14400, 0, "+04")
}

/// The rows of the table of the zone `Etc/GMT-4`.
pub open spec fn gmt_minus_4_rows() -> spec_fn(int) -> (i64, FixedTimespan) {
    |i: int| gmt_minus_4_row(i)
}

/// The table of the zone `Etc/GMT-4`.
pub open spec fn gmt_minus_4() -> Table {
    Table::listed(Table::row(0, 14400, 0, "+04").1, 0, gmt_minus_4_rows())
}

/// Row `i` of the table of the zone `Etc/GMT-5`.
pub open spec fn gmt_minus_5_row(i: int) -> (i64, FixedTimespan) {
    Table::row(0, 18000, 0, "+05")
}

/// The rows of the table of the zone `Etc/GMT-5`.
pub open spec fn gmt_minus_5_rows() -> spec_fn(int) -> (i64, FixedTimespan) {
    |i: int| gmt_minus_5_row(i)
}

/// The table of the zone `Etc/GMT-5`.
pub open spec fn gmt_minus_5() -> Table {
    Table::listed(Table::row(0, 18000, 0, "+05").1, 0, gmt_minus_5_rows())
}

/// Row `i` of the table of the zone `Etc/GMT-6`.
pub open spec fn gmt_minus_6_row(i: int) -> (i64, FixedTimespan) {
    Table::row(0, 21600, 0, "+06")
}

/// The rows of the table of the zone `Etc/GMT-6`.
pub open spec fn gmt_minus_6_rows() -> spec_fn(int) -> (i64, FixedTimespan) {
    |i: int| gmt_minus_6_row(i)
}

/// The table of the zone `Etc/GMT-6`.
pub open spec fn gmt_minus_6() -> Table {
    Table::listed(Table::row(0, 21600, 0, "+06").1, 0, gmt_minus_6_rows())
}

/// Row `i` of the table of the zone `Etc/GMT-7`.
pub open spec fn gmt_minus_7_row(i: int) -> (i64, FixedTimespan) {
    Table::row(0, 25200, 0, "+07")
}

/// The rows of the table of the zone `Etc/GMT-7`.
pub open spec fn gmt_minus_7_rows() -> spec_fn(int) -> (i64, FixedTimespan) {
    |i: int| gmt_minus_7_row(i)
}

/// The table of the zone `Etc/GMT-7`.
pub open spec fn gmt_minus_7() -> Table {
    Table::listed(Table::row(0, 25200, 0, "+07").1, 0, gmt_minus_7_rows())
}

/// Row `i` of the table of the zone `Etc/GMT-8`.
pub open spec fn gmt_minus_8_row(i: int) -> (i64, FixedTimespan) {
    Table::row(0, 28800, 0, "+08")
}

/// The rows of the table of the zone `Etc/GMT-8`.
pub open spec fn gmt_minus_8_rows() -> spec_fn(int) -> (i64, FixedTimespan) {
    |i: int| gmt_minus_8_row(i)
}

/// The table of the zone `Etc/GMT-8`.
pub open spec fn gmt_minus_8() -> Table {
    Table::listed(Table::row(0, 28800, 0, "+08").1, 0, gmt_minus_8_rows())
}

/// Row `i` of the table of the zone `Etc/GMT-9`.
pub open spec fn gmt_minus_9_row(i: int) -> (i64, FixedTimespan) {
    Table::row(0, 32400, 0, "+09")
}

/// The rows of the table of the zone `Etc/GMT-9`.
pub open spec fn gmt_minus_9_rows() -> spec_fn(int) -> (i64, FixedTimespan) {
    |i: int| gmt_minus_9_row(i)
}

/// The table of the zone `Etc/GMT-9`.
pub open spec fn gmt_minus_9() -> Table {
    Table::listed(Table::row(0, 32400, 0, "+09").1, 0, gmt_minus_9_rows())
}

/// Row `i` of the table of the zone `Etc/GMT0`.
pub open spec fn gmt0_row(i: int) -> (i64, FixedTimespan) {
    Table::row(0, 0, 0, "GMT")
}

/// The rows of the table of the zone `Etc/GMT0`.
pub open spec fn gmt0_rows() -> spec_fn(int) -> (i64, FixedTimespan) {
    |i: int| gmt0_row(i)
}

/// The table of the zone `Etc/GMT0`.
pub open spec fn gmt0() -> Table {
    Table::listed(Table::row(0, 0, 0, "GMT").1, 0, gmt0_rows())
}

/// Row `i` of the table of the zone `Etc/Greenwich`.
pub open spec fn greenwich_row(i: int) -> (i64, FixedTimespan) {
    Table::row(0, 0, 0, "GMT")
}

/// The rows of the table of the zone `Etc/Greenwich`.
pub open spec fn greenwich_rows() -> spec_fn(int) -> (i64, FixedTimespan) {
    |i: int| greenwich_row(i)
}

/// The table of the zone `Etc/Greenwich`.
pub open spec fn greenwich() -> Table {
    Table::listed(Table::row(0, 0, 0, "GMT").1, 0, greenwich_rows())
}

/// Row `i` of the table of the zone `Etc/UCT`.
pub open spec fn uct_row(i: int) -> (i64, FixedTimespan) {
    Table::row(0, 0, 0, "UTC")
}

/// The rows of the table of the zone `Etc/UCT`.
pub open spec fn uct_rows() -> spec_fn(int) -> (i64, FixedTimespan) {
    |i: int| uct_row(i)
}

/// The table of the zone `Etc/UCT`.
pub open spec fn uct() -> Table {
    Table::listed(Table::row(0, 0, 0, "UTC").1, 0, uct_rows())
}

/// Row `i` of the table of the zone `Etc/UTC`.
pub open spec fn utc_row(i: int) -> (i64, FixedTimespan) {
    Table::row(0, 0, 0, "UTC")
}

/// The rows of the table of the zone `Etc/UTC`.
pub open spec fn utc_rows() -> spec_fn(int) -> (i64, FixedTimespan) {
    |i: int| utc_row(i)
}

/// The table of the zone `Etc/UTC`.
pub open spec fn utc() -> Table {
    Table::listed(Table::row(0, 0, 0, "UTC").1, 0, utc_rows())
}

/// Row `i` of the table of the zone `Etc/Universal`.
pub open spec fn universal_row(i: int) -> (i64, FixedTimespan) {
    Table::row(0, 0, 0, "UTC")
}

/// The rows of the table of the zone `Etc/Universal`.
pub open spec fn universal_rows() -> spec_fn(int) -> (i64, FixedTimespan) {
    |i: int| universal_row(i)
}

/// The table of the zone `Etc/Universal`.
pub open spec fn universal() -> Table {
    Table::listed(Table::row(0, 0, 0, "UTC").1, 0, universal_rows())
}

/// Row `i` of the table of the zone `Etc/Zulu`.
pub open spec fn zulu_row(i: int) -> (i64, FixedTimespan) {
    Table::row(0, 0, 0, "UTC")
}

/// The rows of the table of the zone `Etc/Zulu`.
pub open spec fn zulu_rows() -> spec_fn(int) -> (i64, FixedTimespan) {
    |i: int| zulu_row(i)
}

/// The table of the zone `Etc/Zulu`.
pub open spec fn zulu() -> Table {
    Table::listed(Table::row(0, 0, 0, "UTC").1, 0, zulu_rows())
}

} // verus!
