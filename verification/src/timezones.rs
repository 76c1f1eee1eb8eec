//! The registry of named zones.
//!
//! A zone is known by its name in the time zone database. A vendor name
//! stands for one or more of these zones, the first of them the one to take.
//! Where a name is both, a lookup takes it as the name of a zone.

pub mod db;
pub mod index;
pub mod tables;

use crate::datetime::{local_in_range, OffsetDateTime};
use crate::interface::{Offset, TimeZone, ToTimezone};
use crate::text::{
    chars_contain, chars_eq, first_index, lemma_first_index_absent, lemma_first_index_found,
    places_with, to_chars,
};
use crate::timezone_impl::{FixedTimespan, Tz};
use crate::timezones::index::{
    names, table_at, vendor_name, vendor_names, vendor_zone_list, vendor_zones, zone, zone_name,
    VENDOR_COUNT, ZONE_COUNT,
};
use vstd::prelude::*;

verus! {

/// The place of the vendor name `name` in the list of vendor names.
pub open spec fn vendor_place(name: Seq<char>) -> Option<int> {
    first_index(vendor_names(), name, 0)
}

/// The place in the list of zones of the zone that `name` names: the zone
/// called `name`, or else the first zone of the vendor name `name`.
pub open spec fn lookup(name: Seq<char>) -> Option<int> {
    match first_index(names(), name, 0) {
        Some(i) => Some(i),
        None => match vendor_place(name) {
            Some(v) => if vendor_zones()[v].len() > 0 {
                Some(vendor_zones()[v][0])
            } else {
                None
            },
            None => None,
        },
    }
}

/// The places in the list of zones of the zones that `name` finds: the zones
/// of the vendor name `name`, or else the zones in whose name `name` stands.
pub open spec fn found(name: Seq<char>) -> Seq<int> {
    match vendor_place(name) {
        Some(v) => vendor_zones()[v],
        None => places_with(names(), name, ZONE_COUNT as int),
    }
}

/// `tz` is the zone at place `i` of the registry: it bears the name and has
/// the table that the registry has there.
pub open spec fn registered(i: int, tz: Tz) -> bool {
    &&& 0 <= i < ZONE_COUNT
    &&& tz.wf()
    &&& tz.zone_name() == names()[i]
    &&& tz.table() == table_at(i)
}

/// Seconds east of UTC that hold at the instant `timestamp` in the zone at
/// place `i` of the registry.
pub open spec fn offset_at(i: int, timestamp: int) -> int {
    table_at(i).resolve_utc(timestamp).total()
}

/// Searches the vendor names for `name`.
fn find_vendor(name: &Vec<char>) -> (r: Option<usize>)
    ensures
        match r {
            Some(v) => vendor_place(name@) == Some(v as int) && v < VENDOR_COUNT,
            None => vendor_place(name@) is None,
        },
{
    assert(vendor_names().len() == VENDOR_COUNT);
    let mut v: usize = 0;
    while v < VENDOR_COUNT
        invariant
            v <= VENDOR_COUNT,
            vendor_names().len() == VENDOR_COUNT,
            forall|j: int| 0 <= j < v ==> vendor_names()[j] != name@,
        decreases VENDOR_COUNT - v,
    {
        let candidate = to_chars(vendor_name(v));
        if chars_eq(&candidate, name) {
            proof {
                lemma_first_index_found(vendor_names(), name@, 0, v as int);
            }
            return Some(v);
        }
        v += 1;
    }
    proof {
        lemma_first_index_absent(vendor_names(), name@, 0);
    }
    None
}

/// Searches the names of the zones for `name`.
fn find_zone(name: &Vec<char>) -> (r: Option<usize>)
    ensures
        match r {
            Some(i) => first_index(names(), name@, 0) == Some(i as int) && i < ZONE_COUNT,
            None => first_index(names(), name@, 0) is None,
        },
{
    assert(names().len() == ZONE_COUNT);
    let mut i: usize = 0;
    while i < ZONE_COUNT
        invariant
            i <= ZONE_COUNT,
            names().len() == ZONE_COUNT,
            forall|j: int| 0 <= j < i ==> names()[j] != name@,
        decreases ZONE_COUNT - i,
    {
        let candidate = to_chars(zone_name(i));
        if chars_eq(&candidate, name) {
            proof {
                lemma_first_index_found(names(), name@, 0, i as int);
            }
            return Some(i);
        }
        i += 1;
    }
    proof {
        lemma_first_index_absent(names(), name@, 0);
    }
    None
}

/// The zones that `name` finds: those of the vendor name `name`, in the
/// vendor's order; or else every zone in whose name `name` stands, in the
/// order of the list of zones.
pub fn find_by_name(name: &str) -> (r: Vec<Tz>)
    ensures
        r@.len() == found(name@).len(),
        forall|k: int| 0 <= k < r@.len() ==> registered(found(name@)[k], #[trigger] r@[k]),
{
    let query = to_chars(name);
    let mut zones: Vec<Tz> = Vec::new();
    match find_vendor(&query) {
        Some(v) => {
            let list = vendor_zone_list(v);
            let mut k: usize = 0;
            while k < list.len()
                invariant
                    k <= list.len(),
                    v < VENDOR_COUNT,
                    list@.len() == vendor_zones()[v as int].len(),
                    forall|j: int|
                        0 <= j < list@.len() ==> list@[j] == vendor_zones()[v as int][j] && list@[j]
                            < ZONE_COUNT,
                    zones@.len() == k,
                    forall|j: int|
                        0 <= j < k ==> registered(vendor_zones()[v as int][j], #[trigger] zones@[j]),
                decreases list.len() - k,
            {
                zones.push(zone(list[k]));
                k += 1;
            }
        },
        None => {
            assert(names().len() == ZONE_COUNT);
            let ghost mut places: Seq<int> = Seq::empty();
            let mut i: usize = 0;
            while i < ZONE_COUNT
                invariant
                    i <= ZONE_COUNT,
                    names().len() == ZONE_COUNT,
                    query@ == name@,
                    places == places_with(names(), name@, i as int),
                    zones@.len() == places.len(),
                    forall|j: int| 0 <= j < zones@.len() ==> registered(places[j], #[trigger] zones@[j]),
                decreases ZONE_COUNT - i,
            {
                let candidate = to_chars(zone_name(i));
                if chars_contain(&candidate, &query) {
                    let ghost held = zones@;
                    zones.push(zone(i));
                    proof {
                        let grown = places.push(i as int);
                        assert forall|j: int| 0 <= j < zones@.len() implies registered(
                            grown[j],
                            #[trigger] zones@[j],
                        ) by {
                            if j < held.len() {
                                assert(zones@[j] == held[j]);
                                assert(grown[j] == places[j]);
                            }
                        }
                        places = grown;
                    }
                }
                i += 1;
            }
        },
    }
    zones
}

/// Every zone of the registry, in the order of the list of zones.
pub fn iter() -> (r: Vec<Tz>)
    ensures
        r@.len() == ZONE_COUNT,
        forall|k: int| 0 <= k < r@.len() ==> registered(k, #[trigger] r@[k]),
{
    let mut zones: Vec<Tz> = Vec::new();
    let mut i: usize = 0;
    while i < ZONE_COUNT
        invariant
            i <= ZONE_COUNT,
            zones@.len() == i,
            forall|k: int| 0 <= k < i ==> registered(k, #[trigger] zones@[k]),
        decreases ZONE_COUNT - i,
    {
        zones.push(zone(i));
        i += 1;
    }
    zones
}

/// The zone that `name` names: the zone called `name`, or else the first
/// zone of the vendor name `name`.
pub fn get_by_name(name: &str) -> (r: Option<Tz>)
    ensures
        r is Some <==> lookup(name@) is Some,
        r matches Some(tz) ==> registered(lookup(name@)->0, tz),
{
    let query = to_chars(name);
    match find_zone(&query) {
        Some(i) => Some(zone(i)),
        None => match find_vendor(&query) {
            Some(v) => {
                let list = vendor_zone_list(v);
                if list.len() > 0 {
                    Some(zone(list[0]))
                } else {
                    None
                }
            },
            None => None,
        },
    }
}

/// The zone `UTC` holds the offset of Greenwich at every instant.
pub proof fn law_utc_is_fixed(timestamp: int)
    ensures
        tables::utc().resolve_utc(timestamp).total() == 0,
{
    let t = tables::utc();
    FixedTimespan::lemma_regime(0, 0, "UTC");
    assert(t.wf());
    assert(t.utc_contains(0, timestamp));
    t.lemma_utc_total(timestamp);
}

impl ToTimezone<&str> for OffsetDateTime {
    type Out = Option<OffsetDateTime>;

    type CheckedOut = Option<OffsetDateTime>;

    /// The name is unknown, or the reading in the zone it names falls on a
    /// date that can be represented.
    open spec fn convertible(&self, tz: &str) -> bool {
        lookup(tz@) matches Some(i) ==> local_in_range(
            self.timestamp() + offset_at(i, self.timestamp()),
        )
    }

    /// Nothing for an unknown name; else the same instant, read at the offset
    /// that holds at it in the zone that the name names.
    open spec fn converted(&self, tz: &str, out: Option<OffsetDateTime>) -> bool {
        &&& out is Some <==> lookup(tz@) is Some
        &&& out matches Some(d) ==> d.wf() && d.same_instant(*self) && d.offset_spec().seconds()
            == offset_at(lookup(tz@)->0, self.timestamp())
    }

    /// Nothing for an unknown name or a reading that cannot be represented;
    /// else as for the unchecked conversion.
    open spec fn checked_converted(&self, tz: &str, out: Option<OffsetDateTime>) -> bool {
        &&& out is Some <==> lookup(tz@) is Some && self.convertible(tz)
        &&& out matches Some(d) ==> d.wf() && d.same_instant(*self) && d.offset_spec().seconds()
            == offset_at(lookup(tz@)->0, self.timestamp())
    }

    fn to_timezone(&self, tz: &str) -> (out: Option<OffsetDateTime>) {
        match get_by_name(tz) {
            Some(zone) => {
                let offset = zone.get_offset_utc(self);
                Some(self.to_offset(offset.to_utc()))
            },
            None => None,
        }
    }

    fn checked_to_timezone(&self, tz: &str) -> (out: Option<OffsetDateTime>) {
        match get_by_name(tz) {
            Some(zone) => {
                let offset = zone.get_offset_utc(self);
                self.checked_to_offset(offset.to_utc())
            },
            None => None,
        }
    }
}

} // verus!
