//! The zone of the machine, from what the operating system tells of it.
//!
//! Asking the operating system is left to the caller. What it answers is
//! turned into a zone here: the target of the link `/etc/localtime`, or the
//! status and the key name that Windows reports.

use crate::interface::TimeZone;
use crate::text::{chars_match_at, occurs_at, to_chars};
use crate::timezone_impl::Tz;
use crate::timezones::{get_by_name, lookup, registered};
use vstd::prelude::*;
use vstd::string::StrSliceExecFns;

verus! {

/// Windows reports that the machine has no zone.
pub const TIME_ZONE_ID_INVALID: u32 = 0;

/// Windows reports a zone in standard time.
pub const TIME_ZONE_ID_STANDARD: u32 = 1;

/// Windows reports a zone in daylight saving time.
pub const TIME_ZONE_ID_DAYLIGHT: u32 = 2;

/// Why the zone of the machine is not known.
#[derive(Clone, Copy, Debug, PartialEq, Eq, Structural)]
pub enum Error {
    /// The operating system reported an error of its own.
    Os,
    /// The machine has no zone, or does not tell it.
    Undetermined,
    /// The registry has no zone of that name.
    Unknown,
}

/// What separates the directory of the zone files from a zone's name.
pub open spec fn separator() -> Seq<char> {
    "/zoneinfo/"@
}

/// Where the last piece of `s` begins, when `s` is cut at every `sep` found
/// from `from` on, going from left to right, and the last cut before `from`
/// ended at `start`.
pub open spec fn last_piece_from(s: Seq<char>, sep: Seq<char>, from: int, start: int) -> int
    decreases s.len() - from,
{
    if sep.len() == 0 || from < 0 || from + sep.len() > s.len() {
        start
    } else if occurs_at(s, sep, from) {
        last_piece_from(s, sep, from + sep.len(), from + sep.len())
    } else {
        last_piece_from(s, sep, from + 1, start)
    }
}

/// The name of the zone in the target of the link: what follows the last
/// `/zoneinfo/`, or all of it where there is none.
pub open spec fn zone_part(target: Seq<char>) -> Seq<char> {
    target.subrange(last_piece_from(target, separator(), 0, 0), target.len() as int)
}

/// The zone that the link `/etc/localtime` points to, from the link's target.
pub fn timezone_of_link(target: &str) -> (r: Result<Tz, Error>)
    ensures
        match lookup(zone_part(target@)) {
            Some(i) => r matches Ok(zone) && registered(i, zone),
            None => r matches Err(Error::Unknown),
        },
{
    let s = to_chars(target);
    let sep = to_chars("/zoneinfo/");
    proof {
        reveal_strlit("/zoneinfo/");
    }
    assert(sep@.len() == 10);
    let mut start: usize = 0;
    let mut i: usize = 0;
    while sep.len() <= s.len() && i <= s.len() - sep.len()
        invariant
            sep@ == separator(),
            sep@.len() == 10,
            s@ == target@,
            start <= i <= s.len(),
            last_piece_from(s@, sep@, 0, 0) == last_piece_from(s@, sep@, i as int, start as int),
        decreases s.len() - i,
    {
        if chars_match_at(&s, &sep, i) {
            i += sep.len();
            start = i;
        } else {
            i += 1;
        }
    }
    let name = target.substring_char(start, s.len());
    match get_by_name(name) {
        Some(zone) => Ok(zone),
        None => Err(Error::Unknown),
    }
}

/// What the status that Windows reports tells before the name is looked at.
pub fn check_windows_status(status: u32) -> (r: Result<(), Error>)
    ensures
        r == if status == TIME_ZONE_ID_INVALID {
            Err::<(), Error>(Error::Undetermined)
        } else if status != TIME_ZONE_ID_STANDARD && status != TIME_ZONE_ID_DAYLIGHT {
            Err(Error::Os)
        } else {
            Ok(())
        },
{
    if status == TIME_ZONE_ID_INVALID {
        Err(Error::Undetermined)
    } else if status != TIME_ZONE_ID_STANDARD && status != TIME_ZONE_ID_DAYLIGHT {
        Err(Error::Os)
    } else {
        Ok(())
    }
}

/// The zone of the key name that Windows reports.
pub fn timezone_of_key(name: &str) -> (r: Result<Tz, Error>)
    ensures
        if name@.len() == 0 {
            r matches Err(Error::Undetermined)
        } else {
            match lookup(name@) {
                Some(i) => r matches Ok(zone) && registered(i, zone),
                None => r matches Err(Error::Unknown),
            }
        },
{
    if name.unicode_len() == 0 {
        return Err(Error::Undetermined);
    }
    match get_by_name(name) {
        Some(zone) => Ok(zone),
        None => Err(Error::Unknown),
    }
}

} // verus!
