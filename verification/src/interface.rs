//! What a time zone and an offset are, and what a wall-clock reading can
//! resolve to.

use crate::datetime::{OffsetDateTime, UtcOffset};
use vstd::prelude::*;

verus! {

/// Conversion of a date-time to another time zone.
///
/// `T` is what names the zone: a zone itself, a name, a rule.
pub trait ToTimezone<T> {
    /// What a conversion gives.
    type Out;

    /// What a checked conversion gives.
    type CheckedOut;

    /// The conversion stays within the dates that can be represented.
    spec fn convertible(&self, tz: T) -> bool;

    /// `out` is this date-time in the zone `tz`.
    spec fn converted(&self, tz: T, out: Self::Out) -> bool;

    /// `out` is this date-time in the zone `tz`, or tells that it cannot be
    /// represented there.
    spec fn checked_converted(&self, tz: T, out: Self::CheckedOut) -> bool;

    /// Converts this date-time to the zone `tz`.
    fn to_timezone(&self, tz: T) -> (out: Self::Out)
        requires
            self.convertible(tz),
        ensures
            self.converted(tz, out),
    ;

    /// Converts this date-time to the zone `tz`, if it can be represented
    /// there.
    fn checked_to_timezone(&self, tz: T) -> (out: Self::CheckedOut)
        ensures
            self.checked_converted(tz, out),
    ;
}

/// One offset of a time zone: a regime that holds for a stretch of time.
pub trait Offset {
    /// Seconds east of UTC.
    spec fn utc_seconds(&self) -> int;

    /// The regime's abbreviation.
    spec fn abbreviation(&self) -> Seq<char>;

    /// Whether the regime is daylight saving time.
    spec fn in_dst(&self) -> bool;

    /// The offset from UTC.
    fn to_utc(&self) -> (r: UtcOffset)
        ensures
            r.wf(),
            r.seconds() == self.utc_seconds(),
    ;

    /// The regime's abbreviation.
    fn name(&self) -> (r: &str)
        ensures
            r@ == self.abbreviation(),
    ;

    /// Whether the regime is daylight saving time.
    fn is_dst(&self) -> (r: bool)
        ensures
            r == self.in_dst(),
    ;
}

/// A time zone: for every instant the offset that holds at it.
pub trait TimeZone {
    /// The zone's offsets.
    type Offset: Offset;

    /// The offset that holds at the instant `timestamp`, in seconds from the
    /// epoch.
    spec fn offset_at_utc(&self, timestamp: int) -> Self::Offset;

    /// What the wall-clock reading `local_seconds`, in seconds from the epoch
    /// as if read in UTC, resolves to.
    spec fn offset_at_local(&self, local_seconds: int) -> OffsetResult<Self::Offset>;

    /// The zone's first offset.
    spec fn primary_offset(&self) -> Self::Offset;

    /// The zone's name.
    spec fn zone_name(&self) -> Seq<char>;

    /// The offset that holds at the instant of `date_time`.
    fn get_offset_utc(&self, date_time: &OffsetDateTime) -> (r: Self::Offset)
        ensures
            r == self.offset_at_utc(date_time.timestamp()),
    ;

    /// Resolves a wall-clock reading of this zone, handed over as the instant
    /// it would be in UTC.
    fn get_offset_local(&self, date_time: &OffsetDateTime) -> (r: OffsetResult<Self::Offset>)
        ensures
            r == self.offset_at_local(date_time.timestamp()),
    ;

    /// The zone's first offset: the one to fall back on.
    fn get_offset_primary(&self) -> (r: Self::Offset)
        ensures
            r == self.primary_offset(),
    ;

    /// The zone's name.
    fn name(&self) -> (r: &str)
        ensures
            r@ == self.zone_name(),
    ;
}

/// Why a wall-clock reading has no single offset.
#[derive(Clone, Copy, Debug)]
pub enum OffsetError<T> {
    /// The reading occurs twice: first with the first value, then with the
    /// second.
    Ambiguous(T, T),
    /// The reading never occurs: the clocks skipped it.
    Undefined,
}

impl<T> OffsetError<T> {
    /// Whether the reading never occurs.
    pub fn is_undefined(&self) -> (r: bool)
        ensures
            r == (*self is Undefined),
    {
        match self {
            OffsetError::Ambiguous(_, _) => false,
            OffsetError::Undefined => true,
        }
    }

    /// Whether the reading occurs twice.
    pub fn is_ambiguous(&self) -> (r: bool)
        ensures
            r == (*self is Ambiguous),
    {
        match self {
            OffsetError::Ambiguous(_, _) => true,
            OffsetError::Undefined => false,
        }
    }

    /// The first of the two values of a reading that occurs twice.
    pub fn unwrap_first(self) -> (r: T)
        requires
            self is Ambiguous,
        ensures
            r == self->Ambiguous_0,
    {
        match self {
            OffsetError::Ambiguous(a, _) => a,
            OffsetError::Undefined => unreached(),
        }
    }

    /// The second of the two values of a reading that occurs twice.
    pub fn unwrap_second(self) -> (r: T)
        requires
            self is Ambiguous,
        ensures
            r == self->Ambiguous_1,
    {
        match self {
            OffsetError::Ambiguous(_, b) => b,
            OffsetError::Undefined => unreached(),
        }
    }

    /// The first of the two values, or nothing for a reading that never
    /// occurs.
    pub fn take_first(self) -> (r: Option<T>)
        ensures
            r == match self {
                OffsetError::Ambiguous(a, _) => Some(a),
                OffsetError::Undefined => None,
            },
    {
        match self {
            OffsetError::Ambiguous(a, _) => Some(a),
            OffsetError::Undefined => None,
        }
    }

    /// The second of the two values, or nothing for a reading that never
    /// occurs.
    pub fn take_second(self) -> (r: Option<T>)
        ensures
            r == match self {
                OffsetError::Ambiguous(_, b) => Some(b),
                OffsetError::Undefined => None,
            },
    {
        match self {
            OffsetError::Ambiguous(_, b) => Some(b),
            OffsetError::Undefined => None,
        }
    }

    /// The same error over references to its values.
    pub fn as_ref(&self) -> (r: OffsetError<&T>)
        ensures
            r == match *self {
                OffsetError::Ambiguous(a, b) => OffsetError::Ambiguous(&a, &b),
                OffsetError::Undefined => OffsetError::Undefined,
            },
    {
        match self {
            OffsetError::Ambiguous(a, b) => OffsetError::Ambiguous(a, b),
            OffsetError::Undefined => OffsetError::Undefined,
        }
    }

    /// The error with `f` applied to each of its values, the first one first.
    pub fn map<R, F: Fn(&T) -> R>(self, f: F) -> (r: OffsetError<R>)
        requires
            self matches OffsetError::Ambiguous(a, b) ==> call_requires(f, (&a,)) && call_requires(
                f,
                (&b,),
            ),
        ensures
            match self {
                OffsetError::Ambiguous(a, b) => r matches OffsetError::Ambiguous(x, y)
                    && call_ensures(f, (&a,), x) && call_ensures(f, (&b,), y),
                OffsetError::Undefined => r is Undefined,
            },
    {
        match self {
            OffsetError::Ambiguous(a, b) => {
                let x = f(&a);
                let y = f(&b);
                OffsetError::Ambiguous(x, y)
            },
            OffsetError::Undefined => OffsetError::Undefined,
        }
    }
}

/// What a wall-clock reading resolves to: one value, or the reason why not.
pub type OffsetResult<T> = Result<T, OffsetError<T>>;

} // verus!
