//! What date-times and resolved readings can do with a time zone.

use crate::datetime::{
    lemma_reading, local_in_range, OffsetDateTime, PrimitiveDateTime, UtcOffset,
};
use crate::interface::{Offset, OffsetError, OffsetResult, TimeZone, ToTimezone};
use crate::zoned::ZonedDateTime;
use vstd::prelude::*;

verus! {

/// `d` is the reading `local`, made at an offset of `seconds`.
pub open spec fn reads_as(d: OffsetDateTime, local: PrimitiveDateTime, seconds: int) -> bool {
    d.local() == local && d.offset_spec().wf() && d.offset_spec().seconds() == seconds
}

/// `r` is what the reading `local` becomes once a zone has resolved it to
/// `resolved`: the reading at the one offset, at each of the two, or
/// undefined.
pub open spec fn assumed<O: Offset>(
    local: PrimitiveDateTime,
    resolved: OffsetResult<O>,
    r: OffsetResult<OffsetDateTime>,
) -> bool {
    match resolved {
        Ok(o) => r matches Ok(d) && reads_as(d, local, o.utc_seconds()),
        Err(OffsetError::Ambiguous(a, b)) => r matches Err(OffsetError::Ambiguous(x, y))
            && reads_as(x, local, a.utc_seconds()) && reads_as(y, local, b.utc_seconds()),
        Err(OffsetError::Undefined) => r matches Err(OffsetError::Undefined),
    }
}

/// `r` is the reading `local` resolved in the zone `tz` and put in it.
pub open spec fn resolved_in<'a, T: TimeZone>(
    local: PrimitiveDateTime,
    tz: &T,
    r: OffsetResult<ZonedDateTime<'a, T>>,
) -> bool {
    match tz.offset_at_local(local.local_seconds()) {
        Ok(o) => r matches Ok(z) && z.zone() == tz && reads_as(
            z.date_time(),
            local,
            o.utc_seconds(),
        ),
        Err(OffsetError::Ambiguous(a, b)) => r matches Err(OffsetError::Ambiguous(x, y)) && x.zone()
            == tz && y.zone() == tz && reads_as(x.date_time(), local, a.utc_seconds()) && reads_as(
            y.date_time(),
            local,
            b.utc_seconds(),
        ),
        Err(OffsetError::Undefined) => r matches Err(OffsetError::Undefined),
    }
}

/// What a date-time with an offset can do with a time zone.
pub trait OffsetDateTimeExt {
    /// This date-time.
    spec fn this(&self) -> OffsetDateTime;

    /// The same instant read in UTC. The reading in UTC must fall on a date
    /// that can be represented.
    fn to_utc(&self) -> (r: OffsetDateTime)
        requires
            local_in_range(self.this().timestamp()),
        ensures
            r.wf(),
            r.same_instant(self.this()),
            r.offset_spec().seconds() == 0,
    ;

    /// The same instant in the zone `tz`. The readings in UTC and in the zone
    /// must fall on dates that can be represented.
    fn with_timezone<'a, T: TimeZone>(&self, tz: &'a T) -> (r: ZonedDateTime<'a, T>)
        requires
            local_in_range(self.this().timestamp()),
            local_in_range(
                self.this().timestamp() + tz.offset_at_utc(self.this().timestamp()).utc_seconds(),
            ),
        ensures
            r.zone() == tz,
            r.date_time().wf(),
            r.date_time().same_instant(self.this()),
            r.date_time().offset_spec().seconds() == tz.offset_at_utc(
                self.this().timestamp(),
            ).utc_seconds(),
    ;
}

/// What a wall-clock reading can do with a time zone.
pub trait PrimitiveDateTimeExt {
    /// This reading.
    spec fn this(&self) -> PrimitiveDateTime;

    /// The reading taken as one made in the zone `tz`: at the one offset
    /// that the zone has for it, at each of the two, or undefined.
    fn assume_timezone<T: TimeZone>(&self, tz: &T) -> (r: OffsetResult<OffsetDateTime>)
        ensures
            assumed(self.this(), tz.offset_at_local(self.this().local_seconds()), r),
    ;

    /// The reading at the offset that the zone `tz` has at the instant that
    /// the reading would be in UTC.
    fn assume_timezone_utc<T: TimeZone>(&self, tz: &T) -> (r: OffsetDateTime)
        ensures
            reads_as(r, self.this(), tz.offset_at_utc(self.this().local_seconds()).utc_seconds()),
    ;

    /// The reading taken as one made in the zone `tz`, and kept with the
    /// zone.
    fn with_timezone<T: TimeZone>(self, tz: &T) -> (r: OffsetResult<ZonedDateTime<'_, T>>)
        ensures
            resolved_in(self.this(), tz, r),
    ;
}

/// What the result of resolving a reading can do.
pub trait OffsetResultExt<T>: Sized {
    /// This result.
    spec fn this(self) -> OffsetResult<T>;

    /// The result with `f` applied to each of its values, the first one
    /// first.
    fn map_all<R, F: Fn(&T) -> R>(&self, f: F) -> (r: OffsetResult<R>)
        requires
            match (*self).this() {
                Ok(a) => call_requires(f, (&a,)),
                Err(OffsetError::Ambiguous(a, b)) => call_requires(f, (&a,)) && call_requires(
                    f,
                    (&b,),
                ),
                Err(OffsetError::Undefined) => true,
            },
        ensures
            match (*self).this() {
                Ok(a) => r matches Ok(x) && call_ensures(f, (&a,), x),
                Err(OffsetError::Ambiguous(a, b)) => r matches Err(OffsetError::Ambiguous(x, y))
                    && call_ensures(f, (&a,), x) && call_ensures(f, (&b,), y),
                Err(OffsetError::Undefined) => r matches Err(OffsetError::Undefined),
            },
    ;

    /// The value, or the first of the two. The reading must not be
    /// undefined.
    fn unwrap_first(self) -> (r: T)
        requires
            !(self.this() matches Err(OffsetError::Undefined)),
        ensures
            r == match self.this() {
                Ok(a) => a,
                Err(e) => e->Ambiguous_0,
            },
    ;

    /// The value, or the second of the two. The reading must not be
    /// undefined.
    fn unwrap_second(self) -> (r: T)
        requires
            !(self.this() matches Err(OffsetError::Undefined)),
        ensures
            r == match self.this() {
                Ok(a) => a,
                Err(e) => e->Ambiguous_1,
            },
    ;

    /// The value, or the first of the two, or nothing.
    fn take_first(self) -> (r: Option<T>)
        ensures
            r == match self.this() {
                Ok(a) => Some(a),
                Err(OffsetError::Ambiguous(a, _)) => Some(a),
                Err(OffsetError::Undefined) => None,
            },
    ;

    /// The value, or the second of the two, or nothing.
    fn take_second(self) -> (r: Option<T>)
        ensures
            r == match self.this() {
                Ok(a) => Some(a),
                Err(OffsetError::Ambiguous(_, b)) => Some(b),
                Err(OffsetError::Undefined) => None,
            },
    ;

    /// Whether the reading has one value.
    fn is_some(&self) -> (r: bool)
        ensures
            r == ((*self).this() is Ok),
    ;

    /// Whether the reading is undefined.
    fn is_none(&self) -> (r: bool)
        ensures
            r == ((*self).this() matches Err(OffsetError::Undefined)),
    ;

    /// Whether the reading is undefined.
    fn is_undefined(&self) -> (r: bool)
        ensures
            r == ((*self).this() matches Err(OffsetError::Undefined)),
    ;

    /// Whether the reading has two values.
    fn is_ambiguous(&self) -> (r: bool)
        ensures
            r == ((*self).this() matches Err(OffsetError::Ambiguous(_, _))),
    ;
}

impl PrimitiveDateTimeExt for PrimitiveDateTime {
    open spec fn this(&self) -> PrimitiveDateTime {
        *self
    }

    fn assume_timezone<T: TimeZone>(&self, tz: &T) -> (r: OffsetResult<OffsetDateTime>) {
        let as_utc = self.assume_utc();
        match tz.get_offset_local(&as_utc) {
            Ok(a) => Ok(self.assume_offset(a.to_utc())),
            Err(e) => match e {
                OffsetError::Ambiguous(a, b) => Err(
                    OffsetError::Ambiguous(
                        self.assume_offset(a.to_utc()),
                        self.assume_offset(b.to_utc()),
                    ),
                ),
                OffsetError::Undefined => Err(OffsetError::Undefined),
            },
        }
    }

    fn assume_timezone_utc<T: TimeZone>(&self, tz: &T) -> (r: OffsetDateTime) {
        let as_utc = self.assume_utc();
        let offset = tz.get_offset_utc(&as_utc);
        self.assume_offset(offset.to_utc())
    }

    fn with_timezone<T: TimeZone>(self, tz: &T) -> (r: OffsetResult<ZonedDateTime<'_, T>>) {
        ZonedDateTime::from_local(self, tz)
    }
}

impl OffsetDateTimeExt for OffsetDateTime {
    open spec fn this(&self) -> OffsetDateTime {
        *self
    }

    fn to_utc(&self) -> (r: OffsetDateTime) {
        if self.offset().is_utc() {
            proof {
                use_type_invariant(self);
            }
            *self
        } else {
            self.to_offset(UtcOffset::utc())
        }
    }

    fn with_timezone<'a, T: TimeZone>(&self, tz: &'a T) -> (r: ZonedDateTime<'a, T>) {
        ZonedDateTime::from_utc(self.to_utc(), tz)
    }
}

impl<T: TimeZone> ToTimezone<&T> for OffsetDateTime {
    type Out = OffsetDateTime;

    type CheckedOut = Option<OffsetDateTime>;

    /// The reading in the zone falls on a date that can be represented.
    open spec fn convertible(&self, tz: &T) -> bool {
        local_in_range(self.timestamp() + tz.offset_at_utc(self.timestamp()).utc_seconds())
    }

    /// The same instant, read at the offset that the zone has at it.
    open spec fn converted(&self, tz: &T, out: OffsetDateTime) -> bool {
        &&& out.wf()
        &&& out.same_instant(*self)
        &&& out.offset_spec().seconds() == tz.offset_at_utc(self.timestamp()).utc_seconds()
    }

    /// The conversion where the reading in the zone can be represented,
    /// nothing where it cannot.
    open spec fn checked_converted(&self, tz: &T, out: Option<OffsetDateTime>) -> bool {
        &&& out is Some <==> self.convertible(tz)
        &&& out matches Some(d) ==> self.converted(tz, d)
    }

    fn to_timezone(&self, tz: &T) -> (out: OffsetDateTime) {
        let offset = tz.get_offset_utc(self);
        self.to_offset(offset.to_utc())
    }

    fn checked_to_timezone(&self, tz: &T) -> (out: Option<OffsetDateTime>) {
        let offset = tz.get_offset_utc(self);
        self.checked_to_offset(offset.to_utc())
    }
}

/// An instant read in UTC, converted to a zone and from there back to UTC,
/// is the date-time that one began with; the conversion to the zone keeps
/// the instant.
pub proof fn law_round_trip<T: TimeZone>(
    start: OffsetDateTime,
    tz: &T,
    there: OffsetDateTime,
    back: OffsetDateTime,
)
    requires
        start.wf(),
        start.offset_spec().seconds() == 0,
        ToTimezone::<&T>::converted(&start, tz, there),
        back.wf(),
        back.same_instant(there),
        back.offset_spec().seconds() == 0,
    ensures
        there.same_instant(start),
        back == start,
{
    lemma_reading(start);
    lemma_reading(back);
}

impl<T> OffsetResultExt<T> for OffsetResult<T> {
    open spec fn this(self) -> OffsetResult<T> {
        self
    }

    fn map_all<R, F: Fn(&T) -> R>(&self, f: F) -> (r: OffsetResult<R>) {
        match self {
            Ok(a) => Ok(f(a)),
            Err(OffsetError::Ambiguous(a, b)) => {
                let x = f(a);
                let y = f(b);
                Err(OffsetError::Ambiguous(x, y))
            },
            Err(OffsetError::Undefined) => Err(OffsetError::Undefined),
        }
    }

    fn unwrap_first(self) -> (r: T) {
        match self {
            Ok(a) => a,
            Err(e) => e.unwrap_first(),
        }
    }

    fn unwrap_second(self) -> (r: T) {
        match self {
            Ok(a) => a,
            Err(e) => e.unwrap_second(),
        }
    }

    fn take_first(self) -> (r: Option<T>) {
        match self {
            Ok(a) => Some(a),
            Err(e) => e.take_first(),
        }
    }

    fn take_second(self) -> (r: Option<T>) {
        match self {
            Ok(a) => Some(a),
            Err(e) => e.take_second(),
        }
    }

    fn is_some(&self) -> (r: bool) {
        self.is_ok()
    }

    fn is_none(&self) -> (r: bool) {
        match self {
            Ok(_) => false,
            Err(e) => e.is_undefined(),
        }
    }

    fn is_undefined(&self) -> (r: bool) {
        match self {
            Ok(_) => false,
            Err(e) => e.is_undefined(),
        }
    }

    fn is_ambiguous(&self) -> (r: bool) {
        match self {
            Ok(_) => false,
            Err(e) => e.is_ambiguous(),
        }
    }
}

} // verus!
