//! Time zone offset resolution.
//!
//! A time zone is a table of offsets in the order of time ([`timezone_impl`]),
//! found in a registry by its name ([`timezones`]), or a rule written as a
//! POSIX `TZ` string ([`posix_tz`]). A zone tells the offset that holds at an
//! instant, and what a wall-clock reading resolves to: one offset, two where
//! the clocks went back, none where they went forward ([`interface`]).
//! Date-times are converted between zones ([`ext`]) and kept with their zone
//! while they move ([`zoned`]).
//!
//! Dates and times are plain integers ([`datetime`]); the calendar itself is
//! that of the `time` crate ([`calendar`]).

pub mod binary_search;
pub mod calendar;
pub mod datetime;
pub mod ext;
pub mod interface;
pub mod posix_tz;
pub mod system;
pub mod text;
pub mod timezone_impl;
pub mod timezones;
pub mod zoned;

pub use crate::ext::{OffsetDateTimeExt, OffsetResultExt, PrimitiveDateTimeExt};
pub use crate::interface::{Offset, OffsetError, OffsetResult, TimeZone, ToTimezone};
pub use crate::timezone_impl::Tz;
