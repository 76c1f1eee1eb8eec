//! A time zone as a table of offsets: the offset that holds from the
//! beginning of time, and each later offset with the instant at which it
//! begins.

use crate::binary_search::{before, binary_search, rests_at};
use crate::datetime::{OffsetDateTime, UtcOffset, MAX_OFFSET_SECONDS};
use crate::interface::{Offset, OffsetError, OffsetResult, TimeZone};
use std::cmp::Ordering;
use vstd::prelude::*;

verus! {

/// The largest instant, in seconds from the epoch in either direction, at
/// which a table may change its offset: the instant moved by any offset is
/// still a 64-bit number.
pub const MAX_TRANSITION: i64 = 0x7fff_ffff_fffe_0000;

/// A stretch of the time line, from `start` up to but without `end`; a side
/// that is `None` is open.
#[derive(Clone, Copy, Debug, PartialEq, Eq)]
pub struct Span {
    pub start: Option<i64>,
    pub end: Option<i64>,
}

impl Span {
    /// `x` is not before the stretch.
    pub open spec fn begun(self, x: i64) -> bool {
        self.start matches Some(a) ==> a <= x
    }

    /// `x` is not after the stretch.
    pub open spec fn unfinished(self, x: i64) -> bool {
        self.end matches Some(b) ==> x < b
    }

    /// `x` lies in the stretch.
    pub open spec fn holds(self, x: i64) -> bool {
        self.begun(x) && self.unfinished(x)
    }

    /// Where the stretch lies as seen from `x`: `Less` when it is over
    /// by `x`, `Greater` when it has not begun, `Equal` when it holds `x`.
    pub open spec fn ordering_at(self, x: i64) -> Ordering {
        if self.holds(x) {
            Ordering::Equal
        } else if self.begun(x) {
            Ordering::Less
        } else {
            Ordering::Greater
        }
    }

    /// Whether `x` lies in the stretch.
    pub fn contains(&self, x: i64) -> (r: bool)
        ensures
            r == self.holds(x),
    {
        match (self.start, self.end) {
            (Some(a), Some(b)) => a <= x && x < b,
            (Some(a), None) => a <= x,
            (None, Some(b)) => b > x,
            (None, None) => true,
        }
    }

    /// Where the stretch lies as seen from `x`.
    pub fn cmp(&self, x: i64) -> (r: Ordering)
        ensures
            r == self.ordering_at(x),
    {
        match (self.start, self.end) {
            (Some(a), Some(b)) => {
                if a <= x && x < b {
                    Ordering::Equal
                } else if a <= x && b <= x {
                    Ordering::Less
                } else {
                    Ordering::Greater
                }
            },
            (Some(a), None) => {
                if a <= x {
                    Ordering::Equal
                } else {
                    Ordering::Greater
                }
            },
            (None, Some(b)) => {
                if b <= x {
                    Ordering::Less
                } else {
                    Ordering::Equal
                }
            },
            (None, None) => Ordering::Equal,
        }
    }
}

/// One offset regime: the standard offset, what daylight saving adds to it,
/// and the abbreviation. The two together are under 26 hours.
#[derive(Clone, Copy, Debug, PartialEq, Eq)]
pub struct FixedTimespan {
    utc_offset: i64,
    dst_offset: i64,
    name: &'static str,
}

impl FixedTimespan {
    /// Seconds east of UTC in standard time.
    pub closed spec fn utc_offset_spec(self) -> int {
        self.utc_offset as int
    }

    /// Seconds that daylight saving time adds, 0 in standard time.
    pub closed spec fn dst_offset_spec(self) -> int {
        self.dst_offset as int
    }

    /// The abbreviation.
    pub closed spec fn name_spec(self) -> Seq<char> {
        self.name@
    }

    /// Seconds east of UTC, daylight saving time included.
    pub open spec fn total(self) -> int {
        self.utc_offset_spec() + self.dst_offset_spec()
    }

    /// The two offsets can make a regime.
    pub open spec fn valid_offsets(utc_offset: int, dst_offset: int) -> bool {
        -MAX_OFFSET_SECONDS <= utc_offset + dst_offset <= MAX_OFFSET_SECONDS
    }

    /// The regime's offset is under 26 hours.
    pub open spec fn wf(self) -> bool {
        FixedTimespan::valid_offsets(self.utc_offset_spec(), self.dst_offset_spec())
    }

    #[verifier::type_invariant]
    closed spec fn inv(self) -> bool {
        self.wf()
    }

    /// The regime with the given offsets and abbreviation, if the offsets
    /// together are under 26 hours.
    pub fn new(utc_offset: i64, dst_offset: i64, name: &'static str) -> (r: Option<FixedTimespan>)
        ensures
            r is Some <==> FixedTimespan::valid_offsets(utc_offset as int, dst_offset as int),
            r matches Some(s) ==> s == FixedTimespan::regime(utc_offset, dst_offset, name) && s.wf()
                && s.utc_offset_spec() == utc_offset && s.dst_offset_spec() == dst_offset
                && s.name_spec() == name@,
    {
        let sum: i128 = utc_offset as i128 + dst_offset as i128;
        if -(MAX_OFFSET_SECONDS as i128) <= sum && sum <= MAX_OFFSET_SECONDS as i128 {
            Some(FixedTimespan { utc_offset, dst_offset, name })
        } else {
            None
        }
    }

    /// The regime with the given offsets and abbreviation.
    pub closed spec fn regime(utc_offset: i64, dst_offset: i64, name: &'static str) -> FixedTimespan {
        FixedTimespan { utc_offset, dst_offset, name }
    }

    /// A regime has the offsets and the abbreviation it was made with.
    pub proof fn lemma_regime(utc_offset: i64, dst_offset: i64, name: &'static str)
        ensures
            FixedTimespan::regime(utc_offset, dst_offset, name).utc_offset_spec() == utc_offset,
            FixedTimespan::regime(utc_offset, dst_offset, name).dst_offset_spec() == dst_offset,
            FixedTimespan::regime(utc_offset, dst_offset, name).name_spec() == name@,
            FixedTimespan::regime(utc_offset, dst_offset, name).total() == utc_offset + dst_offset,
    {
    }

    /// The regime with the given offsets and abbreviation.
    pub(crate) fn of(utc_offset: i64, dst_offset: i64, name: &'static str) -> (r: FixedTimespan)
        requires
            FixedTimespan::valid_offsets(utc_offset as int, dst_offset as int),
        ensures
            r == FixedTimespan::regime(utc_offset, dst_offset, name),
            r.wf(),
            r.utc_offset_spec() == utc_offset,
            r.dst_offset_spec() == dst_offset,
            r.name_spec() == name@,
            r.total() == utc_offset + dst_offset,
    {
        FixedTimespan { utc_offset, dst_offset, name }
    }

    /// Seconds east of UTC in standard time.
    pub fn utc_offset(&self) -> (r: i64)
        ensures
            r == self.utc_offset_spec(),
    {
        self.utc_offset
    }

    /// Seconds that daylight saving time adds, 0 in standard time.
    pub fn dst_offset(&self) -> (r: i64)
        ensures
            r == self.dst_offset_spec(),
    {
        self.dst_offset
    }

    /// The abbreviation.
    pub fn name(&self) -> (r: &'static str)
        ensures
            r@ == self.name_spec(),
    {
        self.name
    }

    /// Seconds east of UTC, daylight saving time included.
    pub fn total_offset(&self) -> (r: i64)
        ensures
            r == self.total(),
            self.wf(),
    {
        proof {
            use_type_invariant(self);
        }
        self.utc_offset + self.dst_offset
    }
}

/// The offsets of a zone as a mathematical table: span 0 is `first`, span
/// `i + 1` is `others[i].1` and begins at the instant `others[i].0`.
pub struct Table {
    pub first: FixedTimespan,
    pub others: Seq<(i64, FixedTimespan)>,
}

impl Table {
    /// The table of one regime that holds for all time.
    pub open spec fn one(first: FixedTimespan) -> Table {
        Table { first, others: Seq::empty() }
    }

    /// A row of a table as it is written down: the instant at which a span
    /// begins, and the span's regime by its offsets and its abbreviation.
    pub open spec fn row(at: int, utc_offset: int, dst_offset: int, name: &'static str) -> (
        i64,
        FixedTimespan,
    ) {
        (at as i64, FixedTimespan::regime(utc_offset as i64, dst_offset as i64, name))
    }

    /// The table of the regime `first` and, after it, of the `count` rows
    /// `rows(0)`, `rows(1)` and so on.
    pub open spec fn listed(
        first: FixedTimespan,
        count: nat,
        rows: spec_fn(int) -> (i64, FixedTimespan),
    ) -> Table {
        Table { first, others: Seq::new(count, rows) }
    }

    /// Number of spans.
    pub open spec fn len(self) -> int {
        (self.others.len() + 1) as int
    }

    /// The regime of span `i`.
    pub open spec fn span(self, i: int) -> FixedTimespan {
        if i <= 0 {
            self.first
        } else {
            self.others[i - 1].1
        }
    }

    /// The offset of span `i`, in seconds east of UTC.
    pub open spec fn offset(self, i: int) -> int {
        self.span(i).total()
    }

    /// The instant at which span `i` begins, for `i` from 1.
    pub open spec fn start(self, i: int) -> int {
        self.others[i - 1].0 as int
    }

    /// Span `i` holds the instant `x`.
    pub open spec fn utc_contains(self, i: int, x: int) -> bool {
        &&& 0 <= i < self.len()
        &&& i > 0 ==> self.start(i) <= x
        &&& i + 1 < self.len() ==> x < self.start(i + 1)
    }

    /// The wall-clock reading with which span `i` begins, for `i` from 1.
    pub open spec fn local_start(self, i: int) -> int {
        self.start(i) + self.offset(i)
    }

    /// The wall-clock reading with which span `i` ends, for every span but
    /// the last.
    pub open spec fn local_end(self, i: int) -> int {
        self.start(i + 1) + self.offset(i)
    }

    /// The wall-clock reading `x` occurs in span `i`.
    pub open spec fn local_contains(self, i: int, x: int) -> bool {
        &&& 0 <= i < self.len()
        &&& i > 0 ==> self.local_start(i) <= x
        &&& i + 1 < self.len() ==> x < self.local_end(i)
    }

    /// The table is sound: every regime's offset is under 26 hours, the
    /// instants grow, and so do the readings with which the spans begin and
    /// end, so that a reading occurs in at most two spans, and those are
    /// neighbours.
    pub open spec fn wf(self) -> bool {
        &&& self.first.wf()
        &&& forall|i: int|
            0 <= i < self.others.len() ==> (#[trigger] self.others[i]).1.wf() && -MAX_TRANSITION
                <= self.others[i].0 <= MAX_TRANSITION
        &&& forall|i: int, j: int|
            1 <= i < j < self.len() ==> #[trigger] self.start(i) < #[trigger] self.start(j)
        &&& forall|i: int, j: int|
            1 <= i <= j < self.len() ==> #[trigger] self.local_start(i) <= #[trigger] self.local_start(
                j,
            )
        &&& forall|i: int, j: int|
            0 <= i <= j && j + 1 < self.len() ==> #[trigger] self.local_end(i)
                <= #[trigger] self.local_end(j)
        &&& forall|i: int, j: int|
            0 <= i && i + 2 <= j < self.len() ==> #[trigger] self.local_end(i)
                <= #[trigger] self.local_start(j)
    }

    /// The span that holds the instant `x`.
    pub open spec fn utc_index(self, x: int) -> int {
        choose|i: int| self.utc_contains(i, x)
    }

    /// The regime that holds at the instant `x`.
    pub open spec fn resolve_utc(self, x: int) -> FixedTimespan {
        self.span(self.utc_index(x))
    }

    /// Some span has the wall-clock reading `x`.
    pub open spec fn occurs(self, x: int) -> bool {
        exists|i: int| self.local_contains(i, x)
    }

    /// The wall-clock reading `x` occurs in span `i` and not in the span
    /// before it.
    pub open spec fn local_begins(self, i: int, x: int) -> bool {
        self.local_contains(i, x) && !self.local_contains(i - 1, x)
    }

    /// The first span in which the wall-clock reading `x` occurs.
    pub open spec fn first_local(self, x: int) -> int {
        choose|i: int| self.local_begins(i, x)
    }

    /// What the wall-clock reading `x` resolves to: the regime of the one
    /// span in which it occurs; the regimes of the two, in their order in
    /// time; or nothing, where the clocks skipped it.
    pub open spec fn resolve_local(self, x: int) -> OffsetResult<FixedTimespan> {
        if self.occurs(x) {
            let i = self.first_local(x);
            if self.local_contains(i + 1, x) {
                Err(OffsetError::Ambiguous(self.span(i), self.span(i + 1)))
            } else {
                Ok(self.span(i))
            }
        } else {
            Err(OffsetError::Undefined)
        }
    }

    /// A span that begins at `at` with the regime `span` can follow the
    /// table's last span: the instant grows, and so do the readings with
    /// which the spans begin and end.
    pub open spec fn can_follow(self, at: i64, span: FixedTimespan) -> bool {
        let last = self.len() - 1;
        &&& span.wf()
        &&& -MAX_TRANSITION <= at <= MAX_TRANSITION
        &&& last >= 1 ==> {
            &&& self.start(last) < at
            &&& self.local_start(last) <= at + span.total()
            &&& self.start(last) + self.offset(last - 1) <= at + self.offset(last)
            &&& self.start(last) + self.offset(last - 1) <= at + span.total()
        }
    }

    /// The table with one more span, which begins at `at`.
    pub open spec fn push(self, at: i64, span: FixedTimespan) -> Table {
        Table { first: self.first, others: self.others.push((at, span)) }
    }

    /// Every instant lies in some span, and in one only.
    pub proof fn lemma_utc_total(self, x: int)
        requires
            self.wf(),
        ensures
            self.utc_contains(self.utc_index(x), x),
            forall|i: int| self.utc_contains(i, x) ==> i == self.utc_index(x),
    {
        self.lemma_utc_exists(x, self.len() - 1);
        let k = self.utc_index(x);
        assert forall|i: int| self.utc_contains(i, x) implies i == k by {
            self.lemma_utc_unique(x, i, k);
        }
    }

    /// Some span up to `top` holds `x`, unless span `top` has ended by `x`.
    proof fn lemma_utc_exists(self, x: int, top: int)
        requires
            self.wf(),
            0 <= top < self.len(),
            top + 1 < self.len() ==> x < self.start(top + 1),
        ensures
            exists|i: int| self.utc_contains(i, x),
        decreases top,
    {
        if top == 0 || self.start(top) <= x {
            assert(self.utc_contains(top, x));
        } else {
            self.lemma_utc_exists(x, top - 1);
        }
    }

    /// Two spans that hold `x` are one.
    pub proof fn lemma_utc_unique(self, x: int, i: int, j: int)
        requires
            self.wf(),
            self.utc_contains(i, x),
            self.utc_contains(j, x),
        ensures
            i == j,
    {
        if i < j {
            assert(self.start(i + 1) <= self.start(j));
        } else if j < i {
            assert(self.start(j + 1) <= self.start(i));
        }
    }

    /// Two spans in which the reading `x` occurs are one or neighbours.
    pub proof fn lemma_local_neighbours(self, x: int, i: int, j: int)
        requires
            self.wf(),
            self.local_contains(i, x),
            self.local_contains(j, x),
            i <= j,
        ensures
            j <= i + 1,
    {
        if i + 2 <= j {
            assert(self.local_end(i) <= self.local_start(j));
        }
    }

    /// A reading that occurs in span `i` resolves by that span and its two
    /// neighbours alone.
    pub proof fn lemma_local_classify(self, x: int, i: int)
        requires
            self.wf(),
            self.local_contains(i, x),
        ensures
            self.resolve_local(x) == if self.local_contains(i - 1, x) {
                Err::<FixedTimespan, OffsetError<FixedTimespan>>(
                    OffsetError::Ambiguous(self.span(i - 1), self.span(i)),
                )
            } else if self.local_contains(i + 1, x) {
                Err(OffsetError::Ambiguous(self.span(i), self.span(i + 1)))
            } else {
                Ok(self.span(i))
            },
    {
        let lo = if self.local_contains(i - 1, x) {
            i - 1
        } else {
            i
        };
        if self.local_contains(i - 1, x) && self.local_contains(i - 2, x) {
            self.lemma_local_neighbours(x, i - 2, i);
        }
        assert(self.local_begins(lo, x));
        let f = self.first_local(x);
        if f < lo {
            self.lemma_local_neighbours(x, f, lo);
        } else if lo < f {
            self.lemma_local_neighbours(x, lo, f);
        }
        assert(f == lo);
        if self.local_contains(i - 1, x) && self.local_contains(i + 1, x) {
            self.lemma_local_neighbours(x, i - 1, i + 1);
        }
    }

    /// A reading that lies between the end of span `b - 1` and the beginning
    /// of span `b` occurs in no span.
    pub proof fn lemma_local_skipped(self, x: int, b: int)
        requires
            self.wf(),
            0 < b < self.len(),
            self.local_end(b - 1) <= x < self.local_start(b),
        ensures
            !self.occurs(x),
            self.resolve_local(x) == Err::<FixedTimespan, OffsetError<FixedTimespan>>(
                OffsetError::Undefined,
            ),
    {
        assert forall|i: int| !self.local_contains(i, x) by {
            if 0 <= i < b {
                assert(self.local_end(i) <= self.local_end(b - 1));
            } else if b <= i < self.len() {
                assert(self.local_start(b) <= self.local_start(i));
            }
        }
    }
}

/// The offsets of one named time zone, in the order of time.
#[derive(Debug, PartialEq, Eq)]
pub struct FixedTimespanSet {
    name: &'static str,
    first: FixedTimespan,
    others: Vec<(i64, FixedTimespan)>,
}

impl Clone for FixedTimespanSet {
    fn clone(&self) -> (r: FixedTimespanSet)
        ensures
            r@ == self@,
            r.name_spec() == self.name_spec(),
            r.wf(),
    {
        proof {
            use_type_invariant(self);
        }
        let mut others: Vec<(i64, FixedTimespan)> = Vec::new();
        let mut i: usize = 0;
        while i < self.others.len()
            invariant
                i <= self.others.len(),
                others@ == self.others@.subrange(0, i as int),
            decreases self.others.len() - i,
        {
            others.push(self.others[i]);
            i += 1;
            assert(others@ == self.others@.subrange(0, i as int));
        }
        assert(others@ == self.others@);
        FixedTimespanSet { name: self.name, first: self.first, others }
    }
}

impl View for FixedTimespanSet {
    type V = Table;

    closed spec fn view(&self) -> Table {
        Table { first: self.first, others: self.others@ }
    }
}

impl FixedTimespanSet {
    /// The zone's name.
    pub closed spec fn name_spec(&self) -> Seq<char> {
        self.name@
    }

    /// The table is sound and short enough to be counted.
    pub open spec fn wf(&self) -> bool {
        self@.wf() && self@.len() <= usize::MAX
    }

    #[verifier::type_invariant]
    closed spec fn inv(&self) -> bool {
        self.wf()
    }

    /// The instant at which the last span begins; 0 for a table of one span.
    pub(crate) closed spec fn last_start(&self) -> int {
        if self.others.len() > 0 {
            self.others[self.others.len() - 1].0 as int
        } else {
            0
        }
    }

    /// The offset of the last span.
    pub(crate) closed spec fn last_offset(&self) -> int {
        self@.offset(self@.len() - 1)
    }

    /// The offset of the span before the last; 0 for a table of one span.
    pub(crate) closed spec fn prev_offset(&self) -> int {
        if self.others.len() > 0 {
            self@.offset(self@.len() - 2)
        } else {
            0
        }
    }

    /// Number of spans.
    pub(crate) closed spec fn count(&self) -> int {
        self@.len()
    }

    /// A span that begins at `at` with the regime `span` can follow the
    /// table's last span, and the table can still be counted.
    pub open spec fn can_push(&self, at: i64, span: FixedTimespan) -> bool {
        self@.can_follow(at, span) && self@.len() < usize::MAX
    }

    /// The table of one regime that holds for all time.
    pub fn new(name: &'static str, first: FixedTimespan) -> (r: FixedTimespanSet)
        ensures
            r.wf(),
            r@ == Table::one(first),
            r.name_spec() == name@,
    {
        proof {
            use_type_invariant(first);
        }
        FixedTimespanSet { name, first, others: Vec::new() }
    }

    /// The table of one regime that holds for all time, with the offsets and
    /// the abbreviation given: the first step of a chain.
    pub(crate) fn begin(
        name: &'static str,
        utc_offset: i64,
        dst_offset: i64,
        abbreviation: &'static str,
        Ghost(rows): Ghost<spec_fn(int) -> (i64, FixedTimespan)>,
    ) -> (r: FixedTimespanSet)
        requires
            FixedTimespan::valid_offsets(utc_offset as int, dst_offset as int),
        ensures
            r.first_regime() == Table::row(0, utc_offset as int, dst_offset as int, abbreviation).1,
            r.lists(rows),
            r.name_spec() == name@,
            r.count() == 1,
            r.last_offset() == utc_offset + dst_offset,
    {
        FixedTimespanSet::new(name, FixedTimespan::of(utc_offset, dst_offset, abbreviation))
    }

    /// The zone of the table: the last step of a chain.
    pub(crate) fn finish(self, Ghost(rows): Ghost<spec_fn(int) -> (i64, FixedTimespan)>) -> (r: Tz)
        requires
            self.lists(rows),
        ensures
            r.wf(),
            r.zone_name() == self.name_spec(),
            r.table() == Table::listed(self.first_regime(), (self.count() - 1) as nat, rows),
    {
        assert(self@.others =~= Seq::new((self.count() - 1) as nat, rows));
        internal_tz_new(self)
    }

    /// The table's first regime.
    pub(crate) closed spec fn first_regime(&self) -> FixedTimespan {
        self.first
    }

    /// The rows of the table so far are the first of `rows`.
    pub(crate) closed spec fn lists(&self, rows: spec_fn(int) -> (i64, FixedTimespan)) -> bool {
        forall|i: int| 0 <= i < self.others@.len() ==> #[trigger] self.others@[i] == rows(i)
    }

    /// The table with one more span, which begins at `at` with the regime
    /// `span`.
    pub(crate) fn push(self, at: i64, span: FixedTimespan) -> (r: FixedTimespanSet)
        requires
            self.can_push(at, span),
        ensures
            r.wf(),
            r@ == self@.push(at, span),
            r.name_spec() == self.name_spec(),
            r.count() == self.count() + 1,
            r.last_start() == at,
            r.last_offset() == span.total(),
            r.prev_offset() == self.last_offset(),
    {
        proof {
            use_type_invariant(&self);
        }
        let ghost before = self@;
        let FixedTimespanSet { name, first, mut others } = self;
        others.push((at, span));
        proof {
            let after = Table { first, others: others@ };
            assert(after == before.push(at, span));
            let n = before.len();
            assert forall|i: int| 0 <= i < after.others.len() implies (#[trigger] after.others[i]).1.wf()
                && -MAX_TRANSITION <= after.others[i].0 <= MAX_TRANSITION by {
                if i < before.others.len() {
                    assert(after.others[i] == before.others[i]);
                }
            }
            assert forall|i: int| 0 <= i < n implies after.span(i) == before.span(i) by {
                if i > 0 {
                    assert(after.others[i - 1] == before.others[i - 1]);
                }
            }
            assert forall|i: int| 1 <= i < n implies after.start(i) == before.start(i) by {
                assert(after.others[i - 1] == before.others[i - 1]);
            }
            assert(n >= 2 ==> before.start(n - 1) == self.last_start());
            assert(before.offset(n - 1) == self.last_offset());
            assert(n >= 2 ==> before.offset(n - 2) == self.prev_offset());
            assert(after.start(n) == at);
            assert(after.span(n) == span);
            assert forall|i: int, j: int| 1 <= i < j < after.len() implies #[trigger] after.start(i)
                < #[trigger] after.start(j) by {
                if j < n {
                    assert(before.start(i) < before.start(j));
                } else if i < n - 1 {
                    assert(before.start(i) < before.start(n - 1));
                }
            }
            assert forall|i: int, j: int| 1 <= i <= j < after.len() implies #[trigger] after.local_start(
                i,
            ) <= #[trigger] after.local_start(j) by {
                if j < n {
                    assert(before.local_start(i) <= before.local_start(j));
                } else if i < n {
                    assert(before.local_start(i) <= before.local_start(n - 1));
                }
            }
            assert forall|i: int, j: int| 0 <= i <= j && j + 1 < after.len() implies #[trigger] after.local_end(
                i,
            ) <= #[trigger] after.local_end(j) by {
                if j + 1 < n {
                    assert(before.local_end(i) <= before.local_end(j));
                } else if i < j {
                    assert(before.local_end(i) <= before.local_end(n - 2));
                }
            }
            assert forall|i: int, j: int| 0 <= i && i + 2 <= j < after.len() implies #[trigger] after.local_end(
                i,
            ) <= #[trigger] after.local_start(j) by {
                if j < n {
                    assert(before.local_end(i) <= before.local_start(j));
                } else {
                    assert(before.local_end(i) <= before.local_end(n - 2));
                }
            }
        }
        FixedTimespanSet { name, first, others }
    }

    /// The table with one more span, which begins at `at` with the offsets and
    /// the abbreviation given. This is `push`, told in what the next step of a
    /// chain needs: a long table is written as a chain of these steps.
    pub(crate) fn step(
        self,
        at: i64,
        utc_offset: i64,
        dst_offset: i64,
        name: &'static str,
        Ghost(rows): Ghost<spec_fn(int) -> (i64, FixedTimespan)>,
    ) -> (r: FixedTimespanSet)
        requires
            self.lists(rows),
            rows(self.count() - 1) == Table::row(at as int, utc_offset as int, dst_offset as int, name),
            FixedTimespan::valid_offsets(utc_offset as int, dst_offset as int),
            -MAX_TRANSITION <= at <= MAX_TRANSITION,
            self.count() < usize::MAX,
            self.count() >= 2 ==> {
                &&& self.last_start() < at
                &&& self.last_start() + self.last_offset() <= at + utc_offset + dst_offset
                &&& self.last_start() + self.prev_offset() <= at + self.last_offset()
                &&& self.last_start() + self.prev_offset() <= at + utc_offset + dst_offset
            },
        ensures
            r.first_regime() == self.first_regime(),
            r.lists(rows),
            r.name_spec() == self.name_spec(),
            r.count() == self.count() + 1,
            r.last_start() == at,
            r.last_offset() == utc_offset + dst_offset,
            r.prev_offset() == self.last_offset(),
    {
        let ghost before = self@;
        let r = self.push(at, FixedTimespan::of(utc_offset, dst_offset, name));
        proof {
            assert forall|i: int| 0 <= i < r@.others.len() implies #[trigger] r@.others[i] == rows(
                i,
            ) by {
                if i < before.others.len() {
                    assert(r@.others[i] == before.others[i]);
                }
            }
        }
        r
    }

    /// The table with one more span, which begins at `at` with the regime
    /// `span`, if that span can follow the table's last span.
    pub fn checked_push(self, at: i64, span: FixedTimespan) -> (r: Option<FixedTimespanSet>)
        ensures
            r is Some <==> self.can_push(at, span),
            r matches Some(t) ==> t.wf() && t@ == self@.push(at, span) && t.name_spec()
                == self.name_spec(),
    {
        proof {
            use_type_invariant(&self);
            use_type_invariant(span);
        }
        if at < -MAX_TRANSITION || at > MAX_TRANSITION || self.others.len() >= usize::MAX - 1 {
            return None;
        }
        let n = self.others.len();
        if n > 0 {
            let last_start: i64 = self.others[n - 1].0;
            let last_offset: i64 = self.others[n - 1].1.total_offset();
            let prev_offset: i64 = if n > 1 {
                self.others[n - 2].1.total_offset()
            } else {
                self.first.total_offset()
            };
            let fits = last_start < at && last_start + last_offset <= at + span.total_offset()
                && last_start + prev_offset <= at + last_offset && last_start + prev_offset <= at
                + span.total_offset();
            if !fits {
                return None;
            }
        }
        Some(self.push(at, span))
    }

    /// Number of spans.
    pub fn len(&self) -> (r: usize)
        ensures
            r == self@.len(),
            r >= 1,
            self.wf(),
    {
        proof {
            use_type_invariant(self);
        }
        1 + self.others.len()
    }

    /// The zone's name.
    pub fn name(&self) -> (r: &'static str)
        ensures
            r@ == self.name_spec(),
    {
        self.name
    }

    /// The regime of span `index`.
    pub fn index(&self, index: usize) -> (r: FixedTimespan)
        requires
            index < self@.len(),
        ensures
            r == self@.span(index as int),
            r.wf(),
    {
        proof {
            use_type_invariant(self);
        }
        if index == 0 {
            self.first
        } else {
            self.others[index - 1].1
        }
    }

    /// The instant at which span `index` begins, for `index` from 1.
    pub fn transition(&self, index: usize) -> (r: i64)
        requires
            1 <= index < self@.len(),
        ensures
            r == self@.start(index as int),
    {
        self.others[index - 1].0
    }

    /// Span `i` on the line of instants.
    pub open spec fn utc_span(&self, i: usize) -> Span {
        Span {
            start: if i == 0 {
                None
            } else {
                Some(self@.others[i - 1].0)
            },
            end: if i + 1 >= self@.len() {
                None
            } else {
                Some(self@.others[i as int].0)
            },
        }
    }

    /// Span `i` on the line of wall-clock readings.
    pub open spec fn local_span(&self, i: usize) -> Span {
        Span {
            start: if i == 0 {
                None
            } else {
                Some((self@.local_start(i as int)) as i64)
            },
            end: if i + 1 >= self@.len() {
                None
            } else {
                Some((self@.local_end(i as int)) as i64)
            },
        }
    }

    /// Span `i` on the line of instants: open to the left for the first span,
    /// to the right for the last.
    pub fn span_utc(&self, i: usize) -> (r: Span)
        requires
            i < self@.len(),
        ensures
            r == self.utc_span(i),
    {
        let start = if i == 0 {
            None
        } else {
            Some(self.others[i - 1].0)
        };
        let end = if i >= self.others.len() {
            None
        } else {
            Some(self.others[i].0)
        };
        Span { start, end }
    }

    /// Span `i` on the line of wall-clock readings: its two instants, each
    /// moved by the span's own offset.
    pub fn span_local(&self, i: usize) -> (r: Span)
        requires
            i < self@.len(),
        ensures
            r == self.local_span(i),
    {
        proof {
            use_type_invariant(self);
        }
        let offset: i64 = self.index(i).total_offset();
        let start = if i == 0 {
            None
        } else {
            Some(self.others[i - 1].0 + offset)
        };
        let end = if i >= self.others.len() {
            None
        } else {
            Some(self.others[i].0 + offset)
        };
        Span { start, end }
    }

    /// A span on the line of instants holds what the table says it holds.
    pub proof fn lemma_utc_span(&self, i: usize, x: i64)
        requires
            self.wf(),
            i < self@.len(),
        ensures
            self.utc_span(i).holds(x) == self@.utc_contains(i as int, x as int),
            i > 0 ==> self.utc_span(i).begun(x) == (self@.start(i as int) <= x),
            i == 0 ==> self.utc_span(i).begun(x),
            i + 1 < self@.len() ==> self.utc_span(i).unfinished(x) == (x < self@.start(i + 1)),
            i + 1 == self@.len() ==> self.utc_span(i).unfinished(x),
    {
    }

    /// A span on the line of wall-clock readings holds what the table says it
    /// holds.
    pub proof fn lemma_local_span(&self, i: usize, x: i64)
        requires
            self.wf(),
            i < self@.len(),
        ensures
            self.local_span(i).holds(x) == self@.local_contains(i as int, x as int),
            i > 0 ==> self.local_span(i).begun(x) == (self@.local_start(i as int) <= x),
            i == 0 ==> self.local_span(i).begun(x),
            i + 1 < self@.len() ==> self.local_span(i).unfinished(x) == (x < self@.local_end(
                i as int,
            )),
            i + 1 == self@.len() ==> self.local_span(i).unfinished(x),
    {
        if i > 0 {
            assert(self@.others[i - 1].1.wf());
        }
        if i + 1 < self@.len() {
            assert(self@.others[i as int].1.wf());
        }
    }

    /// On the line of instants, where the span below `b` has ended by `x`,
    /// `b` is a span and has begun by `x`: a search cannot come to rest.
    pub proof fn lemma_utc_no_rest(&self, b: usize, x: i64)
        requires
            self.wf(),
            b <= self@.len(),
            0 < b ==> !self.utc_span(before(b)).unfinished(x),
        ensures
            b < self@.len(),
            self.utc_span(b).begun(x),
    {
        if 0 < b {
            self.lemma_utc_span(before(b), x);
        }
        if b < self@.len() {
            self.lemma_utc_span(b, x);
        }
    }

    /// Where a search over the line of wall-clock readings comes to rest, the
    /// reading occurs in no span.
    pub proof fn lemma_local_rest(&self, b: usize, x: i64)
        requires
            self.wf(),
            b <= self@.len(),
            0 < b ==> self.local_span(before(b)).begun(x) && !self.local_span(before(b)).unfinished(
                x,
            ),
            b < self@.len() ==> !self.local_span(b).begun(x),
        ensures
            self@.resolve_local(x as int) == Err::<FixedTimespan, OffsetError<FixedTimespan>>(
                OffsetError::Undefined,
            ),
    {
        if 0 < b {
            self.lemma_local_span(before(b), x);
        }
        if b < self@.len() {
            self.lemma_local_span(b, x);
        }
        self@.lemma_local_skipped(x as int, b as int);
    }

    /// The span that a search over the line of instants found is the one the
    /// table resolves to.
    pub proof fn lemma_utc_hit(&self, i: usize, x: i64)
        requires
            self.wf(),
            i < self@.len(),
            self.utc_span(i).holds(x),
        ensures
            self@.resolve_utc(x as int) == self@.span(i as int),
    {
        self.lemma_utc_span(i, x);
        self@.lemma_utc_total(x as int);
    }

    /// A reading that occurs in span `i` resolves by what the span's two
    /// neighbours hold.
    pub proof fn lemma_local_hit(&self, i: usize, x: i64)
        requires
            self.wf(),
            i < self@.len(),
            self.local_span(i).holds(x),
        ensures
            self@.resolve_local(x as int) == if i > 0 && self.local_span(before(i)).holds(x) {
                Err::<FixedTimespan, OffsetError<FixedTimespan>>(
                    OffsetError::Ambiguous(self@.span(i - 1), self@.span(i as int)),
                )
            } else if i + 1 < self@.len() && self.local_span((i + 1) as usize).holds(x) {
                Err(OffsetError::Ambiguous(self@.span(i as int), self@.span(i + 1)))
            } else {
                Ok(self@.span(i as int))
            },
    {
        self.lemma_local_span(i, x);
        if i > 0 {
            self.lemma_local_span(before(i), x);
        }
        if i + 1 < self@.len() {
            self.lemma_local_span((i + 1) as usize, x);
        }
        self@.lemma_local_classify(x as int, i as int);
    }
}

/// An offset of a table zone: the regime that was found.
#[derive(Clone, Copy, Debug, PartialEq, Eq)]
pub struct TzOffset {
    pub timespan: FixedTimespan,
}

impl Offset for TzOffset {
    open spec fn utc_seconds(&self) -> int {
        self.timespan.total()
    }

    open spec fn abbreviation(&self) -> Seq<char> {
        self.timespan.name_spec()
    }

    open spec fn in_dst(&self) -> bool {
        self.timespan.dst_offset_spec() > 0
    }

    fn to_utc(&self) -> (r: UtcOffset) {
        let seconds: i64 = self.timespan.total_offset();
        match UtcOffset::from_whole_seconds(seconds as i32) {
            Ok(offset) => offset,
            Err(_) => unreached(),
        }
    }

    fn name(&self) -> (r: &str) {
        self.timespan.name()
    }

    fn is_dst(&self) -> (r: bool) {
        self.timespan.dst_offset() > 0
    }
}

/// What a table resolves a wall-clock reading to, as offsets of the zone.
pub open spec fn as_offsets(r: OffsetResult<FixedTimespan>) -> OffsetResult<TzOffset> {
    match r {
        Ok(s) => Ok(TzOffset { timespan: s }),
        Err(OffsetError::Ambiguous(a, b)) => Err(
            OffsetError::Ambiguous(TzOffset { timespan: a }, TzOffset { timespan: b }),
        ),
        Err(OffsetError::Undefined) => Err(OffsetError::Undefined),
    }
}

/// A time zone given by its table of offsets.
#[derive(Debug, PartialEq, Eq)]
pub struct Tz {
    set: FixedTimespanSet,
}

impl Clone for Tz {
    fn clone(&self) -> (r: Tz)
        ensures
            r.table() == self.table(),
            r.zone_name() == self.zone_name(),
            r.wf(),
    {
        Tz { set: self.set.clone() }
    }
}

impl Tz {
    /// The zone's table.
    pub closed spec fn table(&self) -> Table {
        self.set@
    }

    /// The zone's table is sound.
    pub open spec fn wf(&self) -> bool {
        self.table().wf()
    }

    /// The zone's table.
    pub fn timespans(&self) -> (r: &FixedTimespanSet)
        ensures
            r@ == self.table(),
            r.name_spec() == self.zone_name(),
            r.wf(),
    {
        proof {
            use_type_invariant(&self.set);
        }
        &self.set
    }
}

impl TimeZone for Tz {
    type Offset = TzOffset;

    open spec fn offset_at_utc(&self, timestamp: int) -> TzOffset {
        TzOffset { timespan: self.table().resolve_utc(timestamp) }
    }

    open spec fn offset_at_local(&self, local_seconds: int) -> OffsetResult<TzOffset> {
        as_offsets(self.table().resolve_local(local_seconds))
    }

    open spec fn primary_offset(&self) -> TzOffset {
        TzOffset { timespan: self.table().first }
    }

    closed spec fn zone_name(&self) -> Seq<char> {
        self.set.name_spec()
    }

    fn get_offset_utc(&self, date_time: &OffsetDateTime) -> (r: TzOffset) {
        let timestamp = date_time.unix_timestamp();
        let set = &self.set;
        let len = set.len();
        let cmp = |i: usize| -> (o: Ordering)
            requires
                i < len,
            ensures
                o == set.utc_span(i).ordering_at(timestamp),
            { set.span_utc(i).cmp(timestamp) };
        match binary_search(0, len, cmp) {
            Some(index) => {
                proof {
                    set.lemma_utc_hit(index, timestamp);
                }
                TzOffset { timespan: set.index(index) }
            },
            None => {
                proof {
                    let b = choose|b: usize| rests_at(cmp, 0, len, b);
                    set.lemma_utc_no_rest(b, timestamp);
                }
                unreached()
            },
        }
    }

    fn get_offset_local(&self, date_time: &OffsetDateTime) -> (r: OffsetResult<TzOffset>) {
        let timestamp = date_time.unix_timestamp();
        let set = &self.set;
        let len = set.len();
        let cmp = |i: usize| -> (o: Ordering)
            requires
                i < len,
            ensures
                o == set.local_span(i).ordering_at(timestamp),
            { set.span_local(i).cmp(timestamp) };
        match binary_search(0, len, cmp) {
            Some(i) => {
                proof {
                    set.lemma_local_hit(i, timestamp);
                }
                if len == 1 {
                    Ok(TzOffset { timespan: set.index(i) })
                } else if i == 0 && set.span_local(1).contains(timestamp) {
                    Err(
                        OffsetError::Ambiguous(
                            TzOffset { timespan: set.index(0) },
                            TzOffset { timespan: set.index(1) },
                        ),
                    )
                } else if i == 0 {
                    Ok(TzOffset { timespan: set.index(0) })
                } else if set.span_local(i - 1).contains(timestamp) {
                    Err(
                        OffsetError::Ambiguous(
                            TzOffset { timespan: set.index(i - 1) },
                            TzOffset { timespan: set.index(i) },
                        ),
                    )
                } else if i == len - 1 {
                    Ok(TzOffset { timespan: set.index(i) })
                } else if set.span_local(i + 1).contains(timestamp) {
                    Err(
                        OffsetError::Ambiguous(
                            TzOffset { timespan: set.index(i) },
                            TzOffset { timespan: set.index(i + 1) },
                        ),
                    )
                } else {
                    Ok(TzOffset { timespan: set.index(i) })
                }
            },
            None => {
                proof {
                    let b = choose|b: usize| rests_at(cmp, 0, len, b);
                    set.lemma_local_rest(b, timestamp);
                }
                Err(OffsetError::Undefined)
            },
        }
    }

    fn get_offset_primary(&self) -> (r: TzOffset) {
        TzOffset { timespan: self.set.index(0) }
    }

    fn name(&self) -> (r: &str) {
        self.set.name()
    }
}

/// The zone with the given table.
pub fn internal_tz_new(set: FixedTimespanSet) -> (r: Tz)
    ensures
        r.wf(),
        r.table() == set@,
        r.zone_name() == set.name_spec(),
{
    proof {
        use_type_invariant(&set);
    }
    Tz { set }
}

/// At every instant a sound table holds exactly one offset: some span holds
/// the instant, no other does, and the zone resolves the instant to that
/// span's regime.
pub proof fn law_utc_resolution_is_total(tz: Tz, timestamp: int)
    requires
        tz.wf(),
    ensures
        tz.table().utc_contains(tz.table().utc_index(timestamp), timestamp),
        forall|i: int|
            tz.table().utc_contains(i, timestamp) ==> i == tz.table().utc_index(timestamp),
        tz.offset_at_utc(timestamp).timespan == tz.table().span(tz.table().utc_index(timestamp)),
{
    tz.table().lemma_utc_total(timestamp);
}

/// A zone of one span resolves every wall-clock reading to that span's
/// regime, and to nothing else.
pub proof fn law_single_span_is_unambiguous(tz: Tz, local_seconds: int)
    requires
        tz.wf(),
        tz.table().len() == 1,
    ensures
        tz.offset_at_local(local_seconds) == Ok::<TzOffset, OffsetError<TzOffset>>(
            TzOffset { timespan: tz.table().first },
        ),
{
    let t = tz.table();
    assert(t.local_contains(0, local_seconds));
    t.lemma_local_classify(local_seconds, 0);
}

/// What a zone resolves an instant or a reading to depends on the zone's
/// table and on the seconds alone: asking again gives the same answer.
pub proof fn law_resolution_repeats(a: Tz, b: Tz, first: OffsetDateTime, second: OffsetDateTime)
    requires
        a.table() == b.table(),
        first.timestamp() == second.timestamp(),
    ensures
        a.offset_at_utc(first.timestamp()) == b.offset_at_utc(second.timestamp()),
        a.offset_at_local(first.timestamp()) == b.offset_at_local(second.timestamp()),
{
}

/// Where the clocks go forward at the beginning of span `b`, every reading
/// from the end of the span before up to the beginning of span `b` is
/// undefined; the reading with which span `b` begins resolves to span `b`
/// alone, unless the span after it has begun by then.
pub proof fn law_skipped_readings_are_undefined(tz: Tz, b: int, local_seconds: int)
    requires
        tz.wf(),
        0 < b < tz.table().len(),
        tz.table().local_end(b - 1) <= tz.table().local_start(b),
    ensures
        tz.table().local_end(b - 1) <= local_seconds < tz.table().local_start(b)
            ==> tz.offset_at_local(local_seconds) == Err::<TzOffset, OffsetError<TzOffset>>(
            OffsetError::Undefined,
        ),
        b + 1 < tz.table().len() ==> tz.table().local_start(b) < tz.table().local_start(b + 1)
            ==> tz.offset_at_local(tz.table().local_start(b)) == Ok::<
            TzOffset,
            OffsetError<TzOffset>,
        >(TzOffset { timespan: tz.table().span(b) }),
        b + 1 == tz.table().len() ==> tz.offset_at_local(tz.table().local_start(b)) == Ok::<
            TzOffset,
            OffsetError<TzOffset>,
        >(TzOffset { timespan: tz.table().span(b) }),
{
    let t = tz.table();
    if t.local_end(b - 1) <= local_seconds < t.local_start(b) {
        t.lemma_local_skipped(local_seconds, b);
    }
    let s = t.local_start(b);
    if b + 1 < t.len() {
        assert(t.start(b) < t.start(b + 1));
    }
    if b + 1 == t.len() || t.local_start(b) < t.local_start(b + 1) {
        assert(t.local_contains(b, s));
        assert(!t.local_contains(b - 1, s));
        assert(!t.local_contains(b + 1, s));
        t.lemma_local_classify(s, b);
    }
}

/// Where the clocks go back at the beginning of span `b`, every reading from
/// the beginning of span `b` up to the end of the span before occurs twice,
/// and resolves to the regime of the span before and then that of span `b`.
pub proof fn law_repeated_readings_are_ambiguous(tz: Tz, b: int, local_seconds: int)
    requires
        tz.wf(),
        0 < b < tz.table().len(),
        tz.table().local_start(b) <= local_seconds < tz.table().local_end(b - 1),
    ensures
        tz.offset_at_local(local_seconds) == Err::<TzOffset, OffsetError<TzOffset>>(
            OffsetError::Ambiguous(
                TzOffset { timespan: tz.table().span(b - 1) },
                TzOffset { timespan: tz.table().span(b) },
            ),
        ),
{
    let t = tz.table();
    if b - 1 >= 1 {
        assert(t.local_start(b - 1) <= t.local_start(b - 1 + 1));
    }
    if b + 1 < t.len() {
        assert(t.local_end(b - 1) <= t.local_end(b - 1 + 1));
    }
    assert(t.local_contains(b - 1, local_seconds));
    assert(t.local_contains(b, local_seconds));
    t.lemma_local_classify(local_seconds, b);
}

/// `r` has `offset` as its one value or as one of its two.
pub open spec fn has_offset(r: OffsetResult<TzOffset>, offset: TzOffset) -> bool {
    match r {
        Ok(o) => o == offset,
        Err(OffsetError::Ambiguous(a, b)) => a == offset || b == offset,
        Err(OffsetError::Undefined) => false,
    }
}

/// The reading that the clocks of a zone show at an instant is never
/// undefined, and the offset that holds at the instant is the reading's
/// offset, or one of its two.
pub proof fn law_shown_readings_resolve(tz: Tz, timestamp: int)
    requires
        tz.wf(),
    ensures
        has_offset(
            tz.offset_at_local(timestamp + tz.offset_at_utc(timestamp).utc_seconds()),
            tz.offset_at_utc(timestamp),
        ),
{
    let t = tz.table();
    t.lemma_utc_total(timestamp);
    let i = t.utc_index(timestamp);
    let shown = timestamp + t.offset(i);
    assert(t.local_contains(i, shown));
    t.lemma_local_classify(shown, i);
}

} // verus!
