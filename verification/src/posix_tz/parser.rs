//! The grammar of a POSIX `TZ` string, and a parser for it.
//!
//! ```text
//! tz       := ':' name | std dst?
//! std      := name offset
//! dst      := name offset? rule?
//! rule     := ',' date ('/' time)? ',' date ('/' time)?
//! name     := '<' [^<>]+ '>' | 3 to 16 alphabetic characters
//! offset   := ('+' | '-')? time
//! time     := number (':' number (':' number)?)?
//! date     := 'J' number | 'M' number '.' number '.' number | number
//! ```
//!
//! Every choice takes the first alternative that fits, every repetition as
//! much as it can, and nothing is tried again once it has fitted. The grammar
//! is written down as spec functions over the string's characters; the parser
//! is proved to compute them.

use crate::text::to_chars;
use vstd::prelude::*;
use vstd::string::StrSliceExecFns;

verus! {

/// The longest unquoted name.
pub const TZNAME_MAX: usize = 16;

/// The shortest unquoted name.
pub const TZNAME_MIN: usize = 3;

/// The part of the grammar at which a string failed.
#[derive(Clone, Copy, Debug, PartialEq, Eq, Structural)]
pub enum ErrorKind {
    /// No name where the standard time's name must stand.
    Name,
    /// No digit where the standard offset's hour must stand.
    Digit,
    /// The standard offset's hour is too large a number.
    Number,
    /// Something is left after the last part that fits.
    Eof,
}

/// A time as written: the hour, and the minute and second if given.
#[derive(Clone, Copy, Debug, PartialEq, Eq, Structural)]
pub struct Time {
    pub hh: u8,
    pub mm: Option<u8>,
    pub ss: Option<u8>,
}

/// An offset as written: west of Greenwich where `positive`.
#[derive(Clone, Copy, Debug, PartialEq, Eq, Structural)]
pub struct Offset {
    pub positive: bool,
    pub time: Time,
}

/// A day of the year as written.
#[derive(Clone, Copy, Debug, PartialEq, Eq, Structural)]
pub enum Date {
    /// `Jn`: day `n` of the year, from 1, the 29th of February never counted.
    J(u16),
    /// `n`: day `n` of the year, from 0, the 29th of February counted.
    N(u16),
    /// `Mm.n.d`: weekday `d` (0 is Sunday) of week `n` of month `m`.
    M { m: u8, n: u8, d: u8 },
}

/// When daylight saving time begins and ends, as written.
#[derive(Clone, Copy, Debug, PartialEq, Eq)]
pub struct Rule {
    pub start: (Date, Option<Time>),
    pub end: (Date, Option<Time>),
}

/// Standard time as written.
#[derive(Clone, Copy, Debug, PartialEq, Eq)]
pub struct Std<'a> {
    pub name: &'a str,
    pub offset: Offset,
}

/// Daylight saving time as written.
#[derive(Clone, Copy, Debug, PartialEq, Eq)]
pub struct Dst<'a> {
    pub name: &'a str,
    pub offset: Option<Offset>,
    pub rule: Option<Rule>,
}

/// A `TZ` string as written.
#[derive(Clone, Copy, Debug, PartialEq, Eq)]
pub enum Tz<'a> {
    /// `:name`
    Short(&'a str),
    /// `std dst?`
    Expanded { std: Std<'a>, dst: Option<Dst<'a>> },
}

/// Standard time, the name as its characters.
pub struct StdView {
    pub name: Seq<char>,
    pub offset: Offset,
}

/// Daylight saving time, the name as its characters.
pub struct DstView {
    pub name: Seq<char>,
    pub offset: Option<Offset>,
    pub rule: Option<Rule>,
}

/// A `TZ` string, the names as their characters.
pub enum TzView {
    Short(Seq<char>),
    Expanded { std: StdView, dst: Option<DstView> },
}

impl<'a> View for Std<'a> {
    type V = StdView;

    open spec fn view(&self) -> StdView {
        StdView { name: self.name@, offset: self.offset }
    }
}

impl<'a> View for Dst<'a> {
    type V = DstView;

    open spec fn view(&self) -> DstView {
        DstView { name: self.name@, offset: self.offset, rule: self.rule }
    }
}

impl<'a> View for Tz<'a> {
    type V = TzView;

    open spec fn view(&self) -> TzView {
        match *self {
            Tz::Short(name) => TzView::Short(name@),
            Tz::Expanded { std, dst } => TzView::Expanded {
                std: std@,
                dst: match dst {
                    Some(d) => Some(d@),
                    None => None,
                },
            },
        }
    }
}

/// Whether `c` is alphabetic, as `char::is_alphabetic` tells it.
pub uninterp spec fn alphabetic(c: char) -> bool;

/// Calls `char::is_alphabetic`.
///
/// Trusted: the result is the named property of the character.
#[verifier::external_body]
pub(crate) fn is_alphabetic(c: char) -> (r: bool)
    ensures
        r == alphabetic(c),
{
    c.is_alphabetic()
}

/// `c` is one of the digits 0 to 9.
pub open spec fn is_digit(c: char) -> bool {
    48 <= c as u32 <= 57
}

/// The digit's value.
pub open spec fn digit_value(c: char) -> int {
    c as u32 - 48
}

/// `c` is `<` or `>`.
pub open spec fn is_angle(c: char) -> bool {
    c == '<' || c == '>'
}

/// The character at `pos` is `c`.
pub open spec fn at(s: Seq<char>, pos: int, c: char) -> bool {
    0 <= pos < s.len() && s[pos] == c
}

/// Where the run of digits that begins at `pos` ends.
pub open spec fn digits_end(s: Seq<char>, pos: int) -> int
    decreases s.len() - pos,
{
    if 0 <= pos < s.len() && is_digit(s[pos]) {
        digits_end(s, pos + 1)
    } else {
        pos
    }
}

/// The number that the digits from `from` up to `to` write.
pub open spec fn decimal(s: Seq<char>, from: int, to: int) -> int
    decreases to - from,
{
    if from < to {
        decimal(s, from, to - 1) * 10 + digit_value(s[to - 1])
    } else {
        0
    }
}

/// A number of at most `max` at `pos`: the number and where it ends.
pub open spec fn number(s: Seq<char>, pos: int, max: int) -> Result<(int, int), ErrorKind> {
    let end = digits_end(s, pos);
    if end == pos {
        Err(ErrorKind::Digit)
    } else if decimal(s, pos, end) > max {
        Err(ErrorKind::Number)
    } else {
        Ok((decimal(s, pos, end), end))
    }
}

/// Where the run of characters other than `<` and `>` that begins at `pos`
/// ends.
pub open spec fn plain_end(s: Seq<char>, pos: int) -> int
    decreases s.len() - pos,
{
    if 0 <= pos < s.len() && !is_angle(s[pos]) {
        plain_end(s, pos + 1)
    } else {
        pos
    }
}

/// Where the run of alphabetic characters that begins at `pos` ends, cut
/// after `limit` characters.
pub open spec fn alpha_end(s: Seq<char>, pos: int, limit: int) -> int
    decreases limit,
{
    if 0 <= pos < s.len() && limit > 0 && alphabetic(s[pos]) {
        alpha_end(s, pos + 1, limit - 1)
    } else {
        pos
    }
}

/// A quoted name at `pos`: where the name begins, where it ends, and where
/// the closing `>` ends.
pub open spec fn quoted_name(s: Seq<char>, pos: int) -> Option<(int, int, int)> {
    let end = plain_end(s, pos + 1);
    if at(s, pos, '<') && end > pos + 1 && at(s, end, '>') {
        Some((pos + 1, end, end + 1))
    } else {
        None
    }
}

/// An unquoted name at `pos`: where the name begins, where it ends, and
/// again where it ends.
pub open spec fn unquoted_name(s: Seq<char>, pos: int) -> Option<(int, int, int)> {
    let end = alpha_end(s, pos, TZNAME_MAX as int);
    if end - pos >= TZNAME_MIN {
        Some((pos, end, end))
    } else {
        None
    }
}

/// A name at `pos`: where the name begins, where it ends, and where the
/// grammar goes on.
pub open spec fn name(s: Seq<char>, pos: int) -> Option<(int, int, int)> {
    match quoted_name(s, pos) {
        Some(r) => Some(r),
        None => unquoted_name(s, pos),
    }
}

/// A `:` and a number up to 255 at `pos`.
pub open spec fn colon_number(s: Seq<char>, pos: int) -> Option<(int, int)> {
    if at(s, pos, ':') {
        match number(s, pos + 1, 255) {
            Ok(r) => Some(r),
            Err(_) => None,
        }
    } else {
        None
    }
}

/// A time at `pos`, and where it ends.
pub open spec fn time(s: Seq<char>, pos: int) -> Result<(Time, int), ErrorKind> {
    match number(s, pos, 255) {
        Err(e) => Err(e),
        Ok((hh, k0)) => {
            let (mm, k1) = match colon_number(s, k0) {
                Some((v, p)) => (Some(v as u8), p),
                None => (None, k0),
            };
            let (ss, k2) = match colon_number(s, k1) {
                Some((v, p)) => (Some(v as u8), p),
                None => (None, k1),
            };
            Ok((Time { hh: hh as u8, mm, ss }, k2))
        },
    }
}

/// A `/` and a time at `pos`.
pub open spec fn time_opt(s: Seq<char>, pos: int) -> Option<(Time, int)> {
    if at(s, pos, '/') {
        match time(s, pos + 1) {
            Ok(r) => Some(r),
            Err(_) => None,
        }
    } else {
        None
    }
}

/// An offset at `pos`, and where it ends.
pub open spec fn offset(s: Seq<char>, pos: int) -> Result<(Offset, int), ErrorKind> {
    let signed = at(s, pos, '+') || at(s, pos, '-');
    let p = if signed {
        pos + 1
    } else {
        pos
    };
    match time(s, p) {
        Err(e) => Err(e),
        Ok((t, end)) => Ok((Offset { positive: !at(s, pos, '-'), time: t }, end)),
    }
}

/// A date of the form `Jn` at `pos`.
pub open spec fn date_j(s: Seq<char>, pos: int) -> Option<(Date, int)> {
    if at(s, pos, 'J') {
        match number(s, pos + 1, 65535) {
            Ok((n, end)) => Some((Date::J(n as u16), end)),
            Err(_) => None,
        }
    } else {
        None
    }
}

/// A `.` and a number up to 255 at `pos`.
pub open spec fn dot_number(s: Seq<char>, pos: int) -> Option<(int, int)> {
    if at(s, pos, '.') {
        match number(s, pos + 1, 255) {
            Ok(r) => Some(r),
            Err(_) => None,
        }
    } else {
        None
    }
}

/// A date of the form `Mm.n.d` at `pos`.
pub open spec fn date_m(s: Seq<char>, pos: int) -> Option<(Date, int)> {
    if at(s, pos, 'M') {
        match number(s, pos + 1, 255) {
            Err(_) => None,
            Ok((m, k0)) => match dot_number(s, k0) {
                None => None,
                Some((n, k1)) => match dot_number(s, k1) {
                    None => None,
                    Some((d, k2)) => Some((Date::M { m: m as u8, n: n as u8, d: d as u8 }, k2)),
                },
            },
        }
    } else {
        None
    }
}

/// A date of the form `n` at `pos`.
pub open spec fn date_n(s: Seq<char>, pos: int) -> Option<(Date, int)> {
    match number(s, pos, 65535) {
        Ok((n, end)) => Some((Date::N(n as u16), end)),
        Err(_) => None,
    }
}

/// A date at `pos`, and where it ends.
pub open spec fn date(s: Seq<char>, pos: int) -> Option<(Date, int)> {
    match date_j(s, pos) {
        Some(r) => Some(r),
        None => match date_m(s, pos) {
            Some(r) => Some(r),
            None => date_n(s, pos),
        },
    }
}

/// A `,`, a date and perhaps a `/` and a time at `pos`.
pub open spec fn rule_part(s: Seq<char>, pos: int) -> Option<((Date, Option<Time>), int)> {
    if at(s, pos, ',') {
        match date(s, pos + 1) {
            None => None,
            Some((d, k0)) => match time_opt(s, k0) {
                Some((t, k1)) => Some(((d, Some(t)), k1)),
                None => Some(((d, None), k0)),
            },
        }
    } else {
        None
    }
}

/// A rule at `pos`, and where it ends.
pub open spec fn rule(s: Seq<char>, pos: int) -> Option<(Rule, int)> {
    match rule_part(s, pos) {
        None => None,
        Some((start, k0)) => match rule_part(s, k0) {
            None => None,
            Some((end, k1)) => Some((Rule { start, end }, k1)),
        },
    }
}

/// Standard time at `pos`, and where it ends.
pub open spec fn std_part(s: Seq<char>, pos: int) -> Result<(StdView, int), ErrorKind> {
    match name(s, pos) {
        None => Err(ErrorKind::Name),
        Some((from, to, k0)) => match offset(s, k0) {
            Err(e) => Err(e),
            Ok((o, k1)) => Ok((StdView { name: s.subrange(from, to), offset: o }, k1)),
        },
    }
}

/// Daylight saving time at `pos`, and where it ends.
pub open spec fn dst_part(s: Seq<char>, pos: int) -> Option<(DstView, int)> {
    match name(s, pos) {
        None => None,
        Some((from, to, k0)) => {
            let (o, k1) = match offset(s, k0) {
                Ok((o, p)) => (Some(o), p),
                Err(_) => (None, k0),
            };
            let (r, k2) = match rule(s, k1) {
                Some((r, p)) => (Some(r), p),
                None => (None, k1),
            };
            Some((DstView { name: s.subrange(from, to), offset: o, rule: r }, k2))
        },
    }
}

/// What the whole string `s` is: a `TZ` string, or the part of the grammar at
/// which it fails.
pub open spec fn entry_spec(s: Seq<char>) -> Result<TzView, ErrorKind> {
    if at(s, 0, ':') && name(s, 1) is Some {
        let (from, to, end) = name(s, 1)->0;
        if end == s.len() {
            Ok(TzView::Short(s.subrange(from, to)))
        } else {
            Err(ErrorKind::Eof)
        }
    } else {
        match std_part(s, 0) {
            Err(e) => Err(e),
            Ok((st, k0)) => {
                let (d, k1) = match dst_part(s, k0) {
                    Some((d, p)) => (Some(d), p),
                    None => (None, k0),
                };
                if k1 == s.len() {
                    Ok(TzView::Expanded { std: st, dst: d })
                } else {
                    Err(ErrorKind::Eof)
                }
            },
        }
    }
}

/// A run of digits ends where the first character that is no digit stands.
proof fn lemma_digits_end(s: Seq<char>, pos: int, end: int)
    requires
        0 <= pos <= end <= s.len(),
        forall|j: int| pos <= j < end ==> is_digit(s[j]),
        end < s.len() ==> !is_digit(s[end]),
    ensures
        digits_end(s, pos) == end,
    decreases end - pos,
{
    if pos < end {
        lemma_digits_end(s, pos + 1, end);
    }
}

/// A run of plain characters ends where the first `<` or `>` stands.
proof fn lemma_plain_end(s: Seq<char>, pos: int, end: int)
    requires
        0 <= pos <= end <= s.len(),
        forall|j: int| pos <= j < end ==> !is_angle(s[j]),
        end < s.len() ==> is_angle(s[end]),
    ensures
        plain_end(s, pos) == end,
    decreases end - pos,
{
    if pos < end {
        lemma_plain_end(s, pos + 1, end);
    }
}

/// A run of alphabetic characters ends where the first other character
/// stands, or where the limit is reached.
proof fn lemma_alpha_end(s: Seq<char>, pos: int, end: int, limit: int)
    requires
        0 <= pos <= end <= s.len(),
        end - pos <= limit,
        forall|j: int| pos <= j < end ==> alphabetic(s[j]),
        end - pos < limit && end < s.len() ==> !alphabetic(s[end]),
    ensures
        alpha_end(s, pos, limit) == end,
    decreases end - pos,
{
    if pos < end {
        lemma_alpha_end(s, pos + 1, end, limit - 1);
    }
}

/// More digits do not write a smaller number.
proof fn lemma_decimal_grows(s: Seq<char>, from: int, mid: int, to: int)
    requires
        0 <= from <= mid <= to <= s.len(),
        forall|j: int| from <= j < to ==> is_digit(s[j]),
    ensures
        0 <= decimal(s, from, mid) <= decimal(s, from, to),
    decreases to - mid,
{
    lemma_decimal_nonnegative(s, from, mid);
    if mid < to {
        lemma_decimal_grows(s, from, mid, to - 1);
    }
}

/// Digits write a number that is not negative.
proof fn lemma_decimal_nonnegative(s: Seq<char>, from: int, to: int)
    requires
        0 <= from <= to <= s.len(),
        forall|j: int| from <= j < to ==> is_digit(s[j]),
    ensures
        0 <= decimal(s, from, to),
    decreases to - from,
{
    if from < to {
        lemma_decimal_nonnegative(s, from, to - 1);
    }
}

/// Whether the character at `pos` is `c`.
fn at_char(s: &Vec<char>, pos: usize, c: char) -> (r: bool)
    ensures
        r == at(s@, pos as int, c),
{
    pos < s.len() && s[pos] == c
}

/// Reads a number of at most `max` at `pos`.
fn parse_number(s: &Vec<char>, pos: usize, max: u32) -> (r: Result<(u32, usize), ErrorKind>)
    requires
        pos <= s.len(),
        max <= 65535,
    ensures
        match r {
            Ok((v, end)) => number(s@, pos as int, max as int) == Ok::<(int, int), ErrorKind>(
                (v as int, end as int),
            ) && pos < end <= s.len() && v <= max,
            Err(e) => number(s@, pos as int, max as int) == Err::<(int, int), ErrorKind>(e),
        },
{
    let mut end: usize = pos;
    let mut value: u32 = 0;
    let mut over: bool = false;
    while end < s.len() && 48 <= s[end] as u32 && s[end] as u32 <= 57
        invariant
            pos <= end <= s.len(),
            max <= 65535,
            forall|j: int| pos <= j < end ==> is_digit(s@[j]),
            !over ==> value == decimal(s@, pos as int, end as int) && value <= max,
            over ==> decimal(s@, pos as int, end as int) > max,
        decreases s.len() - end,
    {
        let digit: u32 = s[end] as u32 - 48;
        proof {
            lemma_decimal_nonnegative(s@, pos as int, end as int);
        }
        if !over {
            let next: u32 = value * 10 + digit;
            if next > max {
                over = true;
            } else {
                value = next;
            }
        }
        end += 1;
    }
    proof {
        lemma_digits_end(s@, pos as int, end as int);
    }
    if end == pos {
        Err(ErrorKind::Digit)
    } else if over {
        Err(ErrorKind::Number)
    } else {
        Ok((value, end))
    }
}

/// Reads a quoted name at `pos`.
fn parse_quoted_name(s: &Vec<char>, pos: usize) -> (r: Option<(usize, usize, usize)>)
    requires
        pos <= s.len(),
    ensures
        match r {
            Some((from, to, next)) => quoted_name(s@, pos as int) == Some(
                (from as int, to as int, next as int),
            ) && pos <= from <= to <= next <= s.len(),
            None => quoted_name(s@, pos as int) is None,
        },
{
    if !at_char(s, pos, '<') {
        return None;
    }
    let from: usize = pos + 1;
    let mut end: usize = from;
    while end < s.len() && s[end] != '<' && s[end] != '>'
        invariant
            from <= end <= s.len(),
            forall|j: int| from <= j < end ==> !is_angle(s@[j]),
        decreases s.len() - end,
    {
        end += 1;
    }
    proof {
        lemma_plain_end(s@, from as int, end as int);
    }
    if end > from && at_char(s, end, '>') {
        Some((from, end, end + 1))
    } else {
        None
    }
}

/// Reads an unquoted name at `pos`.
fn parse_unquoted_name(s: &Vec<char>, pos: usize) -> (r: Option<(usize, usize, usize)>)
    requires
        pos <= s.len(),
    ensures
        match r {
            Some((from, to, next)) => unquoted_name(s@, pos as int) == Some(
                (from as int, to as int, next as int),
            ) && pos <= from <= to <= next <= s.len(),
            None => unquoted_name(s@, pos as int) is None,
        },
{
    let mut end: usize = pos;
    while end < s.len() && end - pos < TZNAME_MAX && is_alphabetic(s[end])
        invariant
            pos <= end <= s.len(),
            end - pos <= TZNAME_MAX,
            forall|j: int| pos <= j < end ==> alphabetic(s@[j]),
        decreases s.len() - end,
    {
        end += 1;
    }
    proof {
        lemma_alpha_end(s@, pos as int, end as int, TZNAME_MAX as int);
    }
    if end - pos >= TZNAME_MIN {
        Some((pos, end, end))
    } else {
        None
    }
}

/// Reads a name at `pos`.
fn parse_name(s: &Vec<char>, pos: usize) -> (r: Option<(usize, usize, usize)>)
    requires
        pos <= s.len(),
    ensures
        match r {
            Some((from, to, next)) => name(s@, pos as int) == Some(
                (from as int, to as int, next as int),
            ) && pos <= from <= to <= next <= s.len(),
            None => name(s@, pos as int) is None,
        },
{
    match parse_quoted_name(s, pos) {
        Some(r) => Some(r),
        None => parse_unquoted_name(s, pos),
    }
}

/// Reads the character `c` and a number up to 255 at `pos`.
fn parse_prefixed_number(s: &Vec<char>, pos: usize, c: char) -> (r: Option<(u8, usize)>)
    requires
        pos <= s.len(),
    ensures
        c == ':' ==> match r {
            Some((v, end)) => colon_number(s@, pos as int) == Some((v as int, end as int)) && pos
                < end <= s.len(),
            None => colon_number(s@, pos as int) is None,
        },
        c == '.' ==> match r {
            Some((v, end)) => dot_number(s@, pos as int) == Some((v as int, end as int)) && pos
                < end <= s.len(),
            None => dot_number(s@, pos as int) is None,
        },
{
    if !at_char(s, pos, c) {
        return None;
    }
    match parse_number(s, pos + 1, 255) {
        Ok((v, end)) => Some((v as u8, end)),
        Err(_) => None,
    }
}

/// Reads a time at `pos`.
fn parse_time(s: &Vec<char>, pos: usize) -> (r: Result<(Time, usize), ErrorKind>)
    requires
        pos <= s.len(),
    ensures
        match r {
            Ok((t, end)) => time(s@, pos as int) == Ok::<(Time, int), ErrorKind>((t, end as int))
                && pos < end <= s.len(),
            Err(e) => time(s@, pos as int) == Err::<(Time, int), ErrorKind>(e),
        },
{
    let (hh, k0) = match parse_number(s, pos, 255) {
        Ok(r) => r,
        Err(e) => return Err(e),
    };
    let (mm, k1) = match parse_prefixed_number(s, k0, ':') {
        Some((v, p)) => (Some(v), p),
        None => (None, k0),
    };
    let (ss, k2) = match parse_prefixed_number(s, k1, ':') {
        Some((v, p)) => (Some(v), p),
        None => (None, k1),
    };
    Ok((Time { hh: hh as u8, mm, ss }, k2))
}

/// Reads a `/` and a time at `pos`.
fn parse_time_opt(s: &Vec<char>, pos: usize) -> (r: Option<(Time, usize)>)
    requires
        pos <= s.len(),
    ensures
        match r {
            Some((t, end)) => time_opt(s@, pos as int) == Some((t, end as int)) && pos < end
                <= s.len(),
            None => time_opt(s@, pos as int) is None,
        },
{
    if !at_char(s, pos, '/') {
        return None;
    }
    match parse_time(s, pos + 1) {
        Ok(r) => Some(r),
        Err(_) => None,
    }
}

/// Reads an offset at `pos`.
fn parse_offset(s: &Vec<char>, pos: usize) -> (r: Result<(Offset, usize), ErrorKind>)
    requires
        pos <= s.len(),
    ensures
        match r {
            Ok((o, end)) => offset(s@, pos as int) == Ok::<(Offset, int), ErrorKind>(
                (o, end as int),
            ) && pos < end <= s.len(),
            Err(e) => offset(s@, pos as int) == Err::<(Offset, int), ErrorKind>(e),
        },
{
    let minus = at_char(s, pos, '-');
    let p = if minus || at_char(s, pos, '+') {
        pos + 1
    } else {
        pos
    };
    match parse_time(s, p) {
        Ok((time, end)) => Ok((Offset { positive: !minus, time }, end)),
        Err(e) => Err(e),
    }
}

/// Reads a date at `pos`.
fn parse_date(s: &Vec<char>, pos: usize) -> (r: Option<(Date, usize)>)
    requires
        pos <= s.len(),
    ensures
        match r {
            Some((d, end)) => date(s@, pos as int) == Some((d, end as int)) && pos < end
                <= s.len(),
            None => date(s@, pos as int) is None,
        },
{
    if at_char(s, pos, 'J') {
        match parse_number(s, pos + 1, 65535) {
            Ok((n, end)) => {
                return Some((Date::J(n as u16), end));
            },
            Err(_) => {},
        }
    }
    if at_char(s, pos, 'M') {
        match parse_number(s, pos + 1, 255) {
            Ok((m, k0)) => match parse_prefixed_number(s, k0, '.') {
                Some((n, k1)) => match parse_prefixed_number(s, k1, '.') {
                    Some((d, k2)) => {
                        return Some((Date::M { m: m as u8, n, d }, k2));
                    },
                    None => {},
                },
                None => {},
            },
            Err(_) => {},
        }
    }
    match parse_number(s, pos, 65535) {
        Ok((n, end)) => Some((Date::N(n as u16), end)),
        Err(_) => None,
    }
}

/// Reads a `,`, a date and perhaps a `/` and a time at `pos`.
fn parse_rule_part(s: &Vec<char>, pos: usize) -> (r: Option<((Date, Option<Time>), usize)>)
    requires
        pos <= s.len(),
    ensures
        match r {
            Some((part, end)) => rule_part(s@, pos as int) == Some((part, end as int)) && pos < end
                <= s.len(),
            None => rule_part(s@, pos as int) is None,
        },
{
    if !at_char(s, pos, ',') {
        return None;
    }
    match parse_date(s, pos + 1) {
        None => None,
        Some((d, k0)) => match parse_time_opt(s, k0) {
            Some((t, k1)) => Some(((d, Some(t)), k1)),
            None => Some(((d, None), k0)),
        },
    }
}

/// Reads a rule at `pos`.
fn parse_rule(s: &Vec<char>, pos: usize) -> (r: Option<(Rule, usize)>)
    requires
        pos <= s.len(),
    ensures
        match r {
            Some((x, end)) => rule(s@, pos as int) == Some((x, end as int)) && pos < end
                <= s.len(),
            None => rule(s@, pos as int) is None,
        },
{
    match parse_rule_part(s, pos) {
        None => None,
        Some((start, k0)) => match parse_rule_part(s, k0) {
            None => None,
            Some((end, k1)) => Some((Rule { start, end }, k1)),
        },
    }
}

/// Parses a whole `TZ` string.
///
/// The names of the result are parts of `input`. An error tells at which
/// part of the grammar the string fails: the first name, the hour of the
/// first offset, or what is left behind the last part that fits.
pub fn entry<'a>(input: &'a str) -> (r: Result<Tz<'a>, ErrorKind>)
    ensures
        match r {
            Ok(tz) => entry_spec(input@) == Ok::<TzView, ErrorKind>(tz@),
            Err(e) => entry_spec(input@) == Err::<TzView, ErrorKind>(e),
        },
{
    let chars = to_chars(input);
    let s = &chars;
    if at_char(s, 0, ':') {
        match parse_name(s, 1) {
            Some((from, to, end)) => {
                return if end == s.len() {
                    Ok(Tz::Short(input.substring_char(from, to)))
                } else {
                    Err(ErrorKind::Eof)
                };
            },
            None => {},
        }
    }
    let (std_from, std_to, k0) = match parse_name(s, 0) {
        Some(r) => r,
        None => return Err(ErrorKind::Name),
    };
    let (std_offset, k1) = match parse_offset(s, k0) {
        Ok(r) => r,
        Err(e) => return Err(e),
    };
    let std = Std { name: input.substring_char(std_from, std_to), offset: std_offset };
    let (dst, k2) = match parse_name(s, k1) {
        None => (None, k1),
        Some((from, to, q0)) => {
            let (offset, q1) = match parse_offset(s, q0) {
                Ok((o, q)) => (Some(o), q),
                Err(_) => (None, q0),
            };
            let (rule, q2) = match parse_rule(s, q1) {
                Some((r, q)) => (Some(r), q),
                None => (None, q1),
            };
            (Some(Dst { name: input.substring_char(from, to), offset, rule }), q2)
        },
    };
    if k2 == s.len() {
        Ok(Tz::Expanded { std, dst })
    } else {
        Err(ErrorKind::Eof)
    }
}

} // verus!
