use nom::branch::alt;
use nom::bytes::complete::{is_not, take_while_m_n};
use nom::character::complete::{char as cchar, digit1};
use nom::combinator::{eof, map_res, opt};
use nom::sequence::{delimited, preceded, terminated, tuple};
use nom::IResult;

use time_tz::posix_tz::parser::{entry, Date, Dst, ErrorKind, Offset, Rule, Std, Time, Tz};

// The grammar once more, written with parser combinators, to hold the parser
// against.

type Parsed<'a, T> = IResult<&'a str, T>;

fn quoted_name(input: &str) -> Parsed<&str> {
    delimited(cchar('<'), is_not("<>"), cchar('>'))(input)
}

fn unquoted_name(input: &str) -> Parsed<&str> {
    take_while_m_n(3, 16, |c: char| c.is_alphabetic())(input)
}

fn name(input: &str) -> Parsed<&str> {
    alt((quoted_name, unquoted_name))(input)
}

fn small(input: &str) -> Parsed<u8> {
    map_res(digit1, |v: &str| v.parse::<u8>())(input)
}

fn large(input: &str) -> Parsed<u16> {
    map_res(digit1, |v: &str| v.parse::<u16>())(input)
}

fn time(input: &str) -> Parsed<Time> {
    let (rest, (hh, mm, ss)) = tuple((
        small,
        opt(preceded(cchar(':'), small)),
        opt(preceded(cchar(':'), small)),
    ))(input)?;
    Ok((rest, Time { hh, mm, ss }))
}

fn time_opt(input: &str) -> Parsed<Time> {
    preceded(cchar('/'), time)(input)
}

fn offset(input: &str) -> Parsed<Offset> {
    let (rest, (sign, time)) = tuple((opt(alt((cchar('+'), cchar('-')))), time))(input)?;
    let positive = sign.map(|v| v == '+').unwrap_or(true);
    Ok((rest, Offset { positive, time }))
}

fn date_j(input: &str) -> Parsed<Date> {
    let (rest, n) = preceded(cchar('J'), large)(input)?;
    Ok((rest, Date::J(n)))
}

fn date_n(input: &str) -> Parsed<Date> {
    let (rest, n) = large(input)?;
    Ok((rest, Date::N(n)))
}

fn date_m(input: &str) -> Parsed<Date> {
    let (rest, (m, n, d)) = tuple((
        preceded(cchar('M'), small),
        preceded(cchar('.'), small),
        preceded(cchar('.'), small),
    ))(input)?;
    Ok((rest, Date::M { m, n, d }))
}

fn date(input: &str) -> Parsed<Date> {
    alt((date_j, date_m, date_n))(input)
}

fn rule(input: &str) -> Parsed<Rule> {
    let (rest, (start, end)) = tuple((
        preceded(cchar(','), tuple((date, opt(time_opt)))),
        preceded(cchar(','), tuple((date, opt(time_opt)))),
    ))(input)?;
    Ok((rest, Rule { start, end }))
}

fn std_part(input: &str) -> Parsed<Std> {
    let (rest, (name, offset)) = tuple((name, offset))(input)?;
    Ok((rest, Std { name, offset }))
}

fn dst_part(input: &str) -> Parsed<Dst> {
    let (rest, (name, offset, rule)) = tuple((name, opt(offset), opt(rule)))(input)?;
    Ok((rest, Dst { name, offset, rule }))
}

fn tz_short(input: &str) -> Parsed<Tz> {
    let (rest, name) = preceded(cchar(':'), name)(input)?;
    Ok((rest, Tz::Short(name)))
}

fn tz_expanded(input: &str) -> Parsed<Tz> {
    let (rest, (std, dst)) = tuple((std_part, opt(dst_part)))(input)?;
    Ok((rest, Tz::Expanded { std, dst }))
}

fn combinators(input: &str) -> Result<Tz, ErrorKind> {
    match terminated(alt((tz_short, tz_expanded)), eof)(input) {
        Ok((_, tz)) => Ok(tz),
        Err(nom::Err::Error(e)) | Err(nom::Err::Failure(e)) => Err(match e.code {
            nom::error::ErrorKind::TakeWhileMN => ErrorKind::Name,
            nom::error::ErrorKind::Digit => ErrorKind::Digit,
            nom::error::ErrorKind::MapRes => ErrorKind::Number,
            nom::error::ErrorKind::Eof => ErrorKind::Eof,
            other => panic!("{:?} on {:?}", other, input),
        }),
        Err(nom::Err::Incomplete(_)) => unreachable!(),
    }
}

const PIECES: [&str; 48] = [
    "ABC", "DEF", "Ab", "abcd", "ABCDEFGHIJKLMNOP", "ABCDEFGHIJKLMNOPQ", "J", "M", "JM", "<+03>",
    "<-03>", "<A>", "<>", "<", ">", "<A<B>", ":", "+", "-", "/", ",", ".", " ", "0", "1", "2",
    "3", "5", "007", "12", "23", "24", "25", "59", "60", "99", "255", "256", "365", "366",
    "65535", "65536", "99999999999999999999", "1:00", "4:30:15", "M1.2.3", "J60", "M3.5.0/2",
];

fn next(state: &mut u64) -> usize {
    *state = state
        .wrapping_mul(6364136223846793005)
        .wrapping_add(1442695040888963407);
    (*state >> 33) as usize
}

#[test]
fn agrees_with_combinators_on_chosen_strings() {
    let inputs = [
        "",
        ":",
        ":ABC",
        ":AB",
        ":ABC5",
        ":<UTC+1>",
        "ABC",
        "ABC5",
        "AB5",
        "ABC+5",
        "ABC-5",
        "ABC--5",
        "ABC5:30",
        "ABC5:30:15",
        "ABC5:30:15:10",
        "ABC5:",
        "ABC5:300",
        "ABC256",
        "ABC255",
        "ABC5DEF",
        "ABC5DEF4",
        "ABC5DEF,M3.2.0,M11.1.0",
        "ABC5DEF,M3.2.0/2,M11.1.0/2",
        "ABC5DEF,M3.2.0/2:30:10,M11.1.0/25",
        "ABC5DEF,J60,J300",
        "ABC5DEF,60,300",
        "ABC5DEF,J60",
        "ABC5DEF,J60,",
        "ABC5DEF,M3.2,M11.1.0",
        "ABC5DEF,M3.2.0,M11.1.256",
        "ABC5DEF,J65536,J1",
        "ABC5DEF,65535,0",
        "<+03>-3",
        "<+03>-3<+04>-4,M3.5.0,M10.5.0",
        "<+03",
        "<>3",
        "ABCDEFGHIJKLMNOP1",
        "ABCDEFGHIJKLMNOPQ1",
        "ABC+1:00DEF,M1.2.3/4,56",
        "EST5EDT,M3.2.0,M11.1.0",
        "CET-1CEST,M3.5.0,M10.5.0/3",
        "EET-2EEST,M4.5.5/0,M10.5.4/24",
        "ABC5 ",
        " ABC5",
        "ABC5DEF ,M3.2.0,M11.1.0",
    ];
    for input in inputs {
        assert_eq!(entry(input), combinators(input), "{:?}", input);
    }
}

#[test]
fn agrees_with_combinators_on_made_up_strings() {
    let mut state: u64 = 0x1234_5678_9abc_def0;
    let mut accepted = 0;
    for _ in 0..60_000 {
        let count = 1 + next(&mut state) % 9;
        let mut input = String::new();
        for _ in 0..count {
            input.push_str(PIECES[next(&mut state) % PIECES.len()]);
        }
        let got = entry(&input);
        if got.is_ok() {
            accepted += 1;
        }
        assert_eq!(got, combinators(&input), "{:?}", input);
    }
    assert!(accepted > 100);
}

#[test]
fn tells_the_part_that_fails() {
    assert_eq!(entry(""), Err(ErrorKind::Name));
    assert_eq!(entry("AB5"), Err(ErrorKind::Name));
    assert_eq!(entry(":AB"), Err(ErrorKind::Name));
    assert_eq!(entry("ABC"), Err(ErrorKind::Digit));
    assert_eq!(entry("ABC+"), Err(ErrorKind::Digit));
    assert_eq!(entry("ABC256"), Err(ErrorKind::Number));
    assert_eq!(entry("ABC5,"), Err(ErrorKind::Eof));
    assert_eq!(entry(":ABC5"), Err(ErrorKind::Eof));
    assert_eq!(entry("ABC5DEF,J60"), Err(ErrorKind::Eof));
}

#[test]
fn reads_names_by_characters() {
    // Three letters of two bytes each are a name of three characters.
    assert_eq!(
        entry("\u{e9}\u{e9}\u{e9}5"),
        Ok(Tz::Expanded {
            std: Std {
                name: "\u{e9}\u{e9}\u{e9}",
                offset: Offset {
                    positive: true,
                    time: Time {
                        hh: 5,
                        mm: None,
                        ss: None
                    }
                }
            },
            dst: None
        })
    );
    assert_eq!(entry("\u{e9}\u{e9}5"), Err(ErrorKind::Name));
    assert_eq!(entry(":<\u{4e2d}\u{6587}>"), Ok(Tz::Short("\u{4e2d}\u{6587}")));
}

#[test]
fn reads_a_short_name() {
    assert_eq!(entry(":Europe"), Ok(Tz::Short("Europe")));
    assert_eq!(entry(":<Europe/London>"), Ok(Tz::Short("Europe/London")));
}

#[test]
fn reads_signs() {
    let hour = |positive| Tz::Expanded {
        std: Std {
            name: "ABC",
            offset: Offset {
                positive,
                time: Time {
                    hh: 7,
                    mm: None,
                    ss: None,
                },
            },
        },
        dst: None,
    };
    assert_eq!(entry("ABC7"), Ok(hour(true)));
    assert_eq!(entry("ABC+7"), Ok(hour(true)));
    assert_eq!(entry("ABC-7"), Ok(hour(false)));
}
