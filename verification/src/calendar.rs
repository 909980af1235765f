use vstd::prelude::*;
use vstd::string::*;

use crate::errors::ParseError;
use crate::text::{str_eq, views_of};

verus! {

/// Local wall-clock hour at which every session opens.
pub const OPEN_HOUR: u32 = 10;

/// Local wall-clock hour at which every session closes.
pub const CLOSE_HOUR: u32 = 16;

/// A calendar day in the exchange's civil calendar.
#[derive(Debug, Clone, Copy, PartialEq, Eq, Structural)]
pub struct CivilDate {
    pub year: i32,
    pub month: u32,
    pub day: u32,
}

/// Structured form of one raw schedule entry: a day that is either closed or
/// open for the fixed local trading window.
#[derive(Debug, Clone, Copy, PartialEq, Eq, Structural)]
pub struct DayEntry {
    pub date: CivilDate,
    pub closed: bool,
}

/// One trading session, both boundaries resolved to absolute instants
/// (Unix seconds, UTC).
#[derive(Debug, Clone, Copy, PartialEq, Eq, Structural)]
pub struct Hours {
    pub open_utc: i64,
    pub close_utc: i64,
}

/// A schedule day after timezone resolution.
#[derive(Debug, Clone, Copy, PartialEq, Eq, Structural)]
pub enum TradingHoursEntry {
    Open(Hours),
    Closed,
}

/// The timezone every schedule feed must declare.
pub open spec fn asx_tz() -> Seq<char> {
    "Australia/Sydney"@
}

/// What the timezone database computes for a local wall-clock time: the Unix
/// instant of `(year, month, day, hour:00:00)` in the named timezone, or
/// nothing when the timezone name is unknown, the date invalid, or the local
/// time ambiguous or non-existent.
pub uninterp spec fn local_epoch_of(tz: Seq<char>, year: int, month: int, day: int, hour: int) -> Option<i64>;

/// Relies on chrono_tz's embedded IANA database: `Tz::from_local_datetime`
/// (through chrono's `TimeZone` trait) maps a local wall-clock time either to
/// a unique absolute instant or to an ambiguous/non-existent verdict, and the
/// answer depends on the arguments alone.
#[verifier::external_body]
fn resolve_local_epoch(tz_name: &str, year: i32, month: u32, day: u32, hour: u32) -> (r: Option<i64>)
    ensures
        r == local_epoch_of(tz_name@, year as int, month as int, day as int, hour as int),
{
    let tz: chrono_tz::Tz = tz_name.parse().ok()?;
    let date = chrono::NaiveDate::from_ymd_opt(year, month, day)?;
    let time = chrono::NaiveTime::from_hms_opt(hour, 0, 0)?;
    let local = chrono::TimeZone::from_local_datetime(&tz, &date.and_time(time));
    local.single().map(|dt| dt.timestamp())
}

/// A decimal digit.
pub open spec fn is_digit(c: char) -> bool {
    48 <= c as u32 <= 57
}

/// The value of a decimal digit.
pub open spec fn digit_val(c: char) -> int {
    c as u32 - 48
}

/// Structured parse of one raw entry: eight date digits `YYYYMMDD`, a colon,
/// and a time-spec, where the time-spec `CLOSED` marks a closed day and
/// anything else an open day.
pub open spec fn spec_parse_entry(s: Seq<char>) -> Option<DayEntry> {
    if s.len() >= 9 && (forall|j: int| 0 <= j < 8 ==> is_digit(#[trigger] s[j])) && s[8] == ':' {
        let y = digit_val(s[0]) * 1000 + digit_val(s[1]) * 100 + digit_val(s[2]) * 10
            + digit_val(s[3]);
        let m = digit_val(s[4]) * 10 + digit_val(s[5]);
        let d = digit_val(s[6]) * 10 + digit_val(s[7]);
        let date = CivilDate { year: y as i32, month: m as u32, day: d as u32 };
        Some(DayEntry { date, closed: s.skip(9) == "CLOSED"@ })
    } else {
        None
    }
}

/// Timezone resolution of one raw entry at the fixed session hours.
pub open spec fn spec_resolve_entry(tz: Seq<char>, s: Seq<char>) -> Result<
    TradingHoursEntry,
    ParseError,
> {
    match spec_parse_entry(s) {
        None => Err(ParseError::MalformedEntry),
        Some(de) => {
            if de.closed {
                Ok(TradingHoursEntry::Closed)
            } else {
                let o = local_epoch_of(
                    tz,
                    de.date.year as int,
                    de.date.month as int,
                    de.date.day as int,
                    OPEN_HOUR as int,
                );
                let c = local_epoch_of(
                    tz,
                    de.date.year as int,
                    de.date.month as int,
                    de.date.day as int,
                    CLOSE_HOUR as int,
                );
                match (o, c) {
                    (Some(ou), Some(cu)) => Ok(
                        TradingHoursEntry::Open(Hours { open_utc: ou, close_utc: cu }),
                    ),
                    _ => Err(ParseError::UnresolvableLocalTime),
                }
            }
        },
    }
}

/// The whole feed: the declared timezone must be the exchange's, and every
/// entry must parse and resolve; the earliest failing entry decides the error.
pub open spec fn spec_parse_feed(tz: Seq<char>, entries: Seq<Seq<char>>) -> Result<
    Seq<TradingHoursEntry>,
    ParseError,
>
    decreases entries.len(),
{
    if tz != asx_tz() {
        Err(ParseError::TimezoneMismatch)
    } else if entries.len() == 0 {
        Ok(Seq::empty())
    } else {
        match spec_parse_feed(tz, entries.drop_last()) {
            Err(e) => Err(e),
            Ok(pre) => match spec_resolve_entry(tz, entries.last()) {
                Err(e) => Err(e),
                Ok(te) => Ok(pre.push(te)),
            },
        }
    }
}

/// Structured parse of one raw entry string.
pub fn parse_entry(s: &str) -> (r: Option<DayEntry>)
    ensures
        r == spec_parse_entry(s@),
{
    let n = s.unicode_len();
    if n < 9 {
        return None;
    }
    for i in 0..8usize
        invariant
            n == s@.len(),
            9 <= n,
            forall|j: int| 0 <= j < i ==> is_digit(#[trigger] s@[j]),
    {
        let c = s.get_char(i);
        let v = c as u32;
        if v < 48 || v > 57 {
            return None;
        }
    }
    if s.get_char(8) != ':' {
        return None;
    }
    let y = digit_char_val(s.get_char(0)) * 1000 + digit_char_val(s.get_char(1)) * 100
        + digit_char_val(s.get_char(2)) * 10 + digit_char_val(s.get_char(3));
    let m = digit_char_val(s.get_char(4)) * 10 + digit_char_val(s.get_char(5));
    let d = digit_char_val(s.get_char(6)) * 10 + digit_char_val(s.get_char(7));
    let rest = s.substring_char(9, n);
    let closed = str_eq(rest, "CLOSED");
    proof {
        assert(rest@ =~= s@.skip(9));
    }
    let date = CivilDate { year: y as i32, month: m, day: d };
    Some(DayEntry { date, closed })
}

/// The value of a decimal digit character.
fn digit_char_val(c: char) -> (r: u32)
    requires
        is_digit(c),
    ensures
        r == digit_val(c),
{
    (c as u32) - 48
}

/// Timezone resolution of one raw entry string.
pub fn resolve_entry(tz_name: &str, s: &str) -> (r: Result<TradingHoursEntry, ParseError>)
    ensures
        r == spec_resolve_entry(tz_name@, s@),
{
    match parse_entry(s) {
        None => Err(ParseError::MalformedEntry),
        Some(de) => {
            if de.closed {
                Ok(TradingHoursEntry::Closed)
            } else {
                let o = resolve_local_epoch(tz_name, de.date.year, de.date.month, de.date.day, OPEN_HOUR);
                let c = resolve_local_epoch(tz_name, de.date.year, de.date.month, de.date.day, CLOSE_HOUR);
                match (o, c) {
                    (Some(ou), Some(cu)) => Ok(
                        TradingHoursEntry::Open(Hours { open_utc: ou, close_utc: cu }),
                    ),
                    _ => Err(ParseError::UnresolvableLocalTime),
                }
            }
        },
    }
}

/// An entry that would put a session open strictly after `now`.
pub open spec fn opens_after(e: TradingHoursEntry, now: i64) -> bool {
    e matches TradingHoursEntry::Open(h) && h.open_utc > now
}

/// A parsed trading calendar: the resolved per-day entries, in feed order.
#[derive(Debug, Clone)]
pub struct ParsedTradingHours {
    pub entries: Vec<TradingHoursEntry>,
}

impl ParsedTradingHours {
    /// Parse and resolve a raw trading-hours feed against the declared
    /// timezone. The feed is rejected whole on a timezone mismatch, a
    /// malformed entry, or a session time that does not resolve uniquely.
    pub fn parse(tz_name: &str, trading_hours: Vec<String>) -> (r: Result<Self, ParseError>)
        ensures
            match r {
                Ok(cal) => spec_parse_feed(tz_name@, views_of(trading_hours@)) == Ok::<
                    Seq<TradingHoursEntry>,
                    ParseError,
                >(cal.entries@),
                Err(e) => spec_parse_feed(tz_name@, views_of(trading_hours@)) == Err::<
                    Seq<TradingHoursEntry>,
                    ParseError,
                >(e),
            },
    {
        let ghost vs = views_of(trading_hours@);
        if !str_eq(tz_name, "Australia/Sydney") {
            return Err(ParseError::TimezoneMismatch);
        }
        let mut entries: Vec<TradingHoursEntry> = Vec::new();
        let n = trading_hours.len();
        for i in 0..n
            invariant
                n == trading_hours@.len(),
                vs == views_of(trading_hours@),
                tz_name@ == asx_tz(),
                spec_parse_feed(tz_name@, vs.take(i as int)) == Ok::<
                    Seq<TradingHoursEntry>,
                    ParseError,
                >(entries@),
        {
            let te = match resolve_entry(tz_name, trading_hours[i].as_str()) {
                Ok(te) => te,
                Err(e) => {
                    proof {
                        assert(vs.take(i as int + 1).drop_last() =~= vs.take(i as int));
                        assert(vs.take(i as int + 1).last() == trading_hours@[i as int]@);
                        assert(spec_parse_feed(tz_name@, vs.take(i as int + 1)) == Err::<
                            Seq<TradingHoursEntry>,
                            ParseError,
                        >(e));
                        lemma_feed_error_extends(tz_name@, vs, i as int + 1);
                    }
                    return Err(e);
                },
            };
            proof {
                assert(vs.take(i as int + 1).drop_last() =~= vs.take(i as int));
                assert(vs.take(i as int + 1).last() == trading_hours@[i as int]@);
            }
            entries.push(te);
        }
        proof {
            assert(vs.take(n as int) =~= vs);
        }
        Ok(ParsedTradingHours { entries })
    }

    /// The session with the minimum open instant among those opening strictly
    /// after `now_utc`, if any; a normal absence otherwise.
    pub fn next_session(&self, now_utc: i64) -> (r: Option<Hours>)
        ensures
            match r {
                Some(h) => {
                    &&& exists|i: int|
                        0 <= i < self.entries@.len() && self.entries@[i]
                            == TradingHoursEntry::Open(h)
                    &&& h.open_utc > now_utc
                    &&& forall|i: int|
                        0 <= i < self.entries@.len() ==> ((#[trigger] self.entries@[i]) matches
                        TradingHoursEntry::Open(g) ==> (g.open_utc > now_utc ==> h.open_utc
                            <= g.open_utc))
                },
                None => forall|i: int|
                    0 <= i < self.entries@.len() ==> !opens_after(
                        #[trigger] self.entries@[i],
                        now_utc,
                    ),
            },
    {
        let mut best: Option<Hours> = None;
        let n = self.entries.len();
        for i in 0..n
            invariant
                n == self.entries@.len(),
                match best {
                    Some(b) => {
                        &&& exists|k: int|
                            0 <= k < i && self.entries@[k] == TradingHoursEntry::Open(b)
                        &&& b.open_utc > now_utc
                        &&& forall|k: int|
                            0 <= k < i ==> ((#[trigger] self.entries@[k]) matches
                            TradingHoursEntry::Open(g) ==> (g.open_utc > now_utc ==> b.open_utc
                                <= g.open_utc))
                    },
                    None => forall|k: int|
                        0 <= k < i ==> !opens_after(#[trigger] self.entries@[k], now_utc),
                },
        {
            match self.entries[i] {
                TradingHoursEntry::Open(h) => {
                    if h.open_utc > now_utc {
                        match best {
                            None => {
                                best = Some(h);
                            },
                            Some(b) => {
                                if h.open_utc < b.open_utc {
                                    best = Some(h);
                                }
                            },
                        }
                    }
                },
                TradingHoursEntry::Closed => {},
            }
        }
        best
    }
}

/// Once a prefix of the feed fails, the whole feed fails the same way.
proof fn lemma_feed_error_extends(tz: Seq<char>, entries: Seq<Seq<char>>, i: int)
    requires
        0 <= i <= entries.len(),
        spec_parse_feed(tz, entries.take(i)) is Err,
    ensures
        spec_parse_feed(tz, entries) == spec_parse_feed(tz, entries.take(i)),
    decreases entries.len() - i,
{
    if i == entries.len() {
        assert(entries.take(i) =~= entries);
    } else {
        if tz != asx_tz() {
        } else {
            assert(entries.take(i + 1).drop_last() =~= entries.take(i));
            lemma_feed_error_extends(tz, entries, i + 1);
        }
    }
}

/// The length of a successfully parsed feed.
pub proof fn lemma_feed_len(tz: Seq<char>, entries: Seq<Seq<char>>, es: Seq<TradingHoursEntry>)
    requires
        spec_parse_feed(tz, entries) == Ok::<Seq<TradingHoursEntry>, ParseError>(es),
    ensures
        es.len() == entries.len(),
    decreases entries.len(),
{
    if entries.len() == 0 {
    } else {
        match spec_parse_feed(tz, entries.drop_last()) {
            Ok(pre) => {
                lemma_feed_len(tz, entries.drop_last(), pre);
            },
            Err(_) => {},
        }
    }
}

/// A closed-day entry never yields a session: in a successfully parsed feed,
/// an entry whose time-spec is the closed marker stands as `Closed`, whatever
/// its date digits hold.
pub proof fn lemma_closed_day_no_session(
    tz: Seq<char>,
    entries: Seq<Seq<char>>,
    es: Seq<TradingHoursEntry>,
    i: int,
)
    requires
        spec_parse_feed(tz, entries) == Ok::<Seq<TradingHoursEntry>, ParseError>(es),
        0 <= i < entries.len(),
        spec_parse_entry(entries[i]) matches Some(de) && de.closed,
    ensures
        es.len() == entries.len(),
        es[i] == TradingHoursEntry::Closed,
    decreases entries.len(),
{
    lemma_feed_len(tz, entries, es);
    if i == entries.len() - 1 {
        assert(entries.last() == entries[i]);
    } else {
        match spec_parse_feed(tz, entries.drop_last()) {
            Ok(pre) => {
                assert(entries.drop_last()[i] == entries[i]);
                lemma_closed_day_no_session(tz, entries.drop_last(), pre, i);
                assert(es[i] == pre[i]);
            },
            Err(_) => {},
        }
    }
}

/// A feed whose declared timezone is not the exchange's fails to parse, for
/// any entries.
pub proof fn lemma_timezone_mismatch_rejected(tz: Seq<char>, entries: Seq<Seq<char>>)
    requires
        tz != asx_tz(),
    ensures
        spec_parse_feed(tz, entries) == Err::<Seq<TradingHoursEntry>, ParseError>(
            ParseError::TimezoneMismatch,
        ),
{
}

} // verus!
