//! Continuity of candle streams: each (exchange, symbol, interval) stream remembers
//! the open time of its last candle, and a new candle whose open time strays from
//! the expected one by more than the interval's tolerance is reported as a gap.

use vstd::prelude::*;
use vstd::string::*;
use crate::runtime::utc_now_millis;
use crate::strmap::StrMap;
use crate::text::{concat2, digits_value, owned, str_eq};

verus! {

/// An exchange that market data comes from.
#[derive(Debug, Clone, Copy, PartialEq, Eq, Structural)]
pub enum Exchange {
    Binance,
    Okx,
    Huobi,
}

/// The name of an exchange as it appears in stream keys.
pub open spec fn exchange_name(e: Exchange) -> Seq<char> {
    match e {
        Exchange::Binance => "binance"@,
        Exchange::Okx => "okx"@,
        Exchange::Huobi => "huobi"@,
    }
}

impl Exchange {
    /// The name of the exchange.
    pub fn as_str(&self) -> (s: &'static str)
        ensures
            s@ == exchange_name(*self),
    {
        match self {
            Exchange::Binance => "binance",
            Exchange::Okx => "okx",
            Exchange::Huobi => "huobi",
        }
    }
}

/// The period one candle covers.
#[derive(Debug, Clone, Copy, PartialEq, Eq, Structural)]
pub enum Interval {
    OneSecond,
    OneMinute,
    ThreeMinutes,
    FiveMinutes,
    FifteenMinutes,
    ThirtyMinutes,
    OneHour,
    TwoHours,
    FourHours,
    SixHours,
    EightHours,
    TwelveHours,
    OneDay,
    ThreeDays,
    OneWeek,
    OneMonth,
}

/// The short name of an interval, as exchanges write it.
pub open spec fn interval_name(i: Interval) -> Seq<char> {
    match i {
        Interval::OneSecond => "1s"@,
        Interval::OneMinute => "1m"@,
        Interval::ThreeMinutes => "3m"@,
        Interval::FiveMinutes => "5m"@,
        Interval::FifteenMinutes => "15m"@,
        Interval::ThirtyMinutes => "30m"@,
        Interval::OneHour => "1h"@,
        Interval::TwoHours => "2h"@,
        Interval::FourHours => "4h"@,
        Interval::SixHours => "6h"@,
        Interval::EightHours => "8h"@,
        Interval::TwelveHours => "12h"@,
        Interval::OneDay => "1d"@,
        Interval::ThreeDays => "3d"@,
        Interval::OneWeek => "1w"@,
        Interval::OneMonth => "1M"@,
    }
}

/// The length of an interval in milliseconds; a month counts as thirty days.
pub open spec fn interval_ms(i: Interval) -> int {
    match i {
        Interval::OneSecond => 1_000,
        Interval::OneMinute => 60_000,
        Interval::ThreeMinutes => 180_000,
        Interval::FiveMinutes => 300_000,
        Interval::FifteenMinutes => 900_000,
        Interval::ThirtyMinutes => 1_800_000,
        Interval::OneHour => 3_600_000,
        Interval::TwoHours => 7_200_000,
        Interval::FourHours => 14_400_000,
        Interval::SixHours => 21_600_000,
        Interval::EightHours => 28_800_000,
        Interval::TwelveHours => 43_200_000,
        Interval::OneDay => 86_400_000,
        Interval::ThreeDays => 259_200_000,
        Interval::OneWeek => 604_800_000,
        Interval::OneMonth => 2_592_000_000,
    }
}

/// How far, in milliseconds, a candle may arrive from its expected open time
/// without counting as a gap.
pub open spec fn tolerance_ms(i: Interval) -> int {
    match i {
        Interval::OneSecond => 2_000,
        Interval::OneMinute => 5_000,
        Interval::ThreeMinutes => 8_000,
        Interval::FiveMinutes => 10_000,
        Interval::FifteenMinutes => 15_000,
        Interval::ThirtyMinutes => 20_000,
        Interval::OneHour => 30_000,
        Interval::TwoHours => 60_000,
        Interval::FourHours => 90_000,
        Interval::SixHours => 120_000,
        Interval::EightHours => 120_000,
        Interval::TwelveHours => 180_000,
        Interval::OneDay => 300_000,
        Interval::ThreeDays => 600_000,
        Interval::OneWeek => 1_800_000,
        Interval::OneMonth => 3_600_000,
    }
}

impl Interval {
    /// The short name of the interval.
    pub fn as_str(&self) -> (s: &'static str)
        ensures
            s@ == interval_name(*self),
    {
        match self {
            Interval::OneSecond => "1s",
            Interval::OneMinute => "1m",
            Interval::ThreeMinutes => "3m",
            Interval::FiveMinutes => "5m",
            Interval::FifteenMinutes => "15m",
            Interval::ThirtyMinutes => "30m",
            Interval::OneHour => "1h",
            Interval::TwoHours => "2h",
            Interval::FourHours => "4h",
            Interval::SixHours => "6h",
            Interval::EightHours => "8h",
            Interval::TwelveHours => "12h",
            Interval::OneDay => "1d",
            Interval::ThreeDays => "3d",
            Interval::OneWeek => "1w",
            Interval::OneMonth => "1M",
        }
    }
}

/// The interval named by its short form; any other text stands for one minute.
pub open spec fn interval_of(name: Seq<char>) -> Interval {
    if name == "1s"@ {
        Interval::OneSecond
    } else if name == "1m"@ {
        Interval::OneMinute
    } else if name == "3m"@ {
        Interval::ThreeMinutes
    } else if name == "5m"@ {
        Interval::FiveMinutes
    } else if name == "15m"@ {
        Interval::FifteenMinutes
    } else if name == "30m"@ {
        Interval::ThirtyMinutes
    } else if name == "1h"@ {
        Interval::OneHour
    } else if name == "2h"@ {
        Interval::TwoHours
    } else if name == "4h"@ {
        Interval::FourHours
    } else if name == "6h"@ {
        Interval::SixHours
    } else if name == "8h"@ {
        Interval::EightHours
    } else if name == "12h"@ {
        Interval::TwelveHours
    } else if name == "1d"@ {
        Interval::OneDay
    } else if name == "3d"@ {
        Interval::ThreeDays
    } else if name == "1w"@ {
        Interval::OneWeek
    } else if name == "1M"@ {
        Interval::OneMonth
    } else {
        Interval::OneMinute
    }
}

/// Reads an interval from its short form, one minute when it is not one.
pub fn parse_interval(interval_str: &str) -> (i: Interval)
    ensures
        i == interval_of(interval_str@),
{
    if str_eq(interval_str, "1s") {
        Interval::OneSecond
    } else if str_eq(interval_str, "1m") {
        Interval::OneMinute
    } else if str_eq(interval_str, "3m") {
        Interval::ThreeMinutes
    } else if str_eq(interval_str, "5m") {
        Interval::FiveMinutes
    } else if str_eq(interval_str, "15m") {
        Interval::FifteenMinutes
    } else if str_eq(interval_str, "30m") {
        Interval::ThirtyMinutes
    } else if str_eq(interval_str, "1h") {
        Interval::OneHour
    } else if str_eq(interval_str, "2h") {
        Interval::TwoHours
    } else if str_eq(interval_str, "4h") {
        Interval::FourHours
    } else if str_eq(interval_str, "6h") {
        Interval::SixHours
    } else if str_eq(interval_str, "8h") {
        Interval::EightHours
    } else if str_eq(interval_str, "12h") {
        Interval::TwelveHours
    } else if str_eq(interval_str, "1d") {
        Interval::OneDay
    } else if str_eq(interval_str, "3d") {
        Interval::ThreeDays
    } else if str_eq(interval_str, "1w") {
        Interval::OneWeek
    } else if str_eq(interval_str, "1M") {
        Interval::OneMonth
    } else {
        Interval::OneMinute
    }
}

/// The milliseconds in one unit of an interval name: a second (`s`), a minute (`m`),
/// an hour (`h`), a day (`d`), a week (`w`) or a month of thirty days (`M`).
pub open spec fn unit_ms(u: char) -> int {
    if u == 's' {
        1000
    } else if u == 'm' {
        60int * 1000
    } else if u == 'h' {
        60int * 60 * 1000
    } else if u == 'd' {
        24int * 60 * 60 * 1000
    } else if u == 'w' {
        7int * 24 * 60 * 60 * 1000
    } else if u == 'M' {
        30int * 24 * 60 * 60 * 1000
    } else {
        0
    }
}

/// A product of two values known to be given numbers is their product.
proof fn lemma_product_of_known(a: int, b: int, x: int, y: int)
    requires
        a == x,
        b == y,
    ensures
        a * b == x * y,
{
}

/// An interval lasts as long as its name says: the count written before the unit
/// letter, times the length of that unit (so a day is twenty-four hours, a week
/// seven days).
pub proof fn law_interval_length_matches_name(i: Interval)
    ensures
        interval_ms(i) == digits_value(interval_name(i).drop_last()) * unit_ms(interval_name(i).last()),
        interval_ms(i) > 0,
{
    reveal_with_fuel(digits_value, 3);
    match i {
        Interval::OneSecond => {
            reveal_strlit("1s");
            assert("1s"@.drop_last() =~= seq!['1']);
            lemma_product_of_known(digits_value(interval_name(i).drop_last()), unit_ms(interval_name(i).last()), 1, 1000);
            assert(interval_ms(i) == digits_value(interval_name(i).drop_last()) * unit_ms(interval_name(i).last()));
        },
        Interval::OneMinute => {
            reveal_strlit("1m");
            assert("1m"@.drop_last() =~= seq!['1']);
            lemma_product_of_known(digits_value(interval_name(i).drop_last()), unit_ms(interval_name(i).last()), 1, 60000);
            assert(interval_ms(i) == digits_value(interval_name(i).drop_last()) * unit_ms(interval_name(i).last()));
        },
        Interval::ThreeMinutes => {
            reveal_strlit("3m");
            assert("3m"@.drop_last() =~= seq!['3']);
            lemma_product_of_known(digits_value(interval_name(i).drop_last()), unit_ms(interval_name(i).last()), 3, 60000);
            assert(interval_ms(i) == digits_value(interval_name(i).drop_last()) * unit_ms(interval_name(i).last()));
        },
        Interval::FiveMinutes => {
            reveal_strlit("5m");
            assert("5m"@.drop_last() =~= seq!['5']);
            lemma_product_of_known(digits_value(interval_name(i).drop_last()), unit_ms(interval_name(i).last()), 5, 60000);
            assert(interval_ms(i) == digits_value(interval_name(i).drop_last()) * unit_ms(interval_name(i).last()));
        },
        Interval::FifteenMinutes => {
            reveal_strlit("15m");
            assert("15m"@.drop_last() =~= seq!['1', '5']);
            assert(seq!['1', '5'].drop_last() =~= seq!['1']);
            lemma_product_of_known(digits_value(interval_name(i).drop_last()), unit_ms(interval_name(i).last()), 15, 60000);
            assert(interval_ms(i) == digits_value(interval_name(i).drop_last()) * unit_ms(interval_name(i).last()));
        },
        Interval::ThirtyMinutes => {
            reveal_strlit("30m");
            assert("30m"@.drop_last() =~= seq!['3', '0']);
            assert(seq!['3', '0'].drop_last() =~= seq!['3']);
            lemma_product_of_known(digits_value(interval_name(i).drop_last()), unit_ms(interval_name(i).last()), 30, 60000);
            assert(interval_ms(i) == digits_value(interval_name(i).drop_last()) * unit_ms(interval_name(i).last()));
        },
        Interval::OneHour => {
            reveal_strlit("1h");
            assert("1h"@.drop_last() =~= seq!['1']);
            lemma_product_of_known(digits_value(interval_name(i).drop_last()), unit_ms(interval_name(i).last()), 1, 3600000);
            assert(interval_ms(i) == digits_value(interval_name(i).drop_last()) * unit_ms(interval_name(i).last()));
        },
        Interval::TwoHours => {
            reveal_strlit("2h");
            assert("2h"@.drop_last() =~= seq!['2']);
            lemma_product_of_known(digits_value(interval_name(i).drop_last()), unit_ms(interval_name(i).last()), 2, 3600000);
            assert(interval_ms(i) == digits_value(interval_name(i).drop_last()) * unit_ms(interval_name(i).last()));
        },
        Interval::FourHours => {
            reveal_strlit("4h");
            assert("4h"@.drop_last() =~= seq!['4']);
            lemma_product_of_known(digits_value(interval_name(i).drop_last()), unit_ms(interval_name(i).last()), 4, 3600000);
            assert(interval_ms(i) == digits_value(interval_name(i).drop_last()) * unit_ms(interval_name(i).last()));
        },
        Interval::SixHours => {
            reveal_strlit("6h");
            assert("6h"@.drop_last() =~= seq!['6']);
            lemma_product_of_known(digits_value(interval_name(i).drop_last()), unit_ms(interval_name(i).last()), 6, 3600000);
            assert(interval_ms(i) == digits_value(interval_name(i).drop_last()) * unit_ms(interval_name(i).last()));
        },
        Interval::EightHours => {
            reveal_strlit("8h");
            assert("8h"@.drop_last() =~= seq!['8']);
            lemma_product_of_known(digits_value(interval_name(i).drop_last()), unit_ms(interval_name(i).last()), 8, 3600000);
            assert(interval_ms(i) == digits_value(interval_name(i).drop_last()) * unit_ms(interval_name(i).last()));
        },
        Interval::TwelveHours => {
            reveal_strlit("12h");
            assert("12h"@.drop_last() =~= seq!['1', '2']);
            assert(seq!['1', '2'].drop_last() =~= seq!['1']);
            lemma_product_of_known(digits_value(interval_name(i).drop_last()), unit_ms(interval_name(i).last()), 12, 3600000);
            assert(interval_ms(i) == digits_value(interval_name(i).drop_last()) * unit_ms(interval_name(i).last()));
        },
        Interval::OneDay => {
            reveal_strlit("1d");
            assert("1d"@.drop_last() =~= seq!['1']);
            lemma_product_of_known(digits_value(interval_name(i).drop_last()), unit_ms(interval_name(i).last()), 1, 86400000);
            assert(interval_ms(i) == digits_value(interval_name(i).drop_last()) * unit_ms(interval_name(i).last()));
        },
        Interval::ThreeDays => {
            reveal_strlit("3d");
            assert("3d"@.drop_last() =~= seq!['3']);
            lemma_product_of_known(digits_value(interval_name(i).drop_last()), unit_ms(interval_name(i).last()), 3, 86400000);
            assert(interval_ms(i) == digits_value(interval_name(i).drop_last()) * unit_ms(interval_name(i).last()));
        },
        Interval::OneWeek => {
            reveal_strlit("1w");
            assert("1w"@.drop_last() =~= seq!['1']);
            lemma_product_of_known(digits_value(interval_name(i).drop_last()), unit_ms(interval_name(i).last()), 1, 604800000);
            assert(interval_ms(i) == digits_value(interval_name(i).drop_last()) * unit_ms(interval_name(i).last()));
        },
        Interval::OneMonth => {
            reveal_strlit("1M");
            assert("1M"@.drop_last() =~= seq!['1']);
            lemma_product_of_known(digits_value(interval_name(i).drop_last()), unit_ms(interval_name(i).last()), 1, 2592000000);
            assert(interval_ms(i) == digits_value(interval_name(i).drop_last()) * unit_ms(interval_name(i).last()));
        },
    }
}


/// Reading back the short name of an interval gives the interval again.
pub proof fn law_interval_name_round_trip(i: Interval)
    ensures
        interval_of(interval_name(i)) == i,
{
    reveal_strlit("1s");
    reveal_strlit("1m");
    reveal_strlit("3m");
    reveal_strlit("5m");
    reveal_strlit("15m");
    reveal_strlit("30m");
    reveal_strlit("1h");
    reveal_strlit("2h");
    reveal_strlit("4h");
    reveal_strlit("6h");
    reveal_strlit("8h");
    reveal_strlit("12h");
    reveal_strlit("1d");
    reveal_strlit("3d");
    reveal_strlit("1w");
    reveal_strlit("1M");
    match i {
        Interval::OneSecond => {

        },
        Interval::OneMinute => {
            assert("1m"@[1] != "1s"@[1]);
        },
        Interval::ThreeMinutes => {
            assert("3m"@[0] != "1s"@[0]);
            assert("3m"@[0] != "1m"@[0]);
        },
        Interval::FiveMinutes => {
            assert("5m"@[0] != "1s"@[0]);
            assert("5m"@[0] != "1m"@[0]);
            assert("5m"@[0] != "3m"@[0]);
        },
        Interval::FifteenMinutes => {
            assert("15m"@.len() != "1s"@.len());
            assert("15m"@.len() != "1m"@.len());
            assert("15m"@.len() != "3m"@.len());
            assert("15m"@.len() != "5m"@.len());
        },
        Interval::ThirtyMinutes => {
            assert("30m"@.len() != "1s"@.len());
            assert("30m"@.len() != "1m"@.len());
            assert("30m"@.len() != "3m"@.len());
            assert("30m"@.len() != "5m"@.len());
            assert("30m"@[0] != "15m"@[0]);
        },
        Interval::OneHour => {
            assert("1h"@[1] != "1s"@[1]);
            assert("1h"@[1] != "1m"@[1]);
            assert("1h"@[0] != "3m"@[0]);
            assert("1h"@[0] != "5m"@[0]);
            assert("1h"@.len() != "15m"@.len());
            assert("1h"@.len() != "30m"@.len());
        },
        Interval::TwoHours => {
            assert("2h"@[0] != "1s"@[0]);
            assert("2h"@[0] != "1m"@[0]);
            assert("2h"@[0] != "3m"@[0]);
            assert("2h"@[0] != "5m"@[0]);
            assert("2h"@.len() != "15m"@.len());
            assert("2h"@.len() != "30m"@.len());
            assert("2h"@[0] != "1h"@[0]);
        },
        Interval::FourHours => {
            assert("4h"@[0] != "1s"@[0]);
            assert("4h"@[0] != "1m"@[0]);
            assert("4h"@[0] != "3m"@[0]);
            assert("4h"@[0] != "5m"@[0]);
            assert("4h"@.len() != "15m"@.len());
            assert("4h"@.len() != "30m"@.len());
            assert("4h"@[0] != "1h"@[0]);
            assert("4h"@[0] != "2h"@[0]);
        },
        Interval::SixHours => {
            assert("6h"@[0] != "1s"@[0]);
            assert("6h"@[0] != "1m"@[0]);
            assert("6h"@[0] != "3m"@[0]);
            assert("6h"@[0] != "5m"@[0]);
            assert("6h"@.len() != "15m"@.len());
            assert("6h"@.len() != "30m"@.len());
            assert("6h"@[0] != "1h"@[0]);
            assert("6h"@[0] != "2h"@[0]);
            assert("6h"@[0] != "4h"@[0]);
        },
        Interval::EightHours => {
            assert("8h"@[0] != "1s"@[0]);
            assert("8h"@[0] != "1m"@[0]);
            assert("8h"@[0] != "3m"@[0]);
            assert("8h"@[0] != "5m"@[0]);
            assert("8h"@.len() != "15m"@.len());
            assert("8h"@.len() != "30m"@.len());
            assert("8h"@[0] != "1h"@[0]);
            assert("8h"@[0] != "2h"@[0]);
            assert("8h"@[0] != "4h"@[0]);
            assert("8h"@[0] != "6h"@[0]);
        },
        Interval::TwelveHours => {
            assert("12h"@.len() != "1s"@.len());
            assert("12h"@.len() != "1m"@.len());
            assert("12h"@.len() != "3m"@.len());
            assert("12h"@.len() != "5m"@.len());
            assert("12h"@[1] != "15m"@[1]);
            assert("12h"@[0] != "30m"@[0]);
            assert("12h"@.len() != "1h"@.len());
            assert("12h"@.len() != "2h"@.len());
            assert("12h"@.len() != "4h"@.len());
            assert("12h"@.len() != "6h"@.len());
            assert("12h"@.len() != "8h"@.len());
        },
        Interval::OneDay => {
            assert("1d"@[1] != "1s"@[1]);
            assert("1d"@[1] != "1m"@[1]);
            assert("1d"@[0] != "3m"@[0]);
            assert("1d"@[0] != "5m"@[0]);
            assert("1d"@.len() != "15m"@.len());
            assert("1d"@.len() != "30m"@.len());
            assert("1d"@[1] != "1h"@[1]);
            assert("1d"@[0] != "2h"@[0]);
            assert("1d"@[0] != "4h"@[0]);
            assert("1d"@[0] != "6h"@[0]);
            assert("1d"@[0] != "8h"@[0]);
            assert("1d"@.len() != "12h"@.len());
        },
        Interval::ThreeDays => {
            assert("3d"@[0] != "1s"@[0]);
            assert("3d"@[0] != "1m"@[0]);
            assert("3d"@[1] != "3m"@[1]);
            assert("3d"@[0] != "5m"@[0]);
            assert("3d"@.len() != "15m"@.len());
            assert("3d"@.len() != "30m"@.len());
            assert("3d"@[0] != "1h"@[0]);
            assert("3d"@[0] != "2h"@[0]);
            assert("3d"@[0] != "4h"@[0]);
            assert("3d"@[0] != "6h"@[0]);
            assert("3d"@[0] != "8h"@[0]);
            assert("3d"@.len() != "12h"@.len());
            assert("3d"@[0] != "1d"@[0]);
        },
        Interval::OneWeek => {
            assert("1w"@[1] != "1s"@[1]);
            assert("1w"@[1] != "1m"@[1]);
            assert("1w"@[0] != "3m"@[0]);
            assert("1w"@[0] != "5m"@[0]);
            assert("1w"@.len() != "15m"@.len());
            assert("1w"@.len() != "30m"@.len());
            assert("1w"@[1] != "1h"@[1]);
            assert("1w"@[0] != "2h"@[0]);
            assert("1w"@[0] != "4h"@[0]);
            assert("1w"@[0] != "6h"@[0]);
            assert("1w"@[0] != "8h"@[0]);
            assert("1w"@.len() != "12h"@.len());
            assert("1w"@[1] != "1d"@[1]);
            assert("1w"@[0] != "3d"@[0]);
        },
        Interval::OneMonth => {
            assert("1M"@[1] != "1s"@[1]);
            assert("1M"@[1] != "1m"@[1]);
            assert("1M"@[0] != "3m"@[0]);
            assert("1M"@[0] != "5m"@[0]);
            assert("1M"@.len() != "15m"@.len());
            assert("1M"@.len() != "30m"@.len());
            assert("1M"@[1] != "1h"@[1]);
            assert("1M"@[0] != "2h"@[0]);
            assert("1M"@[0] != "4h"@[0]);
            assert("1M"@[0] != "6h"@[0]);
            assert("1M"@[0] != "8h"@[0]);
            assert("1M"@.len() != "12h"@.len());
            assert("1M"@[1] != "1d"@[1]);
            assert("1M"@[0] != "3d"@[0]);
            assert("1M"@[1] != "1w"@[1]);
        },
    }
}

/// The interval's length in milliseconds.
pub fn get_interval_milliseconds(interval: Interval) -> (ms: i64)
    ensures
        ms == interval_ms(interval),
{
    match interval {
        Interval::OneSecond => 1_000,
        Interval::OneMinute => 60_000,
        Interval::ThreeMinutes => 180_000,
        Interval::FiveMinutes => 300_000,
        Interval::FifteenMinutes => 900_000,
        Interval::ThirtyMinutes => 1_800_000,
        Interval::OneHour => 3_600_000,
        Interval::TwoHours => 7_200_000,
        Interval::FourHours => 14_400_000,
        Interval::SixHours => 21_600_000,
        Interval::EightHours => 28_800_000,
        Interval::TwelveHours => 43_200_000,
        Interval::OneDay => 86_400_000,
        Interval::ThreeDays => 259_200_000,
        Interval::OneWeek => 604_800_000,
        Interval::OneMonth => 2_592_000_000,
    }
}

/// The interval's tolerance in milliseconds.
pub fn get_tolerance_milliseconds(interval: Interval) -> (ms: i64)
    ensures
        ms == tolerance_ms(interval),
{
    match interval {
        Interval::OneSecond => 2_000,
        Interval::OneMinute => 5_000,
        Interval::ThreeMinutes => 8_000,
        Interval::FiveMinutes => 10_000,
        Interval::FifteenMinutes => 15_000,
        Interval::ThirtyMinutes => 20_000,
        Interval::OneHour => 30_000,
        Interval::TwoHours => 60_000,
        Interval::FourHours => 90_000,
        Interval::SixHours => 120_000,
        Interval::EightHours => 120_000,
        Interval::TwelveHours => 180_000,
        Interval::OneDay => 300_000,
        Interval::ThreeDays => 600_000,
        Interval::OneWeek => 1_800_000,
        Interval::OneMonth => 3_600_000,
    }
}

/// How trustworthy a candle is.
#[derive(Debug, Clone, Copy, PartialEq, Eq, Structural)]
pub enum DataQuality {
    /// Arrived where it was expected.
    Normal,
    /// First candle after a gap.
    Suspect,
}

/// What a continuity check found.
#[derive(Debug, Clone, Copy, PartialEq, Eq, Structural)]
pub struct ContinuityCheckResult {
    pub has_gap: bool,
    /// How far the candle is from its expected open time, when that is a gap:
    /// positive when late, negative when early.
    pub gap_duration_ms: Option<i64>,
    pub expected_next_time: Option<i64>,
    pub actual_time: i64,
    pub data_quality: DataQuality,
}

/// Whether checking a candle of `open_time` after one of `last` stays within `i64`:
/// the expected open time, the gap and the gap's magnitude must fit (beyond them the
/// `i64` arithmetic of the check overflows).
pub open spec fn check_fits(last: Option<i64>, interval: Interval, open_time: i64) -> bool {
    match last {
        None => true,
        Some(prev) => {
            let expected = prev + interval_ms(interval);
            &&& expected <= i64::MAX
            &&& i64::MIN < open_time - expected <= i64::MAX
        },
    }
}

/// The absolute value of an integer.
pub open spec fn abs(x: int) -> int {
    if x < 0 { -x } else { x }
}

/// The verdict on a candle opening at `open_time`, given the open time of the
/// previous candle of its stream, if there was one.
pub open spec fn continuity_outcome(
    last: Option<i64>,
    interval: Interval,
    open_time: i64,
) -> ContinuityCheckResult {
    match last {
        None => ContinuityCheckResult {
            has_gap: false,
            gap_duration_ms: None,
            expected_next_time: None,
            actual_time: open_time,
            data_quality: DataQuality::Normal,
        },
        Some(prev) => {
            let expected = prev + interval_ms(interval);
            let gap = open_time - expected;
            let has_gap = abs(gap) > tolerance_ms(interval);
            ContinuityCheckResult {
                has_gap,
                gap_duration_ms: if has_gap { Some(gap as i64) } else { None },
                expected_next_time: Some(expected as i64),
                actual_time: open_time,
                data_quality: if has_gap { DataQuality::Suspect } else { DataQuality::Normal },
            }
        },
    }
}

/// The key of a stream: `exchange:symbol:interval`.
pub open spec fn stream_key(exchange: Exchange, symbol: Seq<char>, interval: Interval) -> Seq<char> {
    exchange_name(exchange) + ":"@ + symbol + ":"@ + interval_name(interval)
}

/// Counters of the checks made.
#[derive(Debug, Clone, Copy, PartialEq, Eq, Structural)]
pub struct ContinuityStats {
    pub total_checks: u64,
    pub gaps_detected: u64,
    /// When the last check ran, in milliseconds since the epoch.
    pub last_check_time: Option<i64>,
}

impl Default for ContinuityStats {
    fn default() -> (r: Self)
        ensures
            r.total_checks == 0,
            r.gaps_detected == 0,
            r.last_check_time is None,
    {
        ContinuityStats { total_checks: 0, gaps_detected: 0, last_check_time: None }
    }
}

/// Tracks the last open time of each candle stream and counts the checks.
pub struct KlineContinuityDetector {
    last_open_times: StrMap<i64>,
    stats: ContinuityStats,
}

impl KlineContinuityDetector {
    /// The last open time of each stream, by key.
    pub closed spec fn last_times(&self) -> Map<Seq<char>, i64> {
        self.last_open_times@
    }

    /// The counters.
    pub closed spec fn statistics(&self) -> ContinuityStats {
        self.stats
    }

    /// The detector's invariant: its map is well formed, and no more gaps than checks
    /// were counted.
    pub closed spec fn wf(&self) -> bool {
        &&& self.last_open_times.wf()
        &&& self.stats.gaps_detected <= self.stats.total_checks
    }

    /// A detector that has seen nothing.
    pub fn new() -> (d: Self)
        ensures
            d.wf(),
            d.last_times() == Map::<Seq<char>, i64>::empty(),
            d.statistics() == (ContinuityStats { total_checks: 0, gaps_detected: 0, last_check_time: None }),
    {
        KlineContinuityDetector { last_open_times: StrMap::new(), stats: ContinuityStats::default() }
    }

    /// The open time of the last candle checked on a stream, if any.
    pub fn last_open_time(&self, exchange: Exchange, symbol: &str, interval: Interval) -> (r: Option<i64>)
        requires
            self.wf(),
        ensures
            r == self.last_times().get(stream_key(exchange, symbol@, interval)),
    {
        let mut key = concat2(exchange.as_str(), ":");
        key.append(symbol);
        key.append(":");
        key.append(interval.as_str());
        assert(key@ =~= stream_key(exchange, symbol@, interval));
        proof {
            self.last_open_times.lemma_view();
        }
        match self.last_open_times.get(key.as_str()) {
            Some(t) => Some(*t),
            None => None,
        }
    }

    /// Checks a candle against its stream at the given time of day, in milliseconds
    /// since the epoch: returns the verdict of `continuity_outcome`, records the
    /// candle's open time as its stream's last, and counts the check and any gap.
    pub fn check_continuity_at(
        &mut self,
        exchange: Exchange,
        symbol: &str,
        interval: Interval,
        open_time: i64,
        now_ms: i64,
    ) -> (r: ContinuityCheckResult)
        requires
            old(self).wf(),
            check_fits(old(self).last_times().get(stream_key(exchange, symbol@, interval)), interval, open_time),
            old(self).statistics().total_checks < u64::MAX,
        ensures
            final(self).wf(),
            r == continuity_outcome(
                old(self).last_times().get(stream_key(exchange, symbol@, interval)),
                interval,
                open_time,
            ),
            final(self).last_times() == old(self).last_times().insert(
                stream_key(exchange, symbol@, interval),
                open_time,
            ),
            final(self).statistics().total_checks == old(self).statistics().total_checks + 1,
            final(self).statistics().gaps_detected == old(self).statistics().gaps_detected + (
            if r.has_gap {
                1int
            } else {
                0int
            }),
            final(self).statistics().last_check_time == Some(now_ms),
    {
        let mut key = concat2(exchange.as_str(), ":");
        key.append(symbol);
        key.append(":");
        key.append(interval.as_str());
        let ghost k = stream_key(exchange, symbol@, interval);
        assert(key@ =~= k);
        proof {
            self.last_open_times.lemma_view();
        }
        let mut result = ContinuityCheckResult {
            has_gap: false,
            gap_duration_ms: None,
            expected_next_time: None,
            actual_time: open_time,
            data_quality: DataQuality::Normal,
        };
        match self.last_open_times.get(key.as_str()) {
            Some(last) => {
                let last_open_time = *last;
                let interval_ms = get_interval_milliseconds(interval);
                let expected_next_time = last_open_time + interval_ms;
                result.expected_next_time = Some(expected_next_time);
                let gap_ms = open_time - expected_next_time;
                let tolerance = get_tolerance_milliseconds(interval);
                let magnitude = if gap_ms < 0 { -gap_ms } else { gap_ms };
                if magnitude > tolerance {
                    result.has_gap = true;
                    result.gap_duration_ms = Some(gap_ms);
                    result.data_quality = DataQuality::Suspect;
                    self.stats.gaps_detected = self.stats.gaps_detected + 1;
                }
            },
            None => {},
        }
        self.last_open_times.insert(key, open_time);
        self.stats.total_checks = self.stats.total_checks + 1;
        self.stats.last_check_time = Some(now_ms);
        result
    }

    /// Checks a candle against its stream now: `check_continuity_at` with the
    /// current UTC time.
    pub fn check_continuity(
        &mut self,
        exchange: Exchange,
        symbol: &str,
        interval: Interval,
        open_time: i64,
    ) -> (r: ContinuityCheckResult)
        requires
            old(self).wf(),
            check_fits(old(self).last_times().get(stream_key(exchange, symbol@, interval)), interval, open_time),
            old(self).statistics().total_checks < u64::MAX,
        ensures
            final(self).wf(),
            r == continuity_outcome(
                old(self).last_times().get(stream_key(exchange, symbol@, interval)),
                interval,
                open_time,
            ),
            final(self).last_times() == old(self).last_times().insert(
                stream_key(exchange, symbol@, interval),
                open_time,
            ),
            final(self).statistics().total_checks == old(self).statistics().total_checks + 1,
            final(self).statistics().gaps_detected == old(self).statistics().gaps_detected + (
            if r.has_gap {
                1int
            } else {
                0int
            }),
            final(self).statistics().last_check_time is Some,
    {
        let now = utc_now_millis();
        self.check_continuity_at(exchange, symbol, interval, open_time, now)
    }

    /// The counters.
    pub fn get_stats(&self) -> (s: ContinuityStats)
        ensures
            s == self.statistics(),
    {
        self.stats
    }

    /// The number of streams seen so far.
    pub fn get_tracked_pairs_count(&self) -> (n: usize)
        requires
            self.wf(),
        ensures
            n == self.last_times().dom().len(),
    {
        self.last_open_times.len()
    }
}

impl Default for KlineContinuityDetector {
    fn default() -> (d: Self)
        ensures
            d.wf(),
            d.last_times() == Map::<Seq<char>, i64>::empty(),
            d.statistics() == (ContinuityStats { total_checks: 0, gaps_detected: 0, last_check_time: None }),
    {
        KlineContinuityDetector::new()
    }
}

/// The first candle of a stream is never a gap and has no expected time.
pub proof fn law_first_candle_no_gap(interval: Interval, open_time: i64)
    ensures
        !continuity_outcome(None, interval, open_time).has_gap,
        continuity_outcome(None, interval, open_time).expected_next_time is None,
        continuity_outcome(None, interval, open_time).data_quality == DataQuality::Normal,
{
}

/// A candle that opens exactly one interval after the previous one is expected
/// there and is no gap.
pub proof fn law_next_candle_on_time(interval: Interval, prev: i64)
    requires
        prev + interval_ms(interval) <= i64::MAX,
    ensures
        ({
            let next = (prev + interval_ms(interval)) as i64;
            let r = continuity_outcome(Some(prev), interval, next);
            &&& !r.has_gap
            &&& r.expected_next_time == Some(next)
            &&& r.data_quality == DataQuality::Normal
        }),
{
}

/// A candle after a previous one is a gap exactly when it strays from the expected
/// open time by more than the tolerance; a gap reports that distance, late
/// positive and early negative, and marks the candle suspect.
pub proof fn law_gap_iff_beyond_tolerance(interval: Interval, prev: i64, open_time: i64)
    requires
        check_fits(Some(prev), interval, open_time),
    ensures
        ({
            let r = continuity_outcome(Some(prev), interval, open_time);
            let gap = open_time - (prev + interval_ms(interval));
            &&& r.has_gap <==> abs(gap) > tolerance_ms(interval)
            &&& r.has_gap ==> r.gap_duration_ms == Some(gap as i64) && r.data_quality
                == DataQuality::Suspect
            &&& !r.has_gap ==> r.gap_duration_ms is None && r.data_quality == DataQuality::Normal
            &&& r.actual_time == open_time
        }),
{
}

/// A check touches only its own stream: the last open times of every other
/// stream stay as they were.
pub proof fn law_streams_independent(
    before: Map<Seq<char>, i64>,
    key: Seq<char>,
    open_time: i64,
    other: Seq<char>,
)
    requires
        other != key,
    ensures
        before.insert(key, open_time).get(other) == before.get(other),
{
}

/// What `serde_json` reads of a JSON text at a nested member: `None` when the text
/// is not JSON; `Some(None)` when the top-level value has no member `outer`; else,
/// of that member, the member `int_key` when it is an integer that fits `i64` and
/// the member `bool_key` when it is a boolean. The JSON grammar is the crate's and is
/// not written out here.
pub uninterp spec fn json_nested_members(
    text: Seq<char>,
    outer: Seq<char>,
    int_key: Seq<char>,
    bool_key: Seq<char>,
) -> Option<Option<(Option<i64>, Option<bool>)>>;

/// `serde_json::from_str::<serde_json::Value>` on a text, then `Value::get(outer)`
/// and, on that member, `[int_key].as_i64()` and `[bool_key].as_bool()` (indexing a
/// missing member gives `Null`); the result is named by `json_nested_members`.
#[verifier::external_body]
fn parse_nested_members(text: &str, outer: &str, int_key: &str, bool_key: &str) -> (r: Option<
    Option<(Option<i64>, Option<bool>)>,
>)
    ensures
        r == json_nested_members(text@, outer@, int_key@, bool_key@),
{
    match serde_json::from_str::<serde_json::Value>(text) {
        Err(_) => None,
        Ok(v) => match v.get(outer) {
            None => Some(None),
            Some(k) => Some(Some((k[int_key].as_i64(), k[bool_key].as_bool()))),
        },
    }
}

/// What a candle message of the exchange's stream holds: its candle is the member
/// `k`, whose open time is `t` and whose closed flag is `x`.
pub open spec fn kline_json_fields(message: Seq<char>) -> Option<Option<(Option<i64>, Option<bool>)>> {
    json_nested_members(message, "k"@, "t"@, "x"@)
}

/// Reads the candle fields of a message as `kline_json_fields` says.
fn parse_kline_fields(message: &str) -> (r: Option<Option<(Option<i64>, Option<bool>)>>)
    ensures
        r == kline_json_fields(message@),
{
    parse_nested_members(message, "k", "t", "x")
}

/// The open time of a candle that is to be checked: only a closed one is (a missing
/// closed flag counts as open), and a missing open time counts as 0.
pub open spec fn closed_candle_open_time(fields: Option<(Option<i64>, Option<bool>)>) -> Option<i64> {
    match fields {
        Some((t, x)) => if x == Some(true) {
            Some(
                match t {
                    Some(v) => v,
                    None => 0i64,
                },
            )
        } else {
            None
        },
        None => None,
    }
}

/// What checking a candle of `open_time` at `now_ms` did to a detector: the verdict
/// `r` is that of `continuity_outcome`, the stream's last open time is the candle's,
/// and the check and any gap are counted.
pub open spec fn check_recorded(
    before: KlineContinuityDetector,
    after: KlineContinuityDetector,
    exchange: Exchange,
    symbol: Seq<char>,
    interval: Interval,
    open_time: i64,
    now_ms: i64,
    r: ContinuityCheckResult,
) -> bool {
    &&& after.wf()
    &&& r == continuity_outcome(before.last_times().get(stream_key(exchange, symbol, interval)), interval, open_time)
    &&& after.last_times() == before.last_times().insert(stream_key(exchange, symbol, interval), open_time)
    &&& after.statistics().total_checks == before.statistics().total_checks + 1
    &&& after.statistics().gaps_detected == before.statistics().gaps_detected + (if r.has_gap {
        1int
    } else {
        0int
    })
    &&& after.statistics().last_check_time == Some(now_ms)
}

/// Handles the fields of a candle message at `now_ms`: without a `"k"` member or for
/// a candle that is not closed nothing happens (`None`); a closed candle is checked
/// for continuity on its stream and the verdict returned.
pub fn process_kline_fields(
    detector: &mut KlineContinuityDetector,
    fields: Option<(Option<i64>, Option<bool>)>,
    exchange: Exchange,
    symbol: &str,
    interval: Interval,
    now_ms: i64,
) -> (r: Option<ContinuityCheckResult>)
    requires
        old(detector).wf(),
        old(detector).statistics().total_checks < u64::MAX,
        closed_candle_open_time(fields) matches Some(t) ==> check_fits(
            old(detector).last_times().get(stream_key(exchange, symbol@, interval)),
            interval,
            t,
        ),
    ensures
        match closed_candle_open_time(fields) {
            None => r is None && *final(detector) == *old(detector),
            Some(t) => r matches Some(c) && check_recorded(
                *old(detector),
                *final(detector),
                exchange,
                symbol@,
                interval,
                t,
                now_ms,
                c,
            ),
        },
{
    match fields {
        Some((t, x)) => {
            let closed = match x {
                Some(b) => b,
                None => false,
            };
            if !closed {
                return None;
            }
            let open_time = match t {
                Some(v) => v,
                None => 0,
            };
            Some(detector.check_continuity_at(exchange, symbol, interval, open_time, now_ms))
        },
        None => None,
    }
}

/// Handles one candle message of a stream at `now_ms`: a text that is not JSON is an
/// error; a message without a candle, or with one that is not closed, is passed over
/// (`Ok(None)`); a closed candle whose check would overflow `i64` (the expected
/// open time, the gap or its magnitude out of range) is an error; any other is
/// checked for continuity and its verdict returned. The detector changes only in the
/// last case.
pub fn process_kline_message(
    detector: &mut KlineContinuityDetector,
    message: &str,
    exchange: Exchange,
    symbol: &str,
    interval: Interval,
    now_ms: i64,
) -> (r: Result<Option<ContinuityCheckResult>, &'static str>)
    requires
        old(detector).wf(),
        old(detector).statistics().total_checks < u64::MAX,
    ensures
        match kline_json_fields(message@) {
            None => (r matches Err(e) && e@ == "invalid candle message"@) && *final(detector) == *old(
                detector,
            ),
            Some(f) => match closed_candle_open_time(f) {
                None => r == Ok::<Option<ContinuityCheckResult>, &'static str>(None) && *final(detector)
                    == *old(detector),
                Some(t) => if check_fits(
                    old(detector).last_times().get(stream_key(exchange, symbol@, interval)),
                    interval,
                    t,
                ) {
                    r matches Ok(Some(c)) && check_recorded(
                        *old(detector),
                        *final(detector),
                        exchange,
                        symbol@,
                        interval,
                        t,
                        now_ms,
                        c,
                    )
                } else {
                    (r matches Err(e) && e@ == "open time out of range"@) && *final(detector) == *old(
                        detector,
                    )
                },
            },
        },
{
    let fields = match parse_kline_fields(message) {
        None => return Err("invalid candle message"),
        Some(f) => f,
    };
    if let Some((t, x)) = &fields {
        let closed = match x {
            Some(b) => *b,
            None => false,
        };
        let open_time: i64 = match t {
            Some(v) => *v,
            None => 0,
        };
        if closed {
            if let Some(prev) = detector.last_open_time(exchange, symbol, interval) {
                let fits = match prev.checked_add(get_interval_milliseconds(interval)) {
                    Some(expected) => match open_time.checked_sub(expected) {
                        Some(gap) => gap != i64::MIN,
                        None => false,
                    },
                    None => false,
                };
                if !fits {
                    return Err("open time out of range");
                }
            }
        }
    }
    Ok(process_kline_fields(detector, fields, exchange, symbol, interval, now_ms))
}

} // verus!
