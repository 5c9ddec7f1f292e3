//! Chart metadata: the instrument and its timeframe text, and the interval
//! of a timeframe given only by its text.

use vstd::prelude::*;

verus! {

/// The instrument a chart shows and its timeframe, as text.
#[derive(Debug, Clone)]
pub struct ChartMetadata {
    /// Instrument id.
    pub ticker_id: i32,
    /// Timeframe text, as used in queries ("1m", "1h", ...).
    timeframe_str: String,
}

impl ChartMetadata {
    /// The timeframe text (what [`ChartMetadata::timeframe`] returns).
    pub closed spec fn timeframe_text(&self) -> Seq<char> {
        self.timeframe_str@
    }

    /// The instrument id.
    pub closed spec fn ticker(&self) -> i32 {
        self.ticker_id
    }

    /// Metadata for `ticker_id` with the timeframe given as text.
    pub fn new(ticker_id: i32, timeframe: &str) -> (m: Self)
        ensures
            m.ticker() == ticker_id,
            m.timeframe_text() == timeframe@,
    {
        ChartMetadata { ticker_id, timeframe_str: String::from_str(timeframe) }
    }

    /// The timeframe text.
    pub fn timeframe(&self) -> (t: &str)
        ensures
            t@ == self.timeframe_text(),
    {
        self.timeframe_str.as_str()
    }
}

impl Default for ChartMetadata {
    /// Instrument 0 at one-minute candles.
    fn default() -> (m: Self)
        ensures
            m.ticker() == 0,
            m.timeframe_text() == "1m"@,
    {
        ChartMetadata { ticker_id: 0, timeframe_str: String::from_str("1m") }
    }
}

/// Candle interval in milliseconds of a timeframe given only by its text,
/// as used for timeframes without a typed form: "1m", "15m", "1h", "4h" and
/// "1d" have their own length; any other text counts as one hour.
pub open spec fn fallback_interval(timeframe: Seq<char>) -> int {
    if timeframe == "1m"@ {
        60_000
    } else if timeframe == "15m"@ {
        900_000
    } else if timeframe == "1h"@ {
        3_600_000
    } else if timeframe == "4h"@ {
        14_400_000
    } else if timeframe == "1d"@ {
        86_400_000
    } else {
        3_600_000
    }
}

/// The interval of a timeframe given by its text (see [`fallback_interval`]).
pub fn fallback_interval_ms(timeframe: &str) -> (ms: i64)
    ensures
        ms == fallback_interval(timeframe@),
{
    let tf = String::from_str(timeframe);
    if tf == String::from_str("1m") {
        60 * 1000
    } else if tf == String::from_str("15m") {
        15 * 60 * 1000
    } else if tf == String::from_str("1h") {
        60 * 60 * 1000
    } else if tf == String::from_str("4h") {
        4 * 60 * 60 * 1000
    } else if tf == String::from_str("1d") {
        24 * 60 * 60 * 1000
    } else {
        60 * 60 * 1000
    }
}

} // verus!
