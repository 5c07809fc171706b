//! Unix timestamps in whole seconds and spans of time.

use vstd::prelude::*;
use vstd::arithmetic::div_mod::lemma_mod_add_multiples_vanish;

verus! {

/// The smallest whole second that a `jiff::Timestamp` can hold
/// (`Timestamp::MIN.as_second()`).
pub open spec fn min_representable_second() -> int {
    -377705023201
}

/// The largest whole second that a `jiff::Timestamp` can hold
/// (`Timestamp::MAX.as_second()`).
pub open spec fn max_representable_second() -> int {
    253402207200
}

/// Whether `secs` seconds from the epoch lie in the range of `jiff::Timestamp`.
pub open spec fn representable_second(secs: int) -> bool {
    min_representable_second() <= secs <= max_representable_second()
}

/// `std::time::SystemTime::now`: the current time of this machine's clock.
/// Nothing is stated of it: it depends on the clock.
#[verifier::external_body]
fn system_clock() -> (r: std::time::SystemTime) {
    std::time::SystemTime::now()
}

/// `jiff::Timestamp::try_from` a `SystemTime`, then `Timestamp::as_second`:
/// the whole seconds of `ts` since the epoch, `None` where `ts` lies outside
/// the range of `jiff::Timestamp`. The contract states that whatever comes
/// back is the second of a `jiff::Timestamp`, which lies between
/// `Timestamp::MIN` and `Timestamp::MAX`; which second it is rests on the
/// value of `ts`, which is opaque here.
#[verifier::external_body]
fn timestamp_second_of(ts: &std::time::SystemTime) -> (r: Option<i64>)
    ensures
        r matches Some(secs) ==> representable_second(secs as int),
{
    match jiff::Timestamp::try_from(*ts) {
        Ok(t) => Some(t.as_second()),
        Err(_) => None,
    }
}

/// The current time of this machine's clock in whole seconds since the
/// epoch, where the clock lies in the range of `jiff::Timestamp`.
pub(crate) fn timestamp_now() -> (r: Option<i64>)
    ensures
        r matches Some(secs) ==> representable_second(secs as int),
{
    let clock = system_clock();
    timestamp_second_of(&clock)
}

/// The value `v` clamped into the range of `i64`.
pub open spec fn clamp_i64(v: int) -> int {
    if v > i64::MAX {
        i64::MAX as int
    } else if v < i64::MIN {
        i64::MIN as int
    } else {
        v
    }
}

/// A span of time: whole seconds plus the nanoseconds below one second.
#[derive(Clone, Copy, Debug, PartialEq, Eq, Structural)]
pub struct TimeSpan {
    secs: u64,
    subsec_nanos: u32,
}

impl TimeSpan {
    /// Whole seconds of the span.
    pub closed spec fn spec_secs(self) -> u64 {
        self.secs
    }

    /// Nanoseconds below one second.
    pub closed spec fn spec_nanos(self) -> u32 {
        self.subsec_nanos
    }

    /// The nanoseconds part stays below one second.
    pub closed spec fn wf(self) -> bool {
        self.subsec_nanos < 1_000_000_000
    }

    pub fn new(secs: u64, subsec_nanos: u32) -> (r: Self)
        requires
            subsec_nanos < 1_000_000_000,
        ensures
            r.spec_secs() == secs,
            r.spec_nanos() == subsec_nanos,
            r.wf(),
    {
        TimeSpan { secs, subsec_nanos }
    }

    pub fn from_secs(secs: u64) -> (r: Self)
        ensures
            r.spec_secs() == secs,
            r.spec_nanos() == 0,
            r.wf(),
    {
        TimeSpan { secs, subsec_nanos: 0 }
    }

    pub fn as_secs(&self) -> (r: u64)
        ensures
            r == self.spec_secs(),
    {
        self.secs
    }

    pub fn subsec_nanos(&self) -> (r: u32)
        ensures
            r == self.spec_nanos(),
    {
        self.subsec_nanos
    }

    /// Whether this span is no longer than `other`.
    pub open spec fn spec_le(self, other: TimeSpan) -> bool {
        self.spec_secs() < other.spec_secs() || (self.spec_secs() == other.spec_secs()
            && self.spec_nanos() <= other.spec_nanos())
    }

    /// Whether this span is no longer than `other`.
    pub fn le(&self, other: &TimeSpan) -> (r: bool)
        ensures
            r == self.spec_le(*other),
    {
        self.secs < other.secs || (self.secs == other.secs && self.subsec_nanos <= other.subsec_nanos)
    }
}

/// A point in time as whole seconds since the Unix epoch.
#[derive(Clone, Copy, Debug, PartialEq, Eq, Structural, Hash)]
pub struct UnixTimestampSecs(i64);

impl View for UnixTimestampSecs {
    type V = i64;

    closed spec fn view(&self) -> i64 {
        self.0
    }
}

/// The seconds that a point in time lies from the Unix epoch, as the
/// platform reports them: `Ok` after the epoch, `Err` before it.
pub type EpochOffset = Result<u64, u64>;

/// The timestamp that an offset from the epoch gives, when it fits in `i64`.
pub open spec fn timestamp_of_offset(offset: EpochOffset) -> Option<i64> {
    match offset {
        Ok(secs) => if secs <= i64::MAX {
            Some(secs as i64)
        } else {
            None
        },
        Err(secs) => if secs <= i64::MAX {
            Some((-secs) as i64)
        } else {
            None
        },
    }
}

impl UnixTimestampSecs {
    pub fn new(secs: i64) -> (r: Self)
        ensures
            r@ == secs,
    {
        UnixTimestampSecs(secs)
    }

    pub fn as_i64(self) -> (r: i64)
        ensures
            r == self@,
    {
        self.0
    }

    /// The timestamp of a point in time given by its offset from the epoch:
    /// `None` where the seconds do not fit in `i64`.
    pub fn from_epoch_offset(offset: EpochOffset) -> (r: Option<Self>)
        ensures
            r matches Some(t) ==> timestamp_of_offset(offset) == Some(t@),
            r is None <==> timestamp_of_offset(offset) is None,
    {
        match offset {
            Ok(secs) => if secs <= i64::MAX as u64 {
                Some(UnixTimestampSecs(secs as i64))
            } else {
                None
            },
            Err(secs) => if secs <= i64::MAX as u64 {
                Some(UnixTimestampSecs(-(secs as i64)))
            } else {
                None
            },
        }
    }

    pub fn saturating_add(self, duration: TimeSpan) -> (r: Self)
        ensures
            r@ == clamp_i64(self@ + duration.spec_secs()),
    {
        match self.0.checked_add_unsigned(duration.as_secs()) {
            Some(v) => UnixTimestampSecs(v),
            None => UnixTimestampSecs(i64::MAX),
        }
    }

    pub fn saturating_sub(self, duration: TimeSpan) -> (r: Self)
        ensures
            r@ == clamp_i64(self@ - duration.spec_secs()),
    {
        match self.0.checked_sub_unsigned(duration.as_secs()) {
            Some(v) => UnixTimestampSecs(v),
            None => UnixTimestampSecs(i64::MIN),
        }
    }

    pub fn checked_add(self, duration: TimeSpan) -> (r: Option<Self>)
        ensures
            r is Some <==> self@ + duration.spec_secs() <= i64::MAX,
            r matches Some(t) ==> t@ == self@ + duration.spec_secs(),
    {
        match self.0.checked_add_unsigned(duration.as_secs()) {
            Some(v) => Some(UnixTimestampSecs(v)),
            None => None,
        }
    }

    pub fn checked_sub(self, duration: TimeSpan) -> (r: Option<Self>)
        ensures
            r is Some <==> self@ - duration.spec_secs() >= i64::MIN,
            r matches Some(t) ==> t@ == self@ - duration.spec_secs(),
    {
        match self.0.checked_sub_unsigned(duration.as_secs()) {
            Some(v) => Some(UnixTimestampSecs(v)),
            None => None,
        }
    }
}

/// Why a time could not be parsed, formatted or moved.
#[derive(Clone, Copy, Debug, PartialEq, Eq, Structural)]
pub enum TimeError {
    /// The text is not a timestamp in the expected format.
    Parse,
    /// The time lies outside the range that the calendar supports.
    OutOfRange,
}

#[verifier::external_type_specification]
#[verifier::external_body]
pub struct ExTimeZone(jiff::tz::TimeZone);

/// The instant, in whole seconds since the epoch, that
/// `jiff::Timestamp::strptime` reads from `input` in the format `format`;
/// `None` where it reads none.
pub uninterp spec fn strptime_second(format: Seq<char>, input: Seq<char>) -> Option<i64>;

/// The text that `jiff::Timestamp::strftime` writes in the format `format`
/// for the instant `secs`.
pub uninterp spec fn strftime_text(format: Seq<char>, secs: i64) -> Seq<char>;

/// The format in which timestamps are read: date, time and offset.
pub open spec fn iso8601_offset_format() -> Seq<char> {
    "%FT%T%:z"@
}

/// The format in which timestamps are written: date and time in UTC.
pub open spec fn iso8601_utc_format() -> Seq<char> {
    "%FT%TZ"@
}

/// `jiff::Timestamp::strptime` in `format`, then `Timestamp::as_second`: the
/// result is the named reading of `input`.
#[verifier::external_body]
fn parse_timestamp(format: &str, input: &str) -> (r: Option<i64>)
    ensures
        r == strptime_second(format@, input@),
{
    match jiff::Timestamp::strptime(format, input) {
        Ok(t) => Some(t.as_second()),
        Err(_) => None,
    }
}

/// `jiff::Timestamp::from_second`, then `Timestamp::strftime` in `format`:
/// `from_second` refuses exactly the seconds outside the range of
/// `jiff::Timestamp`, and the text is the named writing of `secs`.
#[verifier::external_body]
fn format_timestamp(format: &str, secs: i64) -> (r: Option<String>)
    ensures
        r is Some <==> representable_second(secs as int),
        r matches Some(s) ==> s@ == strftime_text(format@, secs),
{
    match jiff::Timestamp::from_second(secs) {
        Ok(t) => Some(t.strftime(format).to_string()),
        Err(_) => None,
    }
}

/// The second at which the day that `secs` lies in begins in `zone`, as
/// `jiff::Timestamp::from_second`, `jiff::Zoned::new` and
/// `Zoned::start_of_day` compute it; `None` where jiff refuses.
pub uninterp spec fn zoned_day_start(secs: i64, zone: jiff::tz::TimeZone) -> Option<i64>;

/// The second that `secs` moved on by `days` civil days in `zone` gives, as
/// `jiff::Timestamp::from_second`, `jiff::Zoned::new` and
/// `Zoned::checked_add` compute it; `None` where jiff refuses.
pub uninterp spec fn zoned_days_later(secs: i64, zone: jiff::tz::TimeZone, days: i64) -> Option<
    i64,
>;

/// Seconds in a civil day of UTC.
pub open spec fn seconds_per_day() -> int {
    86400
}

/// The first second of the UTC day that `secs` lies in.
pub open spec fn utc_day_floor(secs: int) -> int {
    secs - secs % seconds_per_day()
}

/// The start of the UTC day that `secs` lies in, where both `secs` and that
/// start lie in the range of `jiff::Timestamp`.
pub open spec fn spec_utc_today_start(secs: int) -> Option<int> {
    if representable_second(secs) && representable_second(utc_day_floor(secs)) {
        Some(utc_day_floor(secs))
    } else {
        None
    }
}

/// `secs` moved on by one day in UTC, where both lie in the range of
/// `jiff::Timestamp`.
pub open spec fn spec_utc_day_later(secs: int) -> Option<int> {
    if representable_second(secs) && representable_second(secs + seconds_per_day()) {
        Some(secs + seconds_per_day())
    } else {
        None
    }
}

/// The start of the UTC day after the one that `secs` lies in, where `secs`
/// and `secs` moved on by one day lie in the range of `jiff::Timestamp`.
pub open spec fn spec_utc_tomorrow_start(secs: int) -> Option<int> {
    if representable_second(secs) && representable_second(secs + seconds_per_day()) {
        Some(utc_day_floor(secs) + seconds_per_day())
    } else {
        None
    }
}

/// The whole seconds of an optional second count.
pub open spec fn seconds_of(r: Option<i64>) -> Option<int> {
    match r {
        Some(s) => Some(s as int),
        None => None,
    }
}

/// The start of the day after the one that `secs` lies in, in `zone`: the
/// start of the day that `secs` moved on by one civil day lies in.
pub open spec fn zoned_next_day_start(secs: i64, zone: jiff::tz::TimeZone) -> Option<i64> {
    match zoned_days_later(secs, zone, 1) {
        Some(later) => zoned_day_start(later, zone),
        None => None,
    }
}

/// `jiff::tz::TimeZone::system`: the zone of this machine. Nothing is
/// stated of it: it depends on the environment.
#[verifier::external_body]
fn system_zone() -> (r: jiff::tz::TimeZone) {
    jiff::tz::TimeZone::system()
}

/// `jiff::tz::TimeZone::UTC`. UTC has offset zero and no transitions, so in
/// it the start of a day is the multiple of a day at or below the instant,
/// which `start_of_day` refuses where it falls below `Timestamp::MIN`, and one
/// civil day is exactly a day of seconds, which `checked_add` refuses where
/// the sum leaves the range of `jiff::Timestamp`; `from_second` refuses a
/// second outside that range.
#[verifier::external_body]
fn utc_zone() -> (r: jiff::tz::TimeZone)
    ensures
        forall|secs: i64| #[trigger]
            seconds_of(zoned_day_start(secs, r)) == spec_utc_today_start(secs as int),
        forall|secs: i64| #[trigger]
            seconds_of(zoned_days_later(secs, r, 1)) == spec_utc_day_later(secs as int),
{
    jiff::tz::TimeZone::UTC
}

/// `jiff::Timestamp::from_second`, `jiff::Zoned::new` in `zone`, then
/// `Zoned::start_of_day`, read back in seconds: the named start of the day.
/// `from_second` refuses a second outside the range of `jiff::Timestamp`,
/// and what comes back is the second of a `jiff::Timestamp`.
#[verifier::external_body]
fn start_of_day_in(secs: i64, zone: &jiff::tz::TimeZone) -> (r: Option<i64>)
    ensures
        r == zoned_day_start(secs, *zone),
        !representable_second(secs as int) ==> r is None,
        r matches Some(s) ==> representable_second(s as int),
{
    let t = match jiff::Timestamp::from_second(secs) {
        Ok(t) => t,
        Err(_) => return None,
    };
    match jiff::Zoned::new(t, zone.clone()).start_of_day() {
        Ok(z) => Some(z.timestamp().as_second()),
        Err(_) => None,
    }
}

/// `jiff::Timestamp::from_second`, `jiff::Zoned::new` in `zone`,
/// `jiff::Span::try_days`, then `Zoned::checked_add`, read back in seconds:
/// the named second `days` civil days later. `from_second` refuses a second
/// outside the range of `jiff::Timestamp`, and what comes back is the second
/// of a `jiff::Timestamp`.
#[verifier::external_body]
fn add_days_in(secs: i64, zone: &jiff::tz::TimeZone, days: i64) -> (r: Option<i64>)
    ensures
        r == zoned_days_later(secs, *zone, days),
        !representable_second(secs as int) ==> r is None,
        r matches Some(s) ==> representable_second(s as int),
{
    let t = match jiff::Timestamp::from_second(secs) {
        Ok(t) => t,
        Err(_) => return None,
    };
    let span = match jiff::Span::new().try_days(days) {
        Ok(span) => span,
        Err(_) => return None,
    };
    match jiff::Zoned::new(t, zone.clone()).checked_add(span) {
        Ok(z) => Some(z.timestamp().as_second()),
        Err(_) => None,
    }
}

/// `s` with every `Z` written as the offset `+00:00`.
pub open spec fn utc_designator_as_offset(s: Seq<char>) -> Seq<char>
    decreases s.len(),
{
    if s.len() == 0 {
        Seq::empty()
    } else {
        utc_designator_as_offset(s.drop_last()) + if s.last() == 'Z' {
            "+00:00"@
        } else {
            seq![s.last()]
        }
    }
}

/// `s` with every `Z` written as the offset `+00:00`.
pub fn replace_utc_designator(s: &str) -> (r: String)
    ensures
        r@ == utc_designator_as_offset(s@),
{
    let n = s.unicode_len();
    let mut out = String::new();
    let mut i: usize = 0;
    while i < n
        invariant
            n == s@.len(),
            i <= n,
            out@ == utc_designator_as_offset(s@.subrange(0, i as int)),
        decreases n - i,
    {
        let c = s.get_char(i);
        assert(s@.subrange(0, i + 1).drop_last() =~= s@.subrange(0, i as int));
        if c == 'Z' {
            out.append("+00:00");
        } else {
            let piece = s.substring_char(i, i + 1);
            assert(piece@ =~= seq![c]);
            out.append(piece);
        }
        i = i + 1;
    }
    assert(s@.subrange(0, n as int) =~= s@);
    out
}

impl UnixTimestampSecs {
    /// The current time of this machine's clock: `None` where the clock is
    /// set outside the range of `jiff::Timestamp`.
    pub fn now() -> (r: Option<Self>)
        ensures
            r matches Some(t) ==> representable_second(t@ as int),
    {
        match timestamp_now() {
            Some(secs) => Some(UnixTimestampSecs(secs)),
            None => None,
        }
    }

    /// Reads a timestamp written as `%FT%T%:z`, where `Z` stands for `+00:00`.
    pub fn from_str_iso8601(time_str: &str) -> (r: Result<Self, TimeError>)
        ensures
            r matches Ok(t) ==> strptime_second(
                iso8601_offset_format(),
                utc_designator_as_offset(time_str@),
            ) == Some(t@),
            r matches Err(e) ==> e == TimeError::Parse && strptime_second(
                iso8601_offset_format(),
                utc_designator_as_offset(time_str@),
            ) is None,
    {
        let text = replace_utc_designator(time_str);
        match parse_timestamp("%FT%T%:z", text.as_str()) {
            Some(secs) => Ok(UnixTimestampSecs(secs)),
            None => Err(TimeError::Parse),
        }
    }

    /// Writes the timestamp as `%FT%TZ`.
    pub fn into_str_iso8601(self) -> (r: Result<String, TimeError>)
        ensures
            r is Ok <==> representable_second(self@ as int),
            r matches Ok(s) ==> s@ == strftime_text(iso8601_utc_format(), self@),
            r matches Err(e) ==> e == TimeError::OutOfRange,
    {
        match format_timestamp("%FT%TZ", self.0) {
            Some(s) => Ok(s),
            None => Err(TimeError::OutOfRange),
        }
    }

    /// The timestamp of a day boundary that a calendar computation found:
    /// `OutOfRange` where it found none.
    pub fn from_day_boundary(boundary: Option<i64>) -> (r: Result<Self, TimeError>)
        ensures
            r is Ok <==> boundary is Some,
            r matches Ok(t) ==> boundary == Some(t@),
            r matches Err(e) ==> e == TimeError::OutOfRange,
    {
        match boundary {
            Some(secs) => Ok(UnixTimestampSecs(secs)),
            None => Err(TimeError::OutOfRange),
        }
    }

    /// The start of the day that this instant lies in, in `time_zone`.
    pub fn today_start(self, time_zone: jiff::tz::TimeZone) -> (r: Result<Self, TimeError>)
        ensures
            r is Ok <==> zoned_day_start(self@, time_zone) is Some,
            r matches Ok(t) ==> zoned_day_start(self@, time_zone) == Some(t@),
            r matches Err(e) ==> e == TimeError::OutOfRange,
            !representable_second(self@ as int) ==> r is Err,
            r matches Ok(t) ==> representable_second(t@ as int),
    {
        Self::from_day_boundary(start_of_day_in(self.0, &time_zone))
    }

    /// The start of the UTC day that this instant lies in.
    pub fn today_start_utc(self) -> (r: Result<Self, TimeError>)
        ensures
            r is Ok <==> spec_utc_today_start(self@ as int) is Some,
            r matches Ok(t) ==> spec_utc_today_start(self@ as int) == Some(t@ as int),
            r matches Err(e) ==> e == TimeError::OutOfRange,
    {
        let zone = utc_zone();
        let r = self.today_start(zone);
        assert(seconds_of(zoned_day_start(self@, zone)) == spec_utc_today_start(self@ as int));
        r
    }

    /// The start of the day that this instant lies in, in the zone of this
    /// machine: the start of the day in some zone, whichever the
    /// environment names.
    pub fn today_start_local(self) -> (r: Result<Self, TimeError>)
        ensures
            exists|zone: jiff::tz::TimeZone| #[trigger]
                zoned_day_start(self@, zone) is Some == r is Ok && (r matches Ok(t)
                    ==> zoned_day_start(self@, zone) == Some(t@)),
            r matches Err(e) ==> e == TimeError::OutOfRange,
            !representable_second(self@ as int) ==> r is Err,
            r matches Ok(t) ==> representable_second(t@ as int),
    {
        let zone = system_zone();
        let r = self.today_start(zone);
        assert(zoned_day_start(self@, zone) is Some == r is Ok && (r matches Ok(t)
            ==> zoned_day_start(self@, zone) == Some(t@)));
        r
    }

    /// The start of the day after the one that this instant lies in, in
    /// `time_zone`.
    pub fn tomorrow_start(self, time_zone: jiff::tz::TimeZone) -> (r: Result<Self, TimeError>)
        ensures
            r is Ok <==> zoned_next_day_start(self@, time_zone) is Some,
            r matches Ok(t) ==> zoned_next_day_start(self@, time_zone) == Some(t@),
            r matches Err(e) ==> e == TimeError::OutOfRange,
            !representable_second(self@ as int) ==> r is Err,
            r matches Ok(t) ==> representable_second(t@ as int),
    {
        let boundary = match add_days_in(self.0, &time_zone, 1) {
            Some(later) => start_of_day_in(later, &time_zone),
            None => None,
        };
        Self::from_day_boundary(boundary)
    }

    /// The start of the UTC day after the one that this instant lies in.
    pub fn tomorrow_start_utc(self) -> (r: Result<Self, TimeError>)
        ensures
            r is Ok <==> spec_utc_tomorrow_start(self@ as int) is Some,
            r matches Ok(t) ==> spec_utc_tomorrow_start(self@ as int) == Some(t@ as int),
            r matches Err(e) ==> e == TimeError::OutOfRange,
    {
        let zone = utc_zone();
        let r = self.tomorrow_start(zone);
        proof {
            let secs = self@;
            assert(seconds_of(zoned_days_later(secs, zone, 1)) == spec_utc_day_later(secs as int));
            if let Some(later) = zoned_days_later(secs, zone, 1) {
                assert(seconds_of(zoned_day_start(later, zone)) == spec_utc_today_start(
                    later as int,
                ));
                lemma_mod_add_multiples_vanish(secs as int, seconds_per_day());
                assert(utc_day_floor(later as int) == utc_day_floor(secs as int)
                    + seconds_per_day());
            }
        }
        r
    }

    /// The start of the day after the one that this instant lies in, in the
    /// zone of this machine: the start of the next day in some zone,
    /// whichever the environment names.
    pub fn tomorrow_start_local(self) -> (r: Result<Self, TimeError>)
        ensures
            exists|zone: jiff::tz::TimeZone| #[trigger]
                zoned_next_day_start(self@, zone) is Some == r is Ok && (r matches Ok(t)
                    ==> zoned_next_day_start(self@, zone) == Some(t@)),
            r matches Err(e) ==> e == TimeError::OutOfRange,
            !representable_second(self@ as int) ==> r is Err,
            r matches Ok(t) ==> representable_second(t@ as int),
    {
        let zone = system_zone();
        let r = self.tomorrow_start(zone);
        assert(zoned_next_day_start(self@, zone) is Some == r is Ok && (r matches Ok(t)
            ==> zoned_next_day_start(self@, zone) == Some(t@)));
        r
    }
}

#[verifier::external_type_specification]
#[verifier::external_body]
pub struct ExSystemTime(std::time::SystemTime);

/// The offset from the epoch, in whole seconds, that
/// `SystemTime::duration_since(UNIX_EPOCH)` gives for `ts`.
pub uninterp spec fn system_time_offset(ts: std::time::SystemTime) -> EpochOffset;

/// `SystemTime::duration_since(UNIX_EPOCH)` read in whole seconds:
/// `Ok` with the seconds after the epoch, `Err` with the seconds before it
/// (from `SystemTimeError::duration`): the named offset of `ts`.
#[verifier::external_body]
fn epoch_offset(ts: &std::time::SystemTime) -> (r: EpochOffset)
    ensures
        r == system_time_offset(*ts),
{
    match ts.duration_since(std::time::UNIX_EPOCH) {
        Ok(d) => Ok(d.as_secs()),
        Err(e) => Err(e.duration().as_secs()),
    }
}

impl UnixTimestampSecs {
    /// The timestamp of a point in time of the platform's clock: what
    /// `from_epoch_offset` gives for the offset from the epoch that the
    /// platform reports, `None` where its seconds do not fit in `i64`.
    pub fn from_system_time(ts: std::time::SystemTime) -> (r: Option<Self>)
        ensures
            timestamp_seconds(r) == timestamp_of_offset(system_time_offset(ts)),
    {
        let offset = epoch_offset(&ts);
        Self::from_epoch_offset(offset)
    }
}

/// The seconds of an optional timestamp.
pub open spec fn timestamp_seconds(r: Option<UnixTimestampSecs>) -> Option<i64> {
    match r {
        Some(t) => Some(t@),
        None => None,
    }
}

/// Adding a span and taking it off again gives back the timestamp wherever
/// the sum does not overflow; where the checked sum exists, the saturating
/// one equals it, and otherwise the saturating one is the largest
/// timestamp.
pub proof fn law_add_then_sub(t: i64, secs: u64)
    ensures
        t + secs <= i64::MAX ==> clamp_i64(clamp_i64(t + secs) - secs) == t,
        t + secs <= i64::MAX ==> clamp_i64(t + secs) == t + secs,
        t + secs > i64::MAX ==> clamp_i64(t + secs) == i64::MAX,
        t - secs >= i64::MIN ==> clamp_i64(t - secs) == t - secs,
        t - secs < i64::MIN ==> clamp_i64(t - secs) == i64::MIN,
{
}

/// Saturating addition never moves a timestamp back, and saturating
/// subtraction never moves it forward.
pub proof fn law_saturating_monotone(t: i64, secs: u64)
    ensures
        clamp_i64(t + secs) >= t,
        clamp_i64(t - secs) <= t,
{
}

} // verus!
