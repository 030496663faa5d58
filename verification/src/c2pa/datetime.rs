//! Points in time with their UTC offset, as manifests record them.
use vstd::prelude::*;
use crate::error::{Error, Result};
use time::format_description::well_known::Rfc3339;
use time::{OffsetDateTime, UtcOffset};

verus! {

/// The earliest second the `time` crate represents: -9999-01-01T00:00:00
/// UTC, in seconds since the Unix epoch.
pub const MIN_UNIX_SECONDS: i64 = -377705203200;

/// The latest second the `time` crate represents: 9999-12-31T23:59:59 UTC.
pub const MAX_UNIX_SECONDS: i64 = 253402300799;

/// The largest offset from UTC, in seconds: 25:59:59.
pub const MAX_OFFSET_SECONDS: i32 = 93599;

/// Nanoseconds per second.
pub const NANOS_PER_SECOND: i128 = 1000000000;

/// Whether `time` represents the instant `nanos` nanoseconds after the Unix
/// epoch in the offset `offset` seconds east of UTC: the instant's second
/// and its local second both lie between -9999-01-01 and 9999-12-31, and
/// the offset is at most 25:59:59 either way.
pub open spec fn datetime_in_range(nanos: int, offset: int) -> bool {
    let s = nanos / (NANOS_PER_SECOND as int);
    &&& MIN_UNIX_SECONDS <= s <= MAX_UNIX_SECONDS
    &&& -MAX_OFFSET_SECONDS <= offset <= MAX_OFFSET_SECONDS
    &&& MIN_UNIX_SECONDS <= s + offset <= MAX_UNIX_SECONDS
}

/// The year of the local date of an instant in an offset, as
/// `OffsetDateTime::year` gives it.
pub uninterp spec fn datetime_year(nanos: i128, offset: i32) -> i32;

/// The RFC 3339 text of an instant in an offset, as `OffsetDateTime::format`
/// with `Rfc3339` writes it, or `None` where that format refuses it.
pub uninterp spec fn rfc3339_text(nanos: i128, offset: i32) -> Option<Seq<char>>;

/// The text `OffsetDateTime`'s `Display` writes for an instant in an offset.
pub uninterp spec fn datetime_display(nanos: i128, offset: i32) -> Seq<char>;

/// `OffsetDateTime::now_utc`, as nanoseconds since the Unix epoch. Which
/// instant comes back depends on the clock; it is one `time` represents.
#[verifier::external_body]
fn now_utc_nanos() -> (r: i128)
    ensures
        datetime_in_range(r as int, 0),
{
    OffsetDateTime::now_utc().unix_timestamp_nanos()
}

/// `OffsetDateTime::year` of the instant in the offset: the year of the
/// local date, which is before 1970 exactly when the local date-time is
/// before 1970-01-01T00:00.
#[verifier::external_body]
fn local_year(nanos: i128, offset: i32) -> (r: i32)
    requires
        datetime_in_range(nanos as int, offset as int),
    ensures
        r == datetime_year(nanos, offset),
        (r < 1970) == (nanos + offset * NANOS_PER_SECOND < 0),
{
    let at = OffsetDateTime::from_unix_timestamp_nanos(nanos).unwrap();
    at.to_offset(UtcOffset::from_whole_seconds(offset).unwrap()).year()
}

/// `OffsetDateTime::format` with `Rfc3339`, its error dropped.
#[verifier::external_body]
fn format_rfc3339(nanos: i128, offset: i32) -> (r: Option<String>)
    requires
        datetime_in_range(nanos as int, offset as int),
    ensures
        r matches Some(t) ==> rfc3339_text(nanos, offset) == Some(t@),
        r is None ==> rfc3339_text(nanos, offset) is None,
{
    let at = OffsetDateTime::from_unix_timestamp_nanos(nanos).unwrap();
    at.to_offset(UtcOffset::from_whole_seconds(offset).unwrap()).format(&Rfc3339).ok()
}

/// `OffsetDateTime`'s `Display`.
#[verifier::external_body]
fn display_datetime(nanos: i128, offset: i32) -> (r: String)
    requires
        datetime_in_range(nanos as int, offset as int),
    ensures
        r@ == datetime_display(nanos, offset),
{
    let at = OffsetDateTime::from_unix_timestamp_nanos(nanos).unwrap();
    at.to_offset(UtcOffset::from_whole_seconds(offset).unwrap()).to_string()
}

/// Rounding towards minus infinity, for a negative numerator: the quotient
/// of `n` is one less than minus the quotient of `-(n + 1)`.
proof fn lemma_floor_div_negative(n: int, d: int)
    requires
        n < 0,
        d > 0,
    ensures
        -((-(n + 1)) / d) - 1 == n / d,
{
    let m = -(n + 1);
    let q = m / d;
    let r = m % d;
    vstd::arithmetic::div_mod::lemma_fundamental_div_mod(m, d);
    assert(0 <= r < d);
    assert(n == (-q - 1) * d + (d - r - 1)) by (nonlinear_arith)
        requires
            m == d * q + r,
            n == -(m + 1),
    ;
    vstd::arithmetic::div_mod::lemma_fundamental_div_mod_converse(n, d, -q - 1, d - r - 1);
}

/// The message for a date-time before 1970.
pub open spec fn before_epoch_message() -> Seq<char> {
    "Datetime must be after January 1, 1970"@
}

/// The message for a date-time after the present.
pub open spec fn future_message() -> Seq<char> {
    "Datetime cannot be in the future"@
}

/// A date-time with its UTC offset: an instant, in nanoseconds since the
/// Unix epoch, seen in an offset of whole seconds east of UTC.
#[derive(Debug, Clone, Copy, Eq)]
pub struct DateTimeWrapper {
    unix_nanos: i128,
    offset_seconds: i32,
}

impl DateTimeWrapper {
    /// Only date-times that `time` represents are held.
    #[verifier::type_invariant]
    spec fn in_range(self) -> bool {
        datetime_in_range(self.unix_nanos as int, self.offset_seconds as int)
    }

    /// The instant, in nanoseconds since the Unix epoch.
    pub closed spec fn nanos(&self) -> i128 {
        self.unix_nanos
    }

    /// The offset from UTC, in seconds.
    pub closed spec fn offset(&self) -> i32 {
        self.offset_seconds
    }

    /// The present instant, in UTC.
    pub fn now_utc() -> (r: Self)
        ensures
            r.offset() == 0,
            datetime_in_range(r.nanos() as int, 0),
    {
        DateTimeWrapper { unix_nanos: now_utc_nanos(), offset_seconds: 0 }
    }

    /// The date-time `unix_nanos` nanoseconds after the Unix epoch, seen
    /// `offset_seconds` east of UTC; `None` where `time` does not represent
    /// it.
    pub fn from_parts(unix_nanos: i128, offset_seconds: i32) -> (r: Option<Self>)
        ensures
            r is Some <==> datetime_in_range(unix_nanos as int, offset_seconds as int),
            r matches Some(d) ==> d.nanos() == unix_nanos && d.offset() == offset_seconds,
    {
        let s = if unix_nanos >= 0 {
            unix_nanos / NANOS_PER_SECOND
        } else {
            let m = -(unix_nanos + 1);
            proof {
                lemma_floor_div_negative(unix_nanos as int, NANOS_PER_SECOND as int);
            }
            -(m / NANOS_PER_SECOND) - 1
        };
        assert(s == unix_nanos as int / (NANOS_PER_SECOND as int));
        if s < MIN_UNIX_SECONDS as i128 || s > MAX_UNIX_SECONDS as i128 || offset_seconds
            < -MAX_OFFSET_SECONDS || offset_seconds > MAX_OFFSET_SECONDS {
            return None;
        }
        let local = s + offset_seconds as i128;
        if local < MIN_UNIX_SECONDS as i128 || local > MAX_UNIX_SECONDS as i128 {
            return None;
        }
        Some(DateTimeWrapper { unix_nanos, offset_seconds })
    }

    /// The instant, in nanoseconds since the Unix epoch.
    pub fn unix_timestamp_nanos(&self) -> (r: i128)
        ensures
            r == self.nanos(),
    {
        self.unix_nanos
    }

    /// The offset from UTC, in seconds.
    pub fn offset_seconds(&self) -> (r: i32)
        ensures
            r == self.offset(),
    {
        self.offset_seconds
    }

    /// Validates against the present instant `now`: refused before 1970
    /// (by the local calendar) and after `now`.
    pub fn validate_at(&self, now: &DateTimeWrapper) -> (r: Result<()>)
        ensures
            self.nanos() + self.offset() * NANOS_PER_SECOND < 0 ==> (r matches Err(Error::Time(m))
                && m@ == before_epoch_message()),
            self.nanos() + self.offset() * NANOS_PER_SECOND >= 0 && self.nanos() > now.nanos() ==> (
            r matches Err(Error::Time(m)) && m@ == future_message()),
            self.nanos() + self.offset() * NANOS_PER_SECOND >= 0 && self.nanos() <= now.nanos()
                ==> r is Ok,
    {
        proof {
            use_type_invariant(self);
        }
        if local_year(self.unix_nanos, self.offset_seconds) < 1970 {
            return Err(Error::Time(String::from_str("Datetime must be after January 1, 1970")));
        }
        if self.unix_nanos > now.unix_nanos {
            return Err(Error::Time(String::from_str("Datetime cannot be in the future")));
        }
        Ok(())
    }

    /// Validates against the present: refused before 1970 (by the local
    /// calendar) and in the future. Which instant is the present depends on
    /// the clock, so only the first refusal is fixed by the arguments.
    pub fn validate(&self) -> (r: Result<()>)
        ensures
            self.nanos() + self.offset() * NANOS_PER_SECOND < 0 ==> (r matches Err(Error::Time(m))
                && m@ == before_epoch_message()),
            self.nanos() + self.offset() * NANOS_PER_SECOND >= 0 ==> (r is Ok || (r matches Err(
                Error::Time(m),
            ) && m@ == future_message())),
    {
        let now = DateTimeWrapper::now_utc();
        self.validate_at(&now)
    }

    /// The date-time as RFC 3339 text, or as `Display` writes it where
    /// RFC 3339 cannot express it.
    pub fn to_rfc3339(&self) -> (r: String)
        ensures
            r@ == match rfc3339_text(self.nanos(), self.offset()) {
                Some(t) => t,
                None => datetime_display(self.nanos(), self.offset()),
            },
    {
        proof {
            use_type_invariant(self);
        }
        match format_rfc3339(self.unix_nanos, self.offset_seconds) {
            Some(t) => t,
            None => display_datetime(self.unix_nanos, self.offset_seconds),
        }
    }

    /// The text of the date-time: its RFC 3339 text.
    pub fn to_string(&self) -> (r: String)
        ensures
            r@ == match rfc3339_text(self.nanos(), self.offset()) {
                Some(t) => t,
                None => datetime_display(self.nanos(), self.offset()),
            },
    {
        self.to_rfc3339()
    }
}

impl PartialEq for DateTimeWrapper {
    fn eq(&self, other: &Self) -> (r: bool) {
        self.unix_nanos == other.unix_nanos
    }
}

impl vstd::std_specs::cmp::PartialEqSpecImpl for DateTimeWrapper {
    /// Date-times are equal when they name the same instant, whatever their
    /// offsets.
    open spec fn obeys_eq_spec() -> bool {
        true
    }

    open spec fn eq_spec(&self, other: &Self) -> bool {
        self.nanos() == other.nanos()
    }
}

impl Default for DateTimeWrapper {
    /// The present instant, in UTC.
    fn default() -> (r: Self)
        ensures
            r.offset() == 0,
    {
        DateTimeWrapper::now_utc()
    }
}

} // verus!
