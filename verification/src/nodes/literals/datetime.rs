//! `xsd:dateTime` literals, validated with the `time` crate.
use chrono::{Datelike, NaiveDateTime, Timelike};
use time::{OffsetDateTime, PrimitiveDateTime};
use vstd::prelude::*;
use vstd::std_specs::convert::{FromSpecImpl, TryFromSpecImpl};
use vstd::utf8::encode_utf8;

use crate::errors::RdfTrigError;
use crate::traits::{WriteNQuads, WriteTriG};
use crate::utils::{decimal_chars, digit_char, write_str};

verus! {

/// Whether `s` parses as an RFC 3339 date-time, as decided by
/// `time::OffsetDateTime::parse` with the `Rfc3339` description.
pub uninterp spec fn spec_is_rfc3339(s: Seq<char>) -> bool;

/// Whether `s` parses as a date-time without offset under the format
/// `description` (version 1 of the `time` crate's description syntax), as
/// decided by `time::PrimitiveDateTime::parse`.
pub uninterp spec fn spec_matches_description(s: Seq<char>, description: Seq<char>) -> bool;

/// Calls `time::OffsetDateTime::parse(s, &Rfc3339)` and reports whether it
/// succeeded. The contract claims only that the answer depends on the
/// characters of `s` alone; the grammar itself is the `time` crate's.
#[verifier::external_body]
fn parses_as_rfc3339(s: &str) -> (ok: bool)
    ensures
        ok == spec_is_rfc3339(s@),
{
    time::OffsetDateTime::parse(s, &time::format_description::well_known::Rfc3339).is_ok()
}

/// Builds the format description `description` with
/// `time::format_description::parse_borrowed::<1>` and calls
/// `time::PrimitiveDateTime::parse(s, ..)` with it, reporting whether both
/// succeeded. The contract claims only that the answer depends on the
/// characters of `s` and of `description` alone.
#[verifier::external_body]
fn matches_description(s: &str, description: &str) -> (ok: bool)
    ensures
        ok == spec_matches_description(s@, description@),
{
    match time::format_description::parse_borrowed::<1>(description) {
        Ok(items) => time::PrimitiveDateTime::parse(s, &items).is_ok(),
        Err(_) => false,
    }
}

#[verifier::external_type_specification]
#[verifier::external_body]
pub struct ExNaiveDateTime(chrono::NaiveDateTime);

#[verifier::external_type_specification]
#[verifier::external_body]
pub struct ExPrimitiveDateTime(time::PrimitiveDateTime);

#[verifier::external_type_specification]
#[verifier::external_body]
pub struct ExOffsetDateTime(time::OffsetDateTime);

/// The fields of a date and time, as plain values.
#[derive(Clone, Copy, Debug, PartialEq, Eq)]
pub struct DateTimeFields {
    pub year: i32,
    pub month: u8,
    pub day: u8,
    pub hour: u8,
    pub minute: u8,
    pub second: u8,
    pub nanosecond: u32,
}

/// A UTC offset as plain values: its hours, minutes and seconds, which share
/// one sign.
#[derive(Clone, Copy, Debug, PartialEq, Eq)]
pub struct OffsetFields {
    pub hours: i8,
    pub minutes: i8,
    pub seconds: i8,
}

/// Whether the calendar and clock fields are in their ranges.
pub open spec fn fields_in_range(f: DateTimeFields) -> bool {
    &&& 1 <= f.month <= 12
    &&& 1 <= f.day <= 31
    &&& f.hour < 24
    &&& f.minute < 60
    &&& f.second < 60
}

/// The fields of a chrono `NaiveDateTime`: its years, and a nanosecond
/// count that reaches past one second on a leap second.
pub open spec fn chrono_fields_ok(f: DateTimeFields) -> bool {
    &&& fields_in_range(f)
    &&& -262143 <= f.year <= 262142
    &&& f.nanosecond < 2_000_000_000
}

/// The fields of a time `PrimitiveDateTime` or `OffsetDateTime`.
pub open spec fn time_fields_ok(f: DateTimeFields) -> bool {
    &&& fields_in_range(f)
    &&& -9999 <= f.year <= 9999
    &&& f.nanosecond < 1_000_000_000
}

/// The fields of a time `UtcOffset`.
pub open spec fn offset_ok(o: OffsetFields) -> bool {
    &&& -25 <= o.hours <= 25
    &&& -59 <= o.minutes <= 59
    &&& -59 <= o.seconds <= 59
    &&& (o.hours >= 0 && o.minutes >= 0 && o.seconds >= 0) || (o.hours <= 0 && o.minutes <= 0
        && o.seconds <= 0)
}

/// `n` (`0 <= n < 100`) in two digits.
pub open spec fn two_digits(n: int) -> Seq<char> {
    seq![digit_char(n / 10), digit_char(n % 10)]
}

/// `n` (`0 <= n < 10000`) in four digits.
pub open spec fn four_digits(n: int) -> Seq<char> {
    seq![digit_char(n / 1000), digit_char((n / 100) % 10), digit_char((n / 10) % 10), digit_char(n % 10)]
}

/// A year as chrono's `%Y` and time's `[year]` write it: four digits from
/// `0` to `9999`; otherwise a sign, then at least four digits.
pub open spec fn year_text(y: int) -> Seq<char> {
    if 0 <= y <= 9999 {
        four_digits(y)
    } else {
        let a = if y < 0 {
            -y
        } else {
            y
        };
        (if y < 0 {
            seq!['-']
        } else {
            seq!['+']
        }) + if a < 10000 {
            four_digits(a)
        } else {
            decimal_chars(a as nat)
        }
    }
}

/// A date and time written `YYYY-MM-DDTHH:MM:SS`; a leap second (a
/// nanosecond count past one second) is written as second `60`.
pub open spec fn naive_text(f: DateTimeFields) -> Seq<char> {
    year_text(f.year as int) + seq!['-'] + two_digits(f.month as int) + seq!['-'] + two_digits(
        f.day as int,
    ) + seq!['T'] + two_digits(f.hour as int) + seq![':'] + two_digits(f.minute as int) + seq![':']
        + two_digits(f.second + f.nanosecond / 1_000_000_000)
}

/// `s` without its trailing zeros, keeping its first character.
pub open spec fn trim_trailing_zeros(s: Seq<char>) -> Seq<char>
    decreases s.len(),
{
    if s.len() > 1 && s.last() == '0' {
        trim_trailing_zeros(s.drop_last())
    } else {
        s
    }
}

/// `n` (`n < 10^9`) in nine digits, padded with leading zeros.
pub open spec fn nine_digits(n: nat) -> Seq<char> {
    Seq::new((9 - decimal_chars(n).len()) as nat, |i: int| '0') + decimal_chars(n)
}

/// Whether time can write the date and offset in RFC 3339: a year from `0`
/// to `9999`, an offset of at most 23 hours and no seconds.
pub open spec fn rfc3339_formattable(f: DateTimeFields, o: OffsetFields) -> bool {
    &&& 0 <= f.year <= 9999
    &&& -23 <= o.hours <= 23
    &&& o.seconds == 0
}

/// The date, time and offset in RFC 3339 as time writes them: the fraction
/// of a second only when there is one, without trailing zeros; `Z` for a
/// zero offset, else its sign, hours and minutes.
pub open spec fn rfc3339_text(f: DateTimeFields, o: OffsetFields) -> Seq<char> {
    four_digits(f.year as int) + seq!['-'] + two_digits(f.month as int) + seq!['-'] + two_digits(
        f.day as int,
    ) + seq!['T'] + two_digits(f.hour as int) + seq![':'] + two_digits(f.minute as int) + seq![':']
        + two_digits(f.second as int) + (if f.nanosecond != 0 {
        seq!['.'] + trim_trailing_zeros(nine_digits(f.nanosecond as nat))
    } else {
        Seq::empty()
    }) + if o.hours == 0 && o.minutes == 0 && o.seconds == 0 {
        seq!['Z']
    } else {
        (if o.hours < 0 || o.minutes < 0 || o.seconds < 0 {
            seq!['-']
        } else {
            seq!['+']
        }) + two_digits(if o.hours < 0 {
            -o.hours
        } else {
            o.hours as int
        }) + seq![':'] + two_digits(if o.minutes < 0 {
            -o.minutes
        } else {
            o.minutes as int
        })
    }
}

/// The fields of a chrono `NaiveDateTime`, as its `Datelike` and `Timelike`
/// getters give them.
pub uninterp spec fn naive_fields(value: NaiveDateTime) -> DateTimeFields;

/// The fields of a time `PrimitiveDateTime`, as its getters give them.
pub uninterp spec fn primitive_fields(value: PrimitiveDateTime) -> DateTimeFields;

/// The date and time fields of a time `OffsetDateTime`, as its getters give
/// them.
pub uninterp spec fn offset_date_fields(value: OffsetDateTime) -> DateTimeFields;

/// The offset of a time `OffsetDateTime`, as `UtcOffset::as_hms` gives it.
pub uninterp spec fn offset_fields(value: OffsetDateTime) -> OffsetFields;

/// Reads the fields of `value` (chrono's `Datelike` and `Timelike` getters)
/// and formats it with `NaiveDateTime::format` and `pattern`. For the one
/// pattern it is called with, `%Y-%m-%dT%H:%M:%S`, chrono's source writes
/// the fields' `naive_text`: `%Y` as `year_text`, the others in two digits,
/// and `%S` adds one on a leap second.
#[verifier::external_body]
fn chrono_naive_text(value: &NaiveDateTime, pattern: &str) -> (r: (DateTimeFields, String))
    requires
        pattern@ == "%Y-%m-%dT%H:%M:%S"@,
    ensures
        r.0 == naive_fields(*value),
        chrono_fields_ok(r.0),
        r.1@ == naive_text(r.0),
{
    let fields = DateTimeFields {
        year: value.year(),
        month: value.month() as u8,
        day: value.day() as u8,
        hour: value.hour() as u8,
        minute: value.minute() as u8,
        second: value.second() as u8,
        nanosecond: value.nanosecond(),
    };
    (fields, value.format(pattern).to_string())
}

/// Reads the fields of `value` (time's getters), builds the format
/// description `description` with
/// `time::format_description::parse_borrowed::<1>` and formats `value` with
/// `PrimitiveDateTime::format`. For the one description it is called with,
/// time's source parses the description and formats every value (years
/// are within `-9999..=9999`), writing the fields' `naive_text`.
#[verifier::external_body]
fn time_primitive_text(value: &PrimitiveDateTime, description: &str) -> (r: (
    DateTimeFields,
    Option<String>,
))
    requires
        description@ == "[year]-[month]-[day]T[hour]:[minute]:[second]"@,
    ensures
        r.0 == primitive_fields(*value),
        time_fields_ok(r.0),
        r.1 matches Some(t) && t@ == naive_text(r.0),
{
    let fields = DateTimeFields {
        year: value.year(),
        month: u8::from(value.month()),
        day: value.day(),
        hour: value.hour(),
        minute: value.minute(),
        second: value.second(),
        nanosecond: value.nanosecond(),
    };
    let text = match time::format_description::parse_borrowed::<1>(description) {
        Ok(items) => value.format(&items).ok(),
        Err(_) => None,
    };
    (fields, text)
}

/// Reads the fields and the offset of `value` (time's getters and
/// `UtcOffset::as_hms`) and formats it with `OffsetDateTime::format` and the
/// `Rfc3339` description. As time's source shows, that succeeds exactly for
/// a year from `0` to `9999`, an offset of at most 23 hours and no offset
/// seconds, and writes `rfc3339_text`.
#[verifier::external_body]
fn time_offset_text(value: &OffsetDateTime) -> (r: (DateTimeFields, OffsetFields, Option<String>))
    ensures
        r.0 == offset_date_fields(*value),
        r.1 == offset_fields(*value),
        time_fields_ok(r.0),
        offset_ok(r.1),
        r.2 is Some <==> rfc3339_formattable(r.0, r.1),
        r.2 matches Some(t) ==> t@ == rfc3339_text(r.0, r.1),
{
    let fields = DateTimeFields {
        year: value.year(),
        month: u8::from(value.month()),
        day: value.day(),
        hour: value.hour(),
        minute: value.minute(),
        second: value.second(),
        nanosecond: value.nanosecond(),
    };
    let (hours, minutes, seconds) = value.offset().as_hms();
    let offset = OffsetFields { hours, minutes, seconds };
    (fields, offset, value.format(&time::format_description::well_known::Rfc3339).ok())
}

/// The description of a local date-time with fractional seconds.
pub open spec fn naive_subsecond_description() -> Seq<char> {
    "[year]-[month]-[day]T[hour]:[minute]:[second].[subsecond]"@
}

/// The description of a local date-time to the second.
pub open spec fn naive_iso_description() -> Seq<char> {
    "[year]-[month]-[day]T[hour]:[minute]:[second]"@
}

/// Whether a text is accepted as an XML Schema `dateTime`: an RFC 3339
/// date-time, or a date-time without offset, with or without fractional
/// seconds.
pub open spec fn spec_is_datetime(s: Seq<char>) -> bool {
    spec_is_rfc3339(s) || spec_matches_description(s, naive_subsecond_description())
        || spec_matches_description(s, naive_iso_description())
}

/// A `dateTime` literal, kept as the text it was given (validated on
/// construction) to avoid parsing then formatting.
#[derive(Clone, Debug, PartialEq, Eq, Hash)]
pub struct DateTimeLiteral(String);

impl View for DateTimeLiteral {
    type V = Seq<char>;

    /// The lexical form.
    closed spec fn view(&self) -> Seq<char> {
        self.0@
    }
}

impl DateTimeLiteral {
    /// The literal for a date-time that the `time` crate wrote as `text`, or,
    /// when it could not write it (`None`), an `InvalidDateTime` error
    /// carrying `refusal`. The text is kept as time wrote it.
    pub fn from_time_text(text: Option<String>, refusal: &str) -> (r: Result<
        DateTimeLiteral,
        RdfTrigError,
    >)
        ensures
            match text {
                Some(t) => r matches Ok(d) && d@ == t@,
                None => r matches Err(RdfTrigError::InvalidDateTime(s)) && s@ == refusal@,
            },
    {
        match text {
            Some(t) => Ok(DateTimeLiteral(t)),
            None => Err(RdfTrigError::InvalidDateTime(refusal.to_owned())),
        }
    }

    /// Create a `DateTimeLiteral` from `value`.
    ///
    /// Returns an `InvalidDateTime` error carrying `value` if it cannot be
    /// parsed as an XML Schema `dateTime` ("1900-01-01T00:00:00.000", with or
    /// without "Z" or a timezone offset).
    pub fn try_from_str(value: &str) -> (r: Result<DateTimeLiteral, RdfTrigError>)
        ensures
            match r {
                Ok(d) => spec_is_datetime(value@) && d@ == value@,
                Err(e) => !spec_is_datetime(value@) && (e matches RdfTrigError::InvalidDateTime(s)
                    && s@ == value@),
            },
    {
        if parses_as_rfc3339(value) {
            return Ok(DateTimeLiteral(value.to_owned()));
        }
        if matches_description(value, "[year]-[month]-[day]T[hour]:[minute]:[second].[subsecond]")
            || matches_description(value, "[year]-[month]-[day]T[hour]:[minute]:[second]") {
            Ok(DateTimeLiteral(value.to_owned()))
        } else {
            Err(RdfTrigError::InvalidDateTime(value.to_owned()))
        }
    }

    /// A copy of this literal.
    pub fn duplicate(&self) -> (d: DateTimeLiteral)
        ensures
            d == *self,
    {
        DateTimeLiteral(self.0.clone())
    }

    /// The lexical form of this literal.
    pub fn value(&self) -> (s: &str)
        ensures
            s@ == self@,
    {
        self.0.as_str()
    }
}

impl From<NaiveDateTime> for DateTimeLiteral {
    /// Written by chrono as `YYYY-MM-DDTHH:MM:SS`: the literal's text is
    /// the `naive_text` of the value's fields.
    fn from(value: NaiveDateTime) -> (d: DateTimeLiteral)
        ensures
            d@ == naive_text(naive_fields(value)),
            chrono_fields_ok(naive_fields(value)),
    {
        let (fields, text) = chrono_naive_text(&value, "%Y-%m-%dT%H:%M:%S");
        DateTimeLiteral(text)
    }
}

impl FromSpecImpl<NaiveDateTime> for DateTimeLiteral {
    /// The text is chrono's, which no spec value names.
    open spec fn obeys_from_spec() -> bool {
        false
    }

    open spec fn from_spec(v: NaiveDateTime) -> DateTimeLiteral {
        arbitrary()
    }
}

impl TryFrom<PrimitiveDateTime> for DateTimeLiteral {
    type Error = RdfTrigError;

    /// Written by time as `YYYY-MM-DDTHH:MM:SS`, which never fails: the
    /// literal's text is the `naive_text` of the value's fields.
    fn try_from(value: PrimitiveDateTime) -> (r: Result<DateTimeLiteral, RdfTrigError>)
        ensures
            r matches Ok(d) && d@ == naive_text(primitive_fields(value)),
            time_fields_ok(primitive_fields(value)),
    {
        let (fields, text) = time_primitive_text(&value, "[year]-[month]-[day]T[hour]:[minute]:[second]");
        DateTimeLiteral::from_time_text(text, "Invalid PrimitiveDateTime")
    }
}

impl TryFromSpecImpl<PrimitiveDateTime> for DateTimeLiteral {
    /// The text is time's, which no spec value names; the implementation's
    /// own `ensures` states what holds.
    open spec fn obeys_try_from_spec() -> bool {
        false
    }

    open spec fn try_from_spec(v: PrimitiveDateTime) -> Result<DateTimeLiteral, RdfTrigError> {
        arbitrary()
    }
}

impl TryFrom<OffsetDateTime> for DateTimeLiteral {
    type Error = RdfTrigError;

    /// Written by time in RFC 3339 when the value's year is from `0` to `9999`
    /// and its offset has at most 23 hours and no seconds: the literal's text
    /// is the `rfc3339_text` of the value's fields and offset. Otherwise an
    /// `InvalidDateTime` error naming the type.
    fn try_from(value: OffsetDateTime) -> (r: Result<DateTimeLiteral, RdfTrigError>)
        ensures
            time_fields_ok(offset_date_fields(value)),
            offset_ok(offset_fields(value)),
            if rfc3339_formattable(offset_date_fields(value), offset_fields(value)) {
                r matches Ok(d) && d@ == rfc3339_text(offset_date_fields(value), offset_fields(value))
            } else {
                r matches Err(RdfTrigError::InvalidDateTime(s)) && s@ == "Invalid OffsetDateTime"@
            },
    {
        let (fields, offset, text) = time_offset_text(&value);
        DateTimeLiteral::from_time_text(text, "Invalid OffsetDateTime")
    }
}

impl TryFromSpecImpl<OffsetDateTime> for DateTimeLiteral {
    /// The text is time's, which no spec value names; the implementation's
    /// own `ensures` states what holds.
    open spec fn obeys_try_from_spec() -> bool {
        false
    }

    open spec fn try_from_spec(v: OffsetDateTime) -> Result<DateTimeLiteral, RdfTrigError> {
        arbitrary()
    }
}

/// The N-Quads bytes of a dateTime literal.
pub open spec fn datetime_nquads(value: Seq<char>) -> Seq<u8> {
    encode_utf8("\""@) + encode_utf8(value) + encode_utf8(
        "\"^^<http://www.w3.org/2001/XMLSchema#dateTime>"@,
    )
}

/// The TriG bytes of a dateTime literal, typed with the `xsd` prefix.
pub open spec fn datetime_trig(value: Seq<char>) -> Seq<u8> {
    encode_utf8("\""@) + encode_utf8(value) + encode_utf8("\"^^xsd:dateTime"@)
}

impl WriteNQuads for DateTimeLiteral {
    open spec fn nquads(&self) -> Seq<u8> {
        datetime_nquads(self@)
    }

    fn write_nquads(&self, writer: &mut Vec<u8>) {
        write_str(writer, "\"");
        write_str(writer, self.0.as_str());
        write_str(writer, "\"^^<http://www.w3.org/2001/XMLSchema#dateTime>");
        assert(writer@ =~= old(writer)@ + datetime_nquads(self@));
    }
}

impl WriteTriG for DateTimeLiteral {
    open spec fn trig(&self) -> Seq<u8> {
        datetime_trig(self@)
    }

    fn write_trig(&self, writer: &mut Vec<u8>) {
        write_str(writer, "\"");
        write_str(writer, self.0.as_str());
        write_str(writer, "\"^^xsd:dateTime");
        assert(writer@ =~= old(writer)@ + datetime_trig(self@));
    }
}

/// A local date-time with fractional seconds is accepted in the form of one
/// to the second followed by a `.` and time's `[subsecond]` component with no
/// modifier, which reads one or more digits; the form to the second is the
/// date, `T` and the time, with no offset.
pub proof fn lemma_naive_descriptions()
    ensures
        naive_subsecond_description() == naive_iso_description() + ".[subsecond]"@,
        naive_iso_description() == "[year]-[month]-[day]"@ + "T"@ + "[hour]:[minute]:[second]"@,
{
    reveal_strlit("[year]-[month]-[day]T[hour]:[minute]:[second].[subsecond]");
    reveal_strlit("[year]-[month]-[day]T[hour]:[minute]:[second]");
    reveal_strlit(".[subsecond]");
    reveal_strlit("[year]-[month]-[day]");
    reveal_strlit("T");
    reveal_strlit("[hour]:[minute]:[second]");
    assert(naive_subsecond_description() =~= naive_iso_description() + ".[subsecond]"@);
    assert(naive_iso_description() =~= "[year]-[month]-[day]"@ + "T"@ + "[hour]:[minute]:[second]"@);
}

} // verus!
