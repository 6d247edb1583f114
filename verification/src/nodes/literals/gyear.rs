//! `xsd:gYear` literals.
use vstd::prelude::*;
use vstd::std_specs::convert::FromSpecImpl;
use vstd::utf8::{encode_utf8, is_ascii_chars, is_ascii_chars_encode_utf8};

use crate::errors::RdfTrigError;
use crate::traits::{WriteNQuads, WriteTriG};
use crate::utils::{decimal_chars, digit_char, push_signed_decimal, signed_decimal_chars, write_str};

verus! {

/// Whether `b` is an ASCII decimal digit.
pub open spec fn is_digit_byte(b: u8) -> bool {
    0x30 <= b <= 0x39
}

/// The number written by a sequence of ASCII digits.
pub open spec fn digits_value(ds: Seq<u8>) -> int
    decreases ds.len(),
{
    if ds.len() == 0 {
        0
    } else {
        digits_value(ds.drop_last()) * 10 + (ds.last() - 0x30)
    }
}

/// Whether every byte of `ds` is an ASCII digit.
pub open spec fn all_digits(ds: Seq<u8>) -> bool {
    forall|i: int| 0 <= i < ds.len() ==> is_digit_byte(#[trigger] ds[i])
}

/// What `str::parse::<i32>` gives for a text with these bytes: an optional
/// `+` or `-`, then at least one ASCII digit and nothing else, with a value
/// that fits in an `i32`.
pub open spec fn spec_parse_i32(bytes: Seq<u8>) -> Option<i32> {
    let signed = bytes.len() > 0 && (bytes[0] == 0x2D || bytes[0] == 0x2B);
    let negative = bytes.len() > 0 && bytes[0] == 0x2D;
    let digits = if signed {
        bytes.drop_first()
    } else {
        bytes
    };
    if digits.len() == 0 || !all_digits(digits) {
        None
    } else {
        let v = if negative {
            -digits_value(digits)
        } else {
            digits_value(digits)
        };
        if i32::MIN <= v <= i32::MAX {
            Some(v as i32)
        } else {
            None
        }
    }
}

proof fn lemma_digits_value_nonneg(ds: Seq<u8>)
    requires
        all_digits(ds),
    ensures
        digits_value(ds) >= 0,
    decreases ds.len(),
{
    if ds.len() > 0 {
        assert(all_digits(ds.drop_last()));
        lemma_digits_value_nonneg(ds.drop_last());
    }
}

/// The decimal digits of `n` are ASCII digits.
proof fn lemma_decimal_chars_digits(n: nat)
    ensures
        decimal_chars(n).len() > 0,
        forall|i: int|
            0 <= i < decimal_chars(n).len() ==> '0' <= #[trigger] decimal_chars(n)[i] <= '9',
    decreases n,
{
    if n >= 10 {
        lemma_decimal_chars_digits(n / 10);
        assert(decimal_chars(n) == decimal_chars(n / 10).push(digit_char((n % 10) as int)));
    }
}

/// The bytes of the decimal digits of `n` are digits whose value is `n`.
proof fn lemma_decimal_bytes(n: nat)
    ensures
        encode_utf8(decimal_chars(n)).len() > 0,
        all_digits(encode_utf8(decimal_chars(n))),
        digits_value(encode_utf8(decimal_chars(n))) == n,
    decreases n,
{
    let cs = decimal_chars(n);
    lemma_decimal_chars_digits(n);
    assert(is_ascii_chars(cs));
    is_ascii_chars_encode_utf8(cs);
    let bs = encode_utf8(cs);
    assert(all_digits(bs)) by {
        assert forall|i: int| 0 <= i < bs.len() implies is_digit_byte(#[trigger] bs[i]) by {
            assert(bs[i] == cs[i] as u8);
        }
    }
    if n >= 10 {
        let prev = decimal_chars(n / 10);
        lemma_decimal_bytes(n / 10);
        lemma_decimal_chars_digits(n / 10);
        assert(is_ascii_chars(prev));
        is_ascii_chars_encode_utf8(prev);
        assert(cs == prev.push(digit_char((n % 10) as int)));
        assert(bs.drop_last() =~= encode_utf8(prev)) by {
            assert forall|i: int| 0 <= i < prev.len() implies bs[i] == encode_utf8(prev)[i] by {
                assert(cs[i] == prev[i]);
            }
        }
        assert(bs.last() == cs.last() as u8);
        assert(cs.last() == digit_char((n % 10) as int));
        assert(bs.last() == (n % 10) + 48);
        assert(digits_value(bs) == digits_value(bs.drop_last()) * 10 + (bs.last() - 0x30));
        assert(digits_value(bs.drop_last()) == n / 10);
        assert((n / 10) * 10 + n % 10 == n);
        assert(digits_value(bs) == n);
    } else {
        assert(bs.drop_last() =~= Seq::<u8>::empty());
        assert(bs.last() == cs.last() as u8);
        assert(bs.last() == n + 48);
        assert(digits_value(bs) == digits_value(bs.drop_last()) * 10 + (bs.last() - 0x30));
        assert(digits_value(bs) == n);
    }
}

/// The text written for a year is read back as that year: parsing the signed
/// decimal form of `year` gives `year`.
pub proof fn lemma_gyear_text_read_back(year: i32)
    ensures
        spec_parse_i32(encode_utf8(signed_decimal_chars(year as int))) == Some(year),
{
    let cs = signed_decimal_chars(year as int);
    let m: nat = if year < 0 {
        (-year) as nat
    } else {
        year as nat
    };
    let ds = decimal_chars(m);
    lemma_decimal_chars_digits(m);
    lemma_decimal_bytes(m);
    assert(is_ascii_chars(cs));
    is_ascii_chars_encode_utf8(cs);
    is_ascii_chars_encode_utf8(ds);
    let bs = encode_utf8(cs);
    if year < 0 {
        assert(cs == seq!['-'] + ds);
        assert(bs[0] == 0x2D);
        assert(bs.drop_first() =~= encode_utf8(ds)) by {
            assert forall|i: int| 0 <= i < ds.len() implies bs.drop_first()[i] == encode_utf8(ds)[i] by {
                assert(cs[i + 1] == ds[i]);
            }
        }
    } else {
        assert(cs == ds);
        assert(bs[0] == ds[0] as u8);
    }
}

/// Parses the bytes of `s` as `str::parse::<i32>` does.
pub fn parse_i32(s: &str) -> (r: Option<i32>)
    ensures
        r == spec_parse_i32(encode_utf8(s@)),
{
    let bytes = s.as_bytes();
    let n = bytes.len();
    if n == 0 {
        return None;
    }
    let negative = bytes[0] == 0x2D;
    let start: usize = if bytes[0] == 0x2D || bytes[0] == 0x2B {
        1
    } else {
        0
    };
    let ghost digits = if start == 1 {
        bytes@.drop_first()
    } else {
        bytes@
    };
    assert(digits =~= bytes@.subrange(start as int, n as int));
    if start == n {
        return None;
    }
    // `acc` is the value of the digits read so far, capped at 2^31 + 1.
    let cap: u64 = 0x8000_0001;
    let mut acc: u64 = 0;
    let mut i: usize = start;
    while i < n
        invariant
            n == bytes@.len(),
            n > 0,
            bytes@ == encode_utf8(s@),
            start == 1 <==> (bytes@[0] == 0x2D || bytes@[0] == 0x2B),
            negative == (bytes@[0] == 0x2D),
            start <= i <= n,
            start <= 1,
            cap == 0x8000_0001,
            digits == bytes@.subrange(start as int, n as int),
            all_digits(bytes@.subrange(start as int, i as int)),
            digits_value(bytes@.subrange(start as int, i as int)) >= 0,
            acc <= cap,
            acc < cap ==> acc == digits_value(bytes@.subrange(start as int, i as int)),
            acc == cap ==> digits_value(bytes@.subrange(start as int, i as int)) >= cap,
        decreases n - i,
    {
        let b = bytes[i];
        let ghost prefix = bytes@.subrange(start as int, i as int);
        let ghost next = bytes@.subrange(start as int, i + 1);
        assert(next.drop_last() =~= prefix);
        assert(next.last() == b);
        if b < 0x30 || b > 0x39 {
            assert(digits[i - start] == b);
            assert(!all_digits(digits));
            return None;
        }
        let d: u64 = (b - 0x30) as u64;
        assert(digits_value(next) == digits_value(prefix) * 10 + d);
        if acc < cap {
            let v = acc * 10 + d;
            acc = if v < cap {
                v
            } else {
                cap
            };
        }
        assert(all_digits(next)) by {
            assert forall|k: int| 0 <= k < next.len() implies is_digit_byte(#[trigger] next[k]) by {
                if k < prefix.len() {
                    assert(next[k] == prefix[k]);
                }
            }
        }
        i = i + 1;
    }
    assert(bytes@.subrange(start as int, n as int) == digits);
    if negative {
        if acc <= 0x8000_0000 {
            let v: i64 = -(acc as i64);
            Some(v as i32)
        } else {
            None
        }
    } else {
        if acc <= 0x7FFF_FFFF {
            Some(acc as i32)
        } else {
            None
        }
    }
}

/// A year, held as an `i32`.
///
/// This is not a strict XML Schema gYear: years of fewer than four digits are
/// not padded with zeroes, and no timezone can be given.
#[derive(Clone, Copy, Debug, PartialEq, Eq, Hash)]
pub struct GYearLiteral(i32);

impl View for GYearLiteral {
    type V = i32;

    /// The year.
    closed spec fn view(&self) -> i32 {
        self.0
    }
}

impl GYearLiteral {
    /// Create a new `GYearLiteral` from a `str`. The `str` must parse as an
    /// `i32` or an `InvalidGYear` error carrying the value is returned.
    pub fn try_from_str(value: &str) -> (r: Result<GYearLiteral, RdfTrigError>)
        ensures
            match spec_parse_i32(encode_utf8(value@)) {
                Some(y) => r matches Ok(g) && g@ == y,
                None => r matches Err(RdfTrigError::InvalidGYear(s)) && s@ == value@,
            },
    {
        match parse_i32(value) {
            Some(year) => Ok(GYearLiteral(year)),
            None => Err(RdfTrigError::InvalidGYear(value.to_owned())),
        }
    }

    /// The year of this literal.
    pub fn year(&self) -> (y: i32)
        ensures
            y == self@,
    {
        self.0
    }
}

impl From<i32> for GYearLiteral {
    fn from(value: i32) -> (g: GYearLiteral)
        ensures
            g@ == value,
    {
        GYearLiteral(value)
    }
}

impl FromSpecImpl<i32> for GYearLiteral {
    open spec fn obeys_from_spec() -> bool {
        true
    }

    closed spec fn from_spec(v: i32) -> GYearLiteral {
        GYearLiteral(v)
    }
}

/// The N-Quads bytes of a gYear literal: the year as written by `i32`'s
/// `Display`, quoted and typed.
pub open spec fn gyear_nquads(year: i32) -> Seq<u8> {
    encode_utf8("\""@) + encode_utf8(signed_decimal_chars(year as int)) + encode_utf8(
        "\"^^<http://www.w3.org/2001/XMLSchema#gYear>"@,
    )
}

/// The TriG bytes of a gYear literal, typed with the `xsd` prefix.
pub open spec fn gyear_trig(year: i32) -> Seq<u8> {
    encode_utf8("\""@) + encode_utf8(signed_decimal_chars(year as int)) + encode_utf8(
        "\"^^xsd:gYear"@,
    )
}

fn write_year(writer: &mut Vec<u8>, year: i32)
    ensures
        final(writer)@ == old(writer)@ + encode_utf8(signed_decimal_chars(year as int)),
{
    let mut text = String::new();
    push_signed_decimal(&mut text, year);
    assert(text@ =~= signed_decimal_chars(year as int));
    write_str(writer, text.as_str());
}

impl WriteNQuads for GYearLiteral {
    open spec fn nquads(&self) -> Seq<u8> {
        gyear_nquads(self@)
    }

    fn write_nquads(&self, writer: &mut Vec<u8>) {
        write_str(writer, "\"");
        write_year(writer, self.0);
        write_str(writer, "\"^^<http://www.w3.org/2001/XMLSchema#gYear>");
        assert(writer@ =~= old(writer)@ + gyear_nquads(self@));
    }
}

impl WriteTriG for GYearLiteral {
    open spec fn trig(&self) -> Seq<u8> {
        gyear_trig(self@)
    }

    fn write_trig(&self, writer: &mut Vec<u8>) {
        write_str(writer, "\"");
        write_year(writer, self.0);
        write_str(writer, "\"^^xsd:gYear");
        assert(writer@ =~= old(writer)@ + gyear_trig(self@));
    }
}

} // verus!
