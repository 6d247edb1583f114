//! Byte-level helpers shared by the writers: copying the UTF-8 bytes of a
//! string into an output buffer, and the two escaping schemes of TriG
//! (string literals and local names).
use vstd::prelude::*;
use vstd::utf8::{encode_scalar, encode_utf8, encode_utf8_decode_utf8};

verus! {

/// The letter that follows a backslash when `b` is escaped inside a string
/// literal, or `0` when `b` is written as it is.
pub open spec fn literal_escape_symbol(b: u8) -> u8 {
    if b == 0x08 {
        0x62  // 'b'
    } else if b == 0x0C {
        0x66  // 'f'
    } else if b == 0x09 {
        0x74  // 't'
    } else if b == 0x0A {
        0x6E  // 'n'
    } else if b == 0x0D {
        0x72  // 'r'
    } else if b == 0x22 {
        0x22  // '"'
    } else if b == 0x27 {
        0x27  // '\''
    } else if b == 0x5C {
        0x5C  // '\\'
    } else {
        0
    }
}

/// What one input byte becomes inside an escaped string literal.
pub open spec fn literal_piece(b: u8) -> Seq<u8> {
    if literal_escape_symbol(b) != 0 {
        seq![0x5Cu8, literal_escape_symbol(b)]
    } else {
        seq![b]
    }
}

/// The escaped form of a string literal's bytes: every byte replaced by its
/// piece, in order.
pub open spec fn escape_literal(bytes: Seq<u8>) -> Seq<u8>
    decreases bytes.len(),
{
    if bytes.len() == 0 {
        Seq::empty()
    } else {
        escape_literal(bytes.drop_last()) + literal_piece(bytes.last())
    }
}

/// Encoding two character sequences one after the other gives the bytes of
/// each, in order.
pub proof fn lemma_encode_utf8_concat(a: Seq<char>, b: Seq<char>)
    ensures
        encode_utf8(a + b) == encode_utf8(a) + encode_utf8(b),
    decreases a.len(),
{
    if a.len() == 0 {
        assert(a + b =~= b);
        assert(encode_utf8(a) + encode_utf8(b) =~= encode_utf8(b));
    } else {
        lemma_encode_utf8_concat(a.drop_first(), b);
        assert((a + b).drop_first() =~= a.drop_first() + b);
        assert((a + b)[0] == a[0]);
        let head = encode_scalar(a[0] as u32);
        assert(encode_utf8(a + b) == head + encode_utf8(a.drop_first() + b));
        assert(encode_utf8(a) == head + encode_utf8(a.drop_first()));
        assert(head + (encode_utf8(a.drop_first()) + encode_utf8(b)) =~= (head + encode_utf8(
            a.drop_first(),
        )) + encode_utf8(b));
    }
}

/// Whether `b` is one of the eight bytes escaped inside a string literal:
/// backspace, form feed, tab, line feed, carriage return, `"`, `'` and `\`.
pub open spec fn is_literal_escaped_byte(b: u8) -> bool {
    b == 0x08 || b == 0x0C || b == 0x09 || b == 0x0A || b == 0x0D || b == 0x22 || b == 0x27
        || b == 0x5C
}

/// Inside a string literal exactly eight bytes are escaped, each as a
/// backslash followed by the character that names it (`\b`, `\f`, `\t`,
/// `\n`, `\r`, `\"`, `\'` and `\\`); every other byte, such as `/`, is
/// copied as it is.
pub proof fn lemma_literal_escapes(b: u8)
    ensures
        b == 0x08 ==> literal_piece(b) == seq![0x5Cu8, 0x62u8],
        b == 0x0C ==> literal_piece(b) == seq![0x5Cu8, 0x66u8],
        b == 0x09 ==> literal_piece(b) == seq![0x5Cu8, 0x74u8],
        b == 0x0A ==> literal_piece(b) == seq![0x5Cu8, 0x6Eu8],
        b == 0x0D ==> literal_piece(b) == seq![0x5Cu8, 0x72u8],
        b == 0x22 ==> literal_piece(b) == seq![0x5Cu8, 0x22u8],
        b == 0x27 ==> literal_piece(b) == seq![0x5Cu8, 0x27u8],
        b == 0x5C ==> literal_piece(b) == seq![0x5Cu8, 0x5Cu8],
        !is_literal_escaped_byte(b) ==> literal_piece(b) == seq![b],
{
}

/// A string holding none of the eight escaped bytes is written inside a
/// literal exactly as it is.
pub proof fn lemma_plain_literal_unchanged(bytes: Seq<u8>)
    requires
        forall|i: int| 0 <= i < bytes.len() ==> !is_literal_escaped_byte(#[trigger] bytes[i]),
    ensures
        escape_literal(bytes) == bytes,
    decreases bytes.len(),
{
    if bytes.len() > 0 {
        lemma_plain_literal_unchanged(bytes.drop_last());
        lemma_literal_escapes(bytes.last());
        assert(bytes.drop_last().push(bytes.last()) =~= bytes);
    }
}

/// The bytes that must be preceded by a backslash in a local name:
/// `~.-!$&'()*+,;=/?#@%_`.
pub open spec fn is_local_escape_byte(b: u8) -> bool {
    b == 0x7E || b == 0x2E || b == 0x2D || b == 0x21 || b == 0x24 || b == 0x26
        || b == 0x27 || b == 0x28 || b == 0x29 || b == 0x2A || b == 0x2B || b == 0x2C
        || b == 0x3B || b == 0x3D || b == 0x2F || b == 0x3F || b == 0x23 || b == 0x40
        || b == 0x25 || b == 0x5F
}

/// What one input byte becomes inside an escaped local name: line breaks
/// (`\n` and `\r`) are dropped, and the bytes above are escaped.
pub open spec fn local_piece(b: u8) -> Seq<u8> {
    if b == 0x0A || b == 0x0D {
        Seq::empty()
    } else if is_local_escape_byte(b) {
        seq![0x5Cu8, b]
    } else {
        seq![b]
    }
}

/// The escaped form of a local name's bytes.
pub open spec fn escape_local(bytes: Seq<u8>) -> Seq<u8>
    decreases bytes.len(),
{
    if bytes.len() == 0 {
        Seq::empty()
    } else {
        escape_local(bytes.drop_last()) + local_piece(bytes.last())
    }
}

/// Inside a local name (a blank node's label, a prefix) line feeds and
/// carriage returns are dropped; each of the twenty bytes
/// `~ . - ! $ & ' ( ) * + , ; = / ? # @ % _` is written after a backslash;
/// every other byte, such as a letter, a digit or `:`, is copied as it is.
pub proof fn lemma_local_escapes(b: u8)
    ensures
        (b == 0x0A || b == 0x0D) ==> local_piece(b) == Seq::<u8>::empty(),
        (b == 0x7E || b == 0x2E || b == 0x2D || b == 0x21 || b == 0x24 || b == 0x26 || b == 0x27
            || b == 0x28 || b == 0x29 || b == 0x2A || b == 0x2B || b == 0x2C || b == 0x3B || b
            == 0x3D || b == 0x2F || b == 0x3F || b == 0x23 || b == 0x40 || b == 0x25 || b == 0x5F)
            ==> local_piece(b) == seq![0x5Cu8, b],
        (0x30 <= b <= 0x39 || 0x41 <= b <= 0x5A || 0x61 <= b <= 0x7A || b == 0x3A || b >= 0x80)
            ==> local_piece(b) == seq![b],
{
}

/// A local name of letters, digits, `:` and non-ASCII bytes is written as it
/// is.
pub proof fn lemma_plain_local_unchanged(bytes: Seq<u8>)
    requires
        forall|i: int|
            0 <= i < bytes.len() ==> {
                let b = #[trigger] bytes[i];
                0x30 <= b <= 0x39 || 0x41 <= b <= 0x5A || 0x61 <= b <= 0x7A || b == 0x3A || b
                    >= 0x80
            },
    ensures
        escape_local(bytes) == bytes,
    decreases bytes.len(),
{
    if bytes.len() > 0 {
        lemma_plain_local_unchanged(bytes.drop_last());
        lemma_local_escapes(bytes.last());
        assert(bytes.drop_last().push(bytes.last()) =~= bytes);
    }
}

fn literal_symbol(b: u8) -> (s: u8)
    ensures
        s == literal_escape_symbol(b),
{
    if b == 0x08 {
        0x62
    } else if b == 0x0C {
        0x66
    } else if b == 0x09 {
        0x74
    } else if b == 0x0A {
        0x6E
    } else if b == 0x0D {
        0x72
    } else if b == 0x22 {
        0x22
    } else if b == 0x27 {
        0x27
    } else if b == 0x5C {
        0x5C
    } else {
        0
    }
}

fn local_needs_escape(b: u8) -> (r: bool)
    ensures
        r == is_local_escape_byte(b),
{
    b == 0x7E || b == 0x2E || b == 0x2D || b == 0x21 || b == 0x24 || b == 0x26
        || b == 0x27 || b == 0x28 || b == 0x29 || b == 0x2A || b == 0x2B || b == 0x2C
        || b == 0x3B || b == 0x3D || b == 0x2F || b == 0x3F || b == 0x23 || b == 0x40
        || b == 0x25 || b == 0x5F
}

/// Appends the bytes of `bytes` to `writer`.
pub fn write_bytes(writer: &mut Vec<u8>, bytes: &[u8])
    ensures
        final(writer)@ == old(writer)@ + bytes@,
{
    let n = bytes.len();
    let mut i: usize = 0;
    while i < n
        invariant
            n == bytes@.len(),
            i <= n,
            writer@ == old(writer)@ + bytes@.take(i as int),
        decreases n - i,
    {
        writer.push(bytes[i]);
        i = i + 1;
        assert(bytes@.take(i as int) =~= bytes@.take(i - 1).push(bytes@[i - 1]));
    }
    assert(bytes@.take(n as int) =~= bytes@);
}

/// Appends the UTF-8 encoding of `s` to `writer`.
pub fn write_str(writer: &mut Vec<u8>, s: &str)
    ensures
        final(writer)@ == old(writer)@ + encode_utf8(s@),
{
    write_bytes(writer, s.as_bytes());
}

/// Writes `input` to `writer` with every byte that cannot stand in a TriG
/// string literal replaced by its backslash escape (`\b`, `\f`, `\t`, `\n`,
/// `\r`, `\"`, `\'` and `\\`).
pub fn write_escaped_literal(writer: &mut Vec<u8>, input: &str)
    ensures
        final(writer)@ == old(writer)@ + escape_literal(encode_utf8(input@)),
{
    let bytes = input.as_bytes();
    let n = bytes.len();
    let mut i: usize = 0;
    while i < n
        invariant
            n == bytes@.len(),
            bytes@ == encode_utf8(input@),
            i <= n,
            writer@ == old(writer)@ + escape_literal(bytes@.take(i as int)),
        decreases n - i,
    {
        let byte = bytes[i];
        let symbol = literal_symbol(byte);
        if symbol != 0 {
            writer.push(0x5C);
            writer.push(symbol);
        } else {
            writer.push(byte);
        }
        proof {
            let t = bytes@.take(i + 1);
            assert(t.drop_last() =~= bytes@.take(i as int));
            assert(t.last() == byte);
        }
        i = i + 1;
    }
    assert(bytes@.take(n as int) =~= bytes@);
}

/// Writes `input` to `writer` with a backslash before every byte that cannot
/// stand bare in a TriG local name (blank node labels, prefixes), leaving out
/// line breaks.
pub fn write_escaped_local_name(writer: &mut Vec<u8>, input: &str)
    ensures
        final(writer)@ == old(writer)@ + escape_local(encode_utf8(input@)),
{
    let bytes = input.as_bytes();
    let n = bytes.len();
    let mut i: usize = 0;
    while i < n
        invariant
            n == bytes@.len(),
            bytes@ == encode_utf8(input@),
            i <= n,
            writer@ == old(writer)@ + escape_local(bytes@.take(i as int)),
        decreases n - i,
    {
        let byte = bytes[i];
        if byte != 0x0A && byte != 0x0D {
            if local_needs_escape(byte) {
                writer.push(0x5C);
            }
            writer.push(byte);
        }
        proof {
            let t = bytes@.take(i + 1);
            assert(t.drop_last() =~= bytes@.take(i as int));
            assert(t.last() == byte);
        }
        i = i + 1;
    }
    assert(bytes@.take(n as int) =~= bytes@);
}


/// The decimal digit `d` (`0 <= d < 10`) as a character.
pub open spec fn digit_char(d: int) -> char {
    (d + 48) as char
}

/// The decimal representation of `n`, without leading zeroes (`0` for zero).
pub open spec fn decimal_chars(n: nat) -> Seq<char>
    decreases n,
{
    if n < 10 {
        seq![digit_char(n as int)]
    } else {
        decimal_chars(n / 10).push(digit_char((n % 10) as int))
    }
}

/// The decimal representation of a signed integer: a `-` before the digits of
/// a negative value.
pub open spec fn signed_decimal_chars(v: int) -> Seq<char> {
    if v < 0 {
        seq!['-'] + decimal_chars((-v) as nat)
    } else {
        decimal_chars(v as nat)
    }
}

/// Appends `c` to `s` (std's `String::push`, whose effect vstd does not
/// state): the string's characters afterwards are the old ones followed by
/// `c`.
#[verifier::external_body]
pub(crate) fn push_char(s: &mut String, c: char)
    ensures
        final(s)@ == old(s)@.push(c),
{
    s.push(c);
}

fn digit(d: u64) -> (c: char)
    requires
        d < 10,
    ensures
        c == digit_char(d as int),
{
    match d {
        0 => '0',
        1 => '1',
        2 => '2',
        3 => '3',
        4 => '4',
        5 => '5',
        6 => '6',
        7 => '7',
        8 => '8',
        _ => '9',
    }
}

/// Appends the decimal digits of `n` to `s`.
pub fn push_decimal(s: &mut String, n: u64)
    ensures
        final(s)@ == old(s)@ + decimal_chars(n as nat),
    decreases n,
{
    if n >= 10 {
        push_decimal(s, n / 10);
    }
    push_char(s, digit(n % 10));
    assert(final(s)@ =~= old(s)@ + decimal_chars(n as nat)) by {
        if n >= 10 {
            assert(decimal_chars(n as nat) == decimal_chars((n / 10) as nat).push(
                digit_char((n % 10) as int),
            ));
        }
    }
}

/// Appends the decimal representation of `v` to `s`, with a leading `-` when
/// `v` is negative.
pub fn push_signed_decimal(s: &mut String, v: i32)
    ensures
        final(s)@ == old(s)@ + signed_decimal_chars(v as int),
{
    if v < 0 {
        push_char(s, '-');
        let magnitude: i64 = -(v as i64);
        push_decimal(s, magnitude as u64);
        assert(final(s)@ =~= old(s)@ + signed_decimal_chars(v as int));
    } else {
        push_decimal(s, v as u64);
    }
}

/// Whether two strings hold the same characters.
pub fn str_equals(a: &str, b: &str) -> (r: bool)
    ensures
        r == (a@ == b@),
{
    let x = a.as_bytes();
    let y = b.as_bytes();
    proof {
        encode_utf8_decode_utf8(a@);
        encode_utf8_decode_utf8(b@);
    }
    if x.len() != y.len() {
        assert(x@ != y@);
        return false;
    }
    let n = x.len();
    let mut i: usize = 0;
    while i < n
        invariant
            n == x@.len(),
            n == y@.len(),
            x@ == encode_utf8(a@),
            y@ == encode_utf8(b@),
            i <= n,
            forall|k: int| 0 <= k < i ==> x@[k] == y@[k],
        decreases n - i,
    {
        if x[i] != y[i] {
            assert(x@[i as int] != y@[i as int]);
            return false;
        }
        i = i + 1;
    }
    assert(x@ =~= y@);
    true
}

} // verus!
