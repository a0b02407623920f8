//! Character-level encodings used in URLs: decimal numbers and
//! percent-encoded path segments.

use vstd::prelude::*;
use vstd::string::StringSliceAdditionalSpecFns;
use vstd::utf8::encode_utf8;

verus! {

/// Characters of a path segment that are kept as they are: the unreserved
/// characters of RFC 3986 (letters, digits, `-`, `.`, `_` and `~`).
pub open spec fn is_unreserved(b: u8) -> bool {
    (0x41 <= b <= 0x5a) || (0x61 <= b <= 0x7a) || (0x30 <= b <= 0x39) || b == 0x2d || b == 0x2e
        || b == 0x5f || b == 0x7e
}

/// The upper-case hexadecimal digit for a value below 16.
pub open spec fn hex_digit(d: u8) -> char {
    if d < 10 {
        (d + 0x30) as char
    } else {
        (d + 0x37) as char
    }
}

/// `%` followed by the two upper-case hexadecimal digits of a byte.
pub open spec fn percent_byte(b: u8) -> Seq<char> {
    seq!['%', hex_digit(b / 16), hex_digit(b % 16)]
}

/// A byte string as it stands in a URL path segment: unreserved bytes as
/// characters, every other byte percent-encoded.
pub open spec fn encode_segment(bytes: Seq<u8>) -> Seq<char>
    decreases bytes.len(),
{
    if bytes.len() == 0 {
        seq![]
    } else {
        let b = bytes.last();
        encode_segment(bytes.drop_last()) + if is_unreserved(b) {
            seq![b as char]
        } else {
            percent_byte(b)
        }
    }
}

/// A path parameter as it stands in a URL path: its UTF-8 bytes encoded.
pub open spec fn encoded(segment: Seq<char>) -> Seq<char> {
    encode_segment(encode_utf8(segment))
}

/// The decimal digit for a value below 10.
pub open spec fn decimal_digit(d: nat) -> char {
    (d + 0x30) as char
}

/// The decimal notation of a natural number, without leading zeros.
pub open spec fn decimal(n: nat) -> Seq<char>
    decreases n,
{
    if n < 10 {
        seq![decimal_digit(n)]
    } else {
        decimal(n / 10).push(decimal_digit(n % 10))
    }
}

/// Relies on std's `String::push`: the character is appended at the end.
#[verifier::external_body]
fn push_char(s: &mut String, c: char)
    ensures
        final(s)@ == old(s)@.push(c),
{
    s.push(c)
}

fn hex_char(d: u8) -> (c: char)
    requires
        d < 16,
    ensures
        c == hex_digit(d),
{
    if d < 10 {
        (d + 0x30) as char
    } else {
        (d + 0x37) as char
    }
}

/// Percent-encodes one path parameter so that it stands as a single path
/// segment: its UTF-8 bytes are kept where unreserved and written `%XX`
/// otherwise.
pub fn encode_path(segment: &str) -> (r: String)
    ensures
        r@ == encoded(segment@),
{
    let bytes = segment.as_bytes();
    let mut out = String::new();
    let mut i: usize = 0;
    while i < bytes.len()
        invariant
            i <= bytes@.len(),
            bytes@ == segment.spec_bytes(),
            out@ == encode_segment(bytes@.take(i as int)),
        decreases bytes@.len() - i,
    {
        let b = bytes[i];
        proof {
            assert(bytes@.take(i + 1).drop_last() == bytes@.take(i as int));
        }
        if (0x41 <= b && b <= 0x5a) || (0x61 <= b && b <= 0x7a) || (0x30 <= b && b <= 0x39) || b
            == 0x2d || b == 0x2e || b == 0x5f || b == 0x7e {
            push_char(&mut out, b as char);
        } else {
            push_char(&mut out, '%');
            push_char(&mut out, hex_char(b / 16));
            push_char(&mut out, hex_char(b % 16));
        }
        proof {
            assert(out@ =~= encode_segment(bytes@.take(i + 1)));
        }
        i = i + 1;
    }
    proof {
        assert(bytes@.take(bytes@.len() as int) == bytes@);
    }
    out
}

/// `prefix`, then the encoded parameter.
pub fn path_with(prefix: &str, param: &str) -> (r: String)
    ensures
        r@ == prefix@ + encoded(param@),
{
    let mut path = prefix.to_owned();
    path.append(encode_path(param).as_str());
    path
}

/// `prefix`, the first encoded parameter, `middle`, then the second encoded
/// parameter.
pub fn path_with2(prefix: &str, first: &str, middle: &str, second: &str) -> (r: String)
    ensures
        r@ == prefix@ + encoded(first@) + middle@ + encoded(second@),
{
    let mut path = path_with(prefix, first);
    path.append(middle);
    path.append(encode_path(second).as_str());
    path
}

fn append_decimal(out: &mut String, n: u64)
    ensures
        final(out)@ == old(out)@ + decimal(n as nat),
    decreases n,
{
    if n >= 10 {
        append_decimal(out, n / 10);
    }
    push_char(out, ((n % 10) as u8 + 0x30) as char);
    proof {
        assert(final(out)@ =~= old(out)@ + decimal(n as nat));
    }
}

/// The decimal notation of `n`, as query parameters carry numbers.
pub fn decimal_string(n: u64) -> (r: String)
    ensures
        r@ == decimal(n as nat),
{
    let mut out = String::new();
    append_decimal(&mut out, n);
    proof {
        assert(out@ =~= decimal(n as nat));
    }
    out
}

} // verus!
