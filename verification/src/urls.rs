//! Request URLs for the three lookup operations, with a verified
//! percent-encoding of the search term and a verified decimal rendering of
//! the identifier.

use vstd::prelude::*;
use vstd::string::StringExecFns;
use vstd::utf8::encode_utf8;
use crate::model::Defid;

verus! {

/// Whether a byte may stand unencoded in a URL query value: the unreserved
/// bytes of RFC 3986 (letters, digits, `-`, `.`, `_`, `~`).
pub open spec fn is_unreserved_byte(b: u8) -> bool {
    ||| 0x41 <= b <= 0x5a
    ||| 0x61 <= b <= 0x7a
    ||| 0x30 <= b <= 0x39
    ||| b == 0x2d
    ||| b == 0x2e
    ||| b == 0x5f
    ||| b == 0x7e
}

/// The upper-case hexadecimal digit for a value below 16.
pub open spec fn hex_digit(n: u8) -> u8 {
    if n < 10 {
        (n + 0x30) as u8
    } else {
        (n + 0x37) as u8
    }
}

/// How one byte is percent-encoded: kept as it is when unreserved, and
/// written `%XX` otherwise.
pub open spec fn encoded_byte(b: u8) -> Seq<u8> {
    if is_unreserved_byte(b) {
        seq![b]
    } else {
        seq![0x25u8, hex_digit((b / 16) as u8), hex_digit((b % 16) as u8)]
    }
}

/// The percent-encoding of a byte sequence, byte by byte in order.
pub open spec fn percent_encoded(bs: Seq<u8>) -> Seq<u8>
    decreases bs.len(),
{
    if bs.len() == 0 {
        Seq::empty()
    } else {
        percent_encoded(bs.drop_last()) + encoded_byte(bs.last())
    }
}

/// The decimal digits of an unsigned 64-bit integer, most significant first.
pub open spec fn decimal_digits(n: u64) -> Seq<u8>
    decreases n,
{
    if n < 10 {
        seq![(n + 0x30) as u8]
    } else {
        decimal_digits((n / 10) as u64) + seq![(n % 10 + 0x30) as u8]
    }
}

/// Every byte of a percent-encoded sequence is ASCII.
pub proof fn lemma_percent_encoded_ascii(bs: Seq<u8>)
    ensures
        forall|i: int| 0 <= i < percent_encoded(bs).len() ==> percent_encoded(bs)[i] < 0x80,
    decreases bs.len(),
{
    if bs.len() > 0 {
        lemma_percent_encoded_ascii(bs.drop_last());
        let pre = percent_encoded(bs.drop_last());
        let e = encoded_byte(bs.last());
        assert(hex_digit((bs.last() / 16) as u8) < 0x80);
        assert(hex_digit((bs.last() % 16) as u8) < 0x80);
        assert forall|i: int|
            0 <= i < percent_encoded(bs).len() implies percent_encoded(bs)[i] < 0x80 by {
            if i < pre.len() {
                assert(percent_encoded(bs)[i] == pre[i]);
            } else {
                assert(percent_encoded(bs)[i] == e[i - pre.len()]);
            }
        }
    }
}

/// Every decimal digit byte is ASCII.
pub proof fn lemma_decimal_digits_ascii(n: u64)
    ensures
        forall|i: int| 0 <= i < decimal_digits(n).len() ==> decimal_digits(n)[i] < 0x80,
    decreases n,
{
    if n >= 10 {
        assert(((n / 10) as u64) < n) by (nonlinear_arith)
            requires
                n >= 10,
        ;
        lemma_decimal_digits_ascii((n / 10) as u64);
        let pre = decimal_digits((n / 10) as u64);
        assert forall|i: int|
            0 <= i < decimal_digits(n).len() implies decimal_digits(n)[i] < 0x80 by {
            if i < pre.len() {
                assert(decimal_digits(n)[i] == pre[i]);
            } else {
                assert(decimal_digits(n)[i] == (n % 10 + 0x30) as u8);
            }
        }
    }
}

/// Relies on `String::from_utf8`: bytes below 0x80 are valid UTF-8 and
/// decode to the characters with the same code points.
#[verifier::external_body]
fn ascii_string(v: Vec<u8>) -> (r: String)
    requires
        forall|i: int| 0 <= i < v@.len() ==> v@[i] < 0x80,
    ensures
        r@ == v@.map_values(|b: u8| b as char),
{
    match String::from_utf8(v) {
        Ok(s) => s,
        Err(_) => String::new(),
    }
}

/// The hexadecimal digit, executably.
fn hex_digit_exec(n: u8) -> (r: u8)
    requires
        n < 16,
    ensures
        r == hex_digit(n),
{
    if n < 10 {
        n + 0x30
    } else {
        n + 0x37
    }
}

/// Percent-encode a byte sequence.
fn percent_encode_bytes(bs: &[u8]) -> (r: Vec<u8>)
    ensures
        r@ == percent_encoded(bs@),
{
    let mut out: Vec<u8> = Vec::new();
    let mut i: usize = 0;
    while i < bs.len()
        invariant
            i <= bs@.len(),
            out@ == percent_encoded(bs@.take(i as int)),
        decreases bs@.len() - i,
    {
        let b = bs[i];
        if (0x41 <= b && b <= 0x5a) || (0x61 <= b && b <= 0x7a) || (0x30 <= b && b <= 0x39)
            || b == 0x2d || b == 0x2e || b == 0x5f || b == 0x7e {
            out.push(b);
        } else {
            out.push(0x25);
            out.push(hex_digit_exec(b / 16));
            out.push(hex_digit_exec(b % 16));
        }
        proof {
            let t = bs@.take(i + 1 as int);
            assert(t.drop_last() =~= bs@.take(i as int));
            assert(t.last() == bs@[i as int]);
            assert(out@ =~= percent_encoded(t));
        }
        i = i + 1;
    }
    proof {
        assert(bs@.take(bs@.len() as int) =~= bs@);
    }
    out
}

/// Append the decimal digits of `n`, most significant first.
fn push_decimal(n: u64, out: &mut Vec<u8>)
    ensures
        final(out)@ == old(out)@ + decimal_digits(n),
    decreases n,
{
    if n >= 10 {
        proof {
            assert(((n / 10) as u64) < n) by (nonlinear_arith)
                requires
                    n >= 10,
            ;
        }
        push_decimal(n / 10, out);
    }
    out.push(0x30u8 + ((n % 10) as u8));
    proof {
        assert(final(out)@ =~= old(out)@ + decimal_digits(n));
    }
}

/// The characters of the lookup-by-term URL: the `define` endpoint with the
/// percent-encoded UTF-8 bytes of the term as the query value.
pub open spec fn term_url_chars(term: Seq<char>) -> Seq<char> {
    "https://api.urbandictionary.com/v0/define?term="@ + percent_encoded(encode_utf8(term)).map_values(
        |b: u8| b as char,
    )
}

/// The characters of the lookup-by-identifier URL: the `define` endpoint
/// with the identifier in decimal as the query value.
pub open spec fn defid_url_chars(id: u64) -> Seq<char> {
    "https://api.urbandictionary.com/v0/define?defid="@ + decimal_digits(id).map_values(
        |b: u8| b as char,
    )
}

/// Build the URL for a lookup by search term.
pub fn define_term_url(term: &str) -> (r: String)
    ensures
        r@ == term_url_chars(term@),
{
    let bytes = term.as_bytes();
    let enc = percent_encode_bytes(bytes);
    proof {
        lemma_percent_encoded_ascii(bytes@);
    }
    let enc_s = ascii_string(enc);
    let mut url = String::from_str("https://api.urbandictionary.com/v0/define?term=");
    url.append(enc_s.as_str());
    url
}

/// Build the URL for a lookup by identifier.
pub fn define_defid_url(id: Defid) -> (r: String)
    ensures
        r@ == defid_url_chars(id@),
{
    let mut digits: Vec<u8> = Vec::new();
    push_decimal(id.as_u64(), &mut digits);
    proof {
        lemma_decimal_digits_ascii(id@);
    }
    let digits_s = ascii_string(digits);
    let mut url = String::from_str("https://api.urbandictionary.com/v0/define?defid=");
    url.append(digits_s.as_str());
    url
}

/// Build the URL for a random lookup.
pub fn random_url() -> (r: String)
    ensures
        r@ == "https://api.urbandictionary.com/v0/random"@,
{
    String::from_str("https://api.urbandictionary.com/v0/random")
}

} // verus!
