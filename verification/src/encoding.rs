//! Base64 encoding of binary payloads, behind named, trusted entry points of
//! the `base64` crate.

use base64::Engine;
use vstd::prelude::*;

verus! {

/// The standard (RFC 4648, padded) base64 encoding of a byte sequence.
/// Uninterpreted: the encoding is a pure function of the bytes, computed by
/// the `base64` crate.
pub uninterp spec fn base64_of(bytes: Seq<u8>) -> Seq<char>;

/// Inputs longer than this could overflow the encoder's output-size
/// computation; every real payload is far below it.
pub const MAX_BASE64_INPUT_LEN: usize = 0x3fff_ffff;

/// Relies on `base64::engine::Engine::encode` with the standard padded
/// alphabet: the encoding is a pure function of the input bytes.
#[verifier::external_body]
pub(crate) fn base64_encode(bytes: &Vec<u8>) -> (r: String)
    requires
        bytes@.len() <= MAX_BASE64_INPUT_LEN,
    ensures
        r@ == base64_of(bytes@),
{
    base64::engine::general_purpose::STANDARD.encode(bytes)
}

/// Relies on `base64::engine::Engine::decode` with the standard padded
/// alphabet: decoding the encoding of any byte sequence gives those bytes
/// back.
#[verifier::external_body]
pub(crate) fn base64_decode(s: &str) -> (r: Result<Vec<u8>, String>)
    ensures
        forall|b: Seq<u8>| s@ == #[trigger] base64_of(b) ==> r is Ok && r->Ok_0@ == b,
{
    base64::engine::general_purpose::STANDARD.decode(s).map_err(|e| e.to_string())
}

/// Characters stripped from both ends of a binary-octet token.
pub open spec fn is_space_char(c: char) -> bool {
    c == ' ' || c == '\t' || c == '\n' || c == '\r'
}

/// A binary digit.
pub open spec fn is_bin_digit(c: char) -> bool {
    c == '0' || c == '1'
}

/// The token with its leading whitespace stripped.
pub open spec fn spec_trim_start(t: Seq<char>) -> Seq<char>
    decreases t.len(),
{
    if t.len() > 0 && is_space_char(t[0]) {
        spec_trim_start(t.skip(1))
    } else {
        t
    }
}

/// The token with its trailing whitespace stripped.
pub open spec fn spec_trim_end(t: Seq<char>) -> Seq<char>
    decreases t.len(),
{
    if t.len() > 0 && is_space_char(t.last()) {
        spec_trim_end(t.drop_last())
    } else {
        t
    }
}

/// The token with whitespace stripped from both ends.
pub open spec fn spec_trim(t: Seq<char>) -> Seq<char> {
    spec_trim_end(spec_trim_start(t))
}

/// All characters are binary digits.
pub open spec fn all_bin_digits(t: Seq<char>) -> bool {
    forall|i: int| 0 <= i < t.len() ==> is_bin_digit(#[trigger] t[i])
}

/// The numeric value of a sequence of binary digits.
pub open spec fn bin_val(t: Seq<char>) -> int
    decreases t.len(),
{
    if t.len() == 0 {
        0
    } else {
        bin_val(t.drop_last()) * 2 + (if t.last() == '1' {
            1int
        } else {
            0int
        })
    }
}

/// The byte a trimmed token stands for: an optional `+` sign, then binary
/// digits whose value fits a byte. Anything else (an empty token, a stray
/// character, a value past 255) is no byte at all.
pub open spec fn parse_octet(t: Seq<char>) -> Option<u8> {
    let u = if t.len() > 0 && t[0] == '+' {
        t.skip(1)
    } else {
        t
    };
    if u.len() > 0 && all_bin_digits(u) && bin_val(u) < 256 {
        Some(bin_val(u) as u8)
    } else {
        None
    }
}

/// The bytes a trimmed token contributes: one or none.
pub open spec fn opt_octet(t: Seq<char>) -> Seq<u8> {
    match parse_octet(spec_trim(t)) {
        Some(b) => seq![b],
        None => Seq::<u8>::empty(),
    }
}

/// The bytes contributed by the rest of the text, with `cur` holding the
/// characters of the token read so far: tokens are separated by commas,
/// trimmed, and parsed; tokens that are no octet are skipped.
pub open spec fn spec_octets(s: Seq<char>, cur: Seq<char>) -> Seq<u8>
    decreases s.len(),
{
    if s.len() == 0 {
        opt_octet(cur)
    } else if s[0] == ',' {
        opt_octet(cur) + spec_octets(s.skip(1), Seq::<char>::empty())
    } else {
        spec_octets(s.skip(1), cur.push(s[0]))
    }
}

/// The bytes encoded by a comma-separated list of binary octets.
pub open spec fn spec_binary_bytes(s: Seq<char>) -> Seq<u8> {
    spec_octets(s, Seq::<char>::empty())
}

/// Whether a character is token whitespace.
fn is_space(c: char) -> (r: bool)
    ensures
        r == is_space_char(c),
{
    c == ' ' || c == '\t' || c == '\n' || c == '\r'
}

/// Parse one token: trim it, then read it as a binary octet.
fn parse_octet_chars(cur: &Vec<char>) -> (r: Option<u8>)
    ensures
        r == parse_octet(spec_trim(cur@)),
{
    let ghost full = cur@;
    // Strip leading whitespace.
    let mut lo: usize = 0;
    proof {
        assert(full.skip(0) =~= full);
    }
    while lo < cur.len() && is_space(cur[lo])
        invariant
            lo <= full.len(),
            full == cur@,
            spec_trim_start(full) == spec_trim_start(full.skip(lo as int)),
        decreases full.len() - lo as int,
    {
        proof {
            assert(full.skip(lo as int).skip(1) =~= full.skip(lo as int + 1));
        }
        lo = lo + 1;
    }
    proof {
        assert(spec_trim_start(full) == full.skip(lo as int));
    }
    // Strip trailing whitespace.
    let ghost started = full.skip(lo as int);
    let mut hi: usize = cur.len();
    proof {
        assert(started.subrange(0, hi - lo) =~= started);
    }
    while hi > lo && is_space(cur[hi - 1])
        invariant
            lo <= hi <= full.len(),
            full == cur@,
            started == full.skip(lo as int),
            spec_trim_end(started) == spec_trim_end(started.subrange(0, hi - lo)),
        decreases hi,
    {
        proof {
            let w = started.subrange(0, hi - lo);
            assert(w.last() == full[hi - 1]);
            assert(w.drop_last() =~= started.subrange(0, hi - 1 - lo));
        }
        hi = hi - 1;
    }
    let ghost trimmed = started.subrange(0, hi - lo);
    proof {
        if hi > lo {
            assert(trimmed.last() == full[hi - 1]);
        }
        assert(spec_trim(full) == trimmed);
    }
    // An optional '+' sign.
    let mut pos: usize = lo;
    if pos < hi && cur[pos] == '+' {
        pos = pos + 1;
    }
    let ghost digits = full.subrange(pos as int, hi as int);
    proof {
        if trimmed.len() > 0 {
            assert(trimmed[0] == full[lo as int]);
        }
        if trimmed.len() > 0 && trimmed[0] == '+' {
            assert(digits =~= trimmed.skip(1));
        } else {
            assert(digits =~= trimmed);
        }
    }
    if pos == hi {
        // No digits at all.
        proof {
            assert(digits.len() == 0);
        }
        return None;
    }
    // Read the digits, tracking whether the value has outgrown a byte.
    let mut acc: u32 = 0;
    let mut i: usize = pos;
    while i < hi
        invariant
            pos <= i <= hi <= full.len(),
            full == cur@,
            spec_trim(full) == trimmed,
            digits == full.subrange(pos as int, hi as int),
            digits == (if trimmed.len() > 0 && trimmed[0] == '+' {
                trimmed.skip(1)
            } else {
                trimmed
            }),
            all_bin_digits(full.subrange(pos as int, i as int)),
            acc <= 511,
            bin_val(full.subrange(pos as int, i as int)) <= 255 ==> acc == bin_val(
                full.subrange(pos as int, i as int),
            ),
            bin_val(full.subrange(pos as int, i as int)) > 255 ==> acc > 255,
        decreases hi - i,
    {
        let c = cur[i];
        if c != '0' && c != '1' {
            proof {
                assert(digits[i as int - pos as int] == full[i as int]);
                assert(!all_bin_digits(digits));
            }
            return None;
        }
        let d: u32 = if c == '1' {
            1
        } else {
            0
        };
        if acc <= 255 {
            acc = acc * 2 + d;
        }
        proof {
            let prev = full.subrange(pos as int, i as int);
            let now = full.subrange(pos as int, i as int + 1);
            assert(now.drop_last() =~= prev);
            assert(now.last() == full[i as int]);
        }
        i = i + 1;
    }
    if acc <= 255 {
        Some(acc as u8)
    } else {
        None
    }
}

/// Append the byte a finished token stands for, if it stands for one.
fn push_octet(out: &mut Vec<u8>, cur: &Vec<char>)
    ensures
        final(out)@ == old(out)@ + opt_octet(cur@),
{
    match parse_octet_chars(cur) {
        Some(b) => {
            out.push(b);
            proof {
                assert(out@ =~= old(out)@ + opt_octet(cur@));
            }
        },
        None => {
            proof {
                assert(out@ =~= old(out)@ + opt_octet(cur@));
            }
        },
    }
}

/// Decode a comma-separated list of binary octets (`"01001000,01101001"`)
/// into the text those bytes spell. Tokens that are no binary octet are
/// skipped. The octets must be plain ASCII.
pub fn decode_binary_to_str(key: &str) -> (r: String)
    requires
        forall|i: int|
            0 <= i < spec_binary_bytes(key@).len() ==> #[trigger] spec_binary_bytes(key@)[i] < 128,
    ensures
        r@ == spec_binary_bytes(key@).map_values(|b: u8| b as char),
{
    let n = key.unicode_len();
    let mut out: Vec<u8> = Vec::new();
    let mut cur: Vec<char> = Vec::new();
    let mut i: usize = 0;
    proof {
        assert(key@.skip(0) =~= key@);
        assert(out@ + spec_octets(key@.skip(0), cur@) =~= spec_octets(key@, Seq::<char>::empty()));
    }
    while i < n
        invariant
            i <= n,
            n == key@.len(),
            spec_binary_bytes(key@) == out@ + spec_octets(key@.skip(i as int), cur@),
        decreases n - i,
    {
        let c = key.get_char(i);
        proof {
            assert(key@.skip(i as int)[0] == key@[i as int]);
            assert(key@.skip(i as int).skip(1) =~= key@.skip(i as int + 1));
        }
        if c == ',' {
            push_octet(&mut out, &cur);
            cur.clear();
            proof {
                assert(out@ + spec_octets(key@.skip(i as int + 1), cur@) =~= spec_binary_bytes(
                    key@,
                ));
            }
        } else {
            cur.push(c);
        }
        i = i + 1;
    }
    proof {
        assert(key@.skip(n as int) =~= Seq::<char>::empty());
    }
    push_octet(&mut out, &cur);
    proof {
        assert(out@ =~= spec_binary_bytes(key@));
    }
    // Spell the ASCII bytes out as text.
    let bytes = out;
    let mut r = String::new();
    let mut j: usize = 0;
    proof {
        assert(r@ =~= bytes@.subrange(0, 0).map_values(|b: u8| b as char));
    }
    while j < bytes.len()
        invariant
            j <= bytes@.len(),
            bytes@ == spec_binary_bytes(key@),
            forall|k: int|
                0 <= k < spec_binary_bytes(key@).len() ==> #[trigger] spec_binary_bytes(key@)[k]
                    < 128,
            r@ == bytes@.subrange(0, j as int).map_values(|b: u8| b as char),
        decreases bytes@.len() - j,
    {
        let b = bytes[j];
        crate::textfmt::push_char(&mut r, b as char);
        proof {
            assert(bytes@.subrange(0, j as int + 1).map_values(|b: u8| b as char) =~= bytes@
                .subrange(0, j as int).map_values(|b: u8| b as char) + seq![
                bytes@[j as int] as char,
            ]);
        }
        j = j + 1;
    }
    proof {
        assert(bytes@.subrange(0, bytes@.len() as int) =~= bytes@);
    }
    r
}

} // verus!
