//! Form encoding of request fields.
//!
//! Values sent in the capture request body use the
//! `application/x-www-form-urlencoded` encoding: unreserved characters pass
//! through, a space becomes `+`, and every other character is replaced by
//! the percent-encoding of its UTF-8 bytes with uppercase hex digits.

use vstd::prelude::*;
use vstd::utf8::encode_scalar;

verus! {

/// True for characters that the form encoding keeps as they are.
pub open spec fn spec_form_unreserved(c: char) -> bool {
    ||| 'A' <= c <= 'Z'
    ||| 'a' <= c <= 'z'
    ||| '0' <= c <= '9'
    ||| c == '*'
    ||| c == '-'
    ||| c == '.'
    ||| c == '_'
}

/// The uppercase hex digit for a value below 16.
pub open spec fn spec_hex_digit(n: u8) -> char
    recommends
        n < 16,
{
    if n < 10 {
        ((0x30 + n) as u8) as char
    } else {
        ((0x37 + n) as u8) as char
    }
}

/// The percent-encoding of one byte: `%` followed by two uppercase hex digits.
pub open spec fn spec_pct_byte(b: u8) -> Seq<char> {
    seq!['%', spec_hex_digit(b / 16), spec_hex_digit(b % 16)]
}

/// The percent-encoding of a byte sequence.
pub open spec fn spec_pct_bytes(bs: Seq<u8>) -> Seq<char>
    decreases bs.len(),
{
    if bs.len() == 0 {
        Seq::empty()
    } else {
        spec_pct_bytes(bs.drop_last()) + spec_pct_byte(bs.last())
    }
}

/// The form encoding of one character.
pub open spec fn spec_enc_char(c: char) -> Seq<char> {
    if spec_form_unreserved(c) {
        seq![c]
    } else if c == ' ' {
        seq!['+']
    } else {
        spec_pct_bytes(encode_scalar(c as u32))
    }
}

/// The form encoding of a character sequence.
pub open spec fn spec_enc_str(s: Seq<char>) -> Seq<char>
    decreases s.len(),
{
    if s.len() == 0 {
        Seq::empty()
    } else {
        spec_enc_str(s.drop_last()) + spec_enc_char(s.last())
    }
}

/// The decimal digits of a number, most significant first.
pub open spec fn spec_dec_str(n: nat) -> Seq<char>
    decreases n,
{
    if n < 10 {
        seq![spec_hex_digit(n as u8)]
    } else {
        spec_dec_str(n / 10) + seq![spec_hex_digit((n % 10) as u8)]
    }
}

/// Appends one character to a string.
///
/// Relies on `String::push`: it appends exactly the given character.
#[verifier::external_body]
pub(crate) fn push_char(out: &mut String, c: char)
    ensures
        final(out)@ == old(out)@ + seq![c],
{
    out.push(c);
}

/// Decides whether a character passes through the form encoding unchanged.
fn form_unreserved(c: char) -> (r: bool)
    ensures
        r == spec_form_unreserved(c),
{
    ('A' <= c && c <= 'Z') || ('a' <= c && c <= 'z') || ('0' <= c && c <= '9') || c == '*' || c
        == '-' || c == '.' || c == '_'
}

/// Returns the uppercase hex digit for a value below 16.
fn hex_digit(n: u8) -> (c: char)
    requires
        n < 16,
    ensures
        c == spec_hex_digit(n),
{
    if n < 10 {
        (0x30 + n) as char
    } else {
        (0x37 + n) as char
    }
}

proof fn lemma_pct_bytes1(b1: u8)
    ensures
        spec_pct_bytes(seq![b1]) == spec_pct_byte(b1),
{
    reveal_with_fuel(spec_pct_bytes, 2);
    assert(seq![b1].drop_last() =~= Seq::<u8>::empty());
    assert(seq![b1].last() == b1);
    assert(spec_pct_bytes(seq![b1]) =~= spec_pct_byte(b1));
}

proof fn lemma_pct_bytes_push(bs: Seq<u8>, b: u8)
    ensures
        spec_pct_bytes(bs.push(b)) == spec_pct_bytes(bs) + spec_pct_byte(b),
{
    assert(bs.push(b).drop_last() =~= bs);
    assert(bs.push(b).last() == b);
}

proof fn lemma_pct_bytes2(b1: u8, b2: u8)
    ensures
        spec_pct_bytes(seq![b1, b2]) == spec_pct_byte(b1) + spec_pct_byte(b2),
{
    lemma_pct_bytes1(b1);
    lemma_pct_bytes_push(seq![b1], b2);
    assert(seq![b1].push(b2) =~= seq![b1, b2]);
}

proof fn lemma_pct_bytes3(b1: u8, b2: u8, b3: u8)
    ensures
        spec_pct_bytes(seq![b1, b2, b3]) == spec_pct_byte(b1) + spec_pct_byte(b2) + spec_pct_byte(
            b3,
        ),
{
    lemma_pct_bytes2(b1, b2);
    lemma_pct_bytes_push(seq![b1, b2], b3);
    assert(seq![b1, b2].push(b3) =~= seq![b1, b2, b3]);
}

proof fn lemma_pct_bytes4(b1: u8, b2: u8, b3: u8, b4: u8)
    ensures
        spec_pct_bytes(seq![b1, b2, b3, b4]) == spec_pct_byte(b1) + spec_pct_byte(b2)
            + spec_pct_byte(b3) + spec_pct_byte(b4),
{
    lemma_pct_bytes3(b1, b2, b3);
    lemma_pct_bytes_push(seq![b1, b2, b3], b4);
    assert(seq![b1, b2, b3].push(b4) =~= seq![b1, b2, b3, b4]);
}

/// Appends the percent-encoding of one byte.
fn push_pct_byte(out: &mut String, b: u8)
    ensures
        final(out)@ == old(out)@ + spec_pct_byte(b),
{
    push_char(out, '%');
    push_char(out, hex_digit(b / 16));
    push_char(out, hex_digit(b % 16));
    assert(final(out)@ =~= old(out)@ + spec_pct_byte(b));
}

/// Appends the form encoding of one character.
fn push_enc_char(out: &mut String, c: char)
    ensures
        final(out)@ == old(out)@ + spec_enc_char(c),
{
    if form_unreserved(c) {
        push_char(out, c);
    } else if c == ' ' {
        push_char(out, '+');
    } else {
        let x = c as u32;
        let ghost bs = encode_scalar(x);
        if x < 0x80 {
            let b1: u8 = (x & 0x7F) as u8;
            push_pct_byte(out, b1);
            assert(bs =~= seq![b1]);
            proof {
                lemma_pct_bytes1(b1);
            }
        } else if x < 0x800 {
            let b1: u8 = 0xC0 | ((x >> 6) & 0x1F) as u8;
            let b2: u8 = 0x80 | (x & 0x3F) as u8;
            push_pct_byte(out, b1);
            push_pct_byte(out, b2);
            assert(bs =~= seq![b1, b2]);
            proof {
                lemma_pct_bytes2(b1, b2);
            }
        } else if x < 0x10000 {
            let b1: u8 = 0xE0 | ((x >> 12) & 0x0F) as u8;
            let b2: u8 = 0x80 | ((x >> 6) & 0x3F) as u8;
            let b3: u8 = 0x80 | (x & 0x3F) as u8;
            push_pct_byte(out, b1);
            push_pct_byte(out, b2);
            push_pct_byte(out, b3);
            assert(bs =~= seq![b1, b2, b3]);
            proof {
                lemma_pct_bytes3(b1, b2, b3);
            }
        } else {
            let b1: u8 = 0xF0 | ((x >> 18) & 0x7) as u8;
            let b2: u8 = 0x80 | ((x >> 12) & 0x3F) as u8;
            let b3: u8 = 0x80 | ((x >> 6) & 0x3F) as u8;
            let b4: u8 = 0x80 | (x & 0x3F) as u8;
            push_pct_byte(out, b1);
            push_pct_byte(out, b2);
            push_pct_byte(out, b3);
            push_pct_byte(out, b4);
            assert(bs =~= seq![b1, b2, b3, b4]);
            proof {
                lemma_pct_bytes4(b1, b2, b3, b4);
            }
        }
        assert(final(out)@ =~= old(out)@ + spec_enc_char(c));
    }
}

/// Appends the form encoding of a string.
pub(crate) fn push_enc_str(out: &mut String, s: &str)
    ensures
        final(out)@ == old(out)@ + spec_enc_str(s@),
{
    let n = s.unicode_len();
    let mut i: usize = 0;
    while i < n
        invariant
            n == s@.len(),
            i <= n,
            out@ == old(out)@ + spec_enc_str(s@.subrange(0, i as int)),
        decreases n - i,
    {
        let c = s.get_char(i);
        push_enc_char(out, c);
        proof {
            let pre = s@.subrange(0, i as int);
            let post = s@.subrange(0, i + 1 as int);
            assert(post.drop_last() =~= pre);
            assert(post.last() == c);
        }
        i = i + 1;
    }
    assert(s@.subrange(0, n as int) =~= s@);
}

/// Appends the decimal digits of a number, most significant first.
pub(crate) fn push_u64(out: &mut String, n: u64)
    ensures
        final(out)@ == old(out)@ + spec_dec_str(n as nat),
    decreases n,
{
    if n < 10 {
        push_char(out, hex_digit(n as u8));
    } else {
        push_u64(out, n / 10);
        push_char(out, hex_digit((n % 10) as u8));
    }
}

/// Returns the decimal digits of a number, most significant first.
pub fn u64_to_string(n: u64) -> (r: String)
    ensures
        r@ == spec_dec_str(n as nat),
{
    let mut out = String::new();
    push_u64(&mut out, n);
    out
}

} // verus!
