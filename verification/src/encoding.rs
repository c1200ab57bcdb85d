//! Base64 encoding of byte sequences, as the auth-header computation uses it:
//! the standard alphabet with `=` padding.  The encoding itself is done by an
//! outside crate; this module states exactly what it produces and proves that
//! the encoding is injective.

use vstd::prelude::*;

verus! {

/// The character of the standard base64 alphabet at index `v`:
/// `A`-`Z`, then `a`-`z`, then `0`-`9`, then `+` and `/`.
pub open spec fn b64_char(v: int) -> char
    recommends
        0 <= v < 64,
{
    if 0 <= v < 26 {
        ((65 + v) as u8) as char
    } else if 26 <= v < 52 {
        ((97 + (v - 26)) as u8) as char
    } else if 52 <= v < 62 {
        ((48 + (v - 52)) as u8) as char
    } else if v == 62 {
        '+'
    } else {
        '/'
    }
}

/// The index of `c` in the standard base64 alphabet, or `-1` if `c` is not
/// an alphabet character (in particular, `-1` for the padding `=`).
pub open spec fn b64_val(c: char) -> int {
    let u = c as u32;
    if 65 <= u < 91 {
        u - 65
    } else if 97 <= u < 123 {
        (u - 97) + 26
    } else if 48 <= u < 58 {
        (u - 48) + 52
    } else if c == '+' {
        62
    } else if c == '/' {
        63
    } else {
        -1
    }
}

/// Standard base64 with `=` padding: each group of three input bytes becomes
/// four alphabet characters; a final group of one or two bytes is padded with
/// `==` or `=` respectively.
pub open spec fn base64_chars(bytes: Seq<u8>) -> Seq<char>
    decreases bytes.len(),
{
    if bytes.len() == 0 {
        Seq::<char>::empty()
    } else if bytes.len() == 1 {
        let b0 = bytes[0] as int;
        seq![b64_char(b0 / 4), b64_char((b0 % 4) * 16), '=', '=']
    } else if bytes.len() == 2 {
        let b0 = bytes[0] as int;
        let b1 = bytes[1] as int;
        seq![
            b64_char(b0 / 4),
            b64_char((b0 % 4) * 16 + b1 / 16),
            b64_char((b1 % 16) * 4),
            '=',
        ]
    } else {
        let b0 = bytes[0] as int;
        let b1 = bytes[1] as int;
        let b2 = bytes[2] as int;
        seq![
            b64_char(b0 / 4),
            b64_char((b0 % 4) * 16 + b1 / 16),
            b64_char((b1 % 16) * 4 + b2 / 64),
            b64_char(b2 % 64),
        ] + base64_chars(bytes.skip(3))
    }
}

/// An encoded group is four characters, so the whole encoding has
/// `4 * ceil(len / 3)` characters; this bound keeps the outside encoder's
/// output-buffer size from overflowing `usize`.
pub open spec fn fits_base64(n: nat) -> bool {
    4 * ((n + 2) / 3) <= usize::MAX
}

/// Relies on `base64::encode`: standard alphabet, `=` padding.  Its buffer
/// sizing panics when the output length overflows `usize`, which the
/// precondition rules out.
#[verifier::external_body]
pub(crate) fn encode_base64(bytes: &Vec<u8>) -> (r: String)
    requires
        fits_base64(bytes@.len()),
    ensures
        r@ == base64_chars(bytes@),
{
    base64::encode(bytes)
}

/// The alphabet map is inverted by `b64_val`, hence injective on `[0, 64)`;
/// and no alphabet character is the padding character.
pub proof fn lemma_b64_char_val(v: int)
    requires
        0 <= v < 64,
    ensures
        b64_val(b64_char(v)) == v,
        b64_char(v) != '=',
{
}

/// The encoding of `n` bytes has exactly `4 * ceil(n / 3)` characters.
pub proof fn lemma_base64_len(bytes: Seq<u8>)
    ensures
        base64_chars(bytes).len() == 4 * ((bytes.len() + 2) / 3),
    decreases bytes.len(),
{
    if bytes.len() >= 3 {
        lemma_base64_len(bytes.skip(3));
    }
}

/// Base64 encoding is injective: equal encodings come from equal byte
/// sequences.  The padding characters recover the input length within a
/// group, and the alphabet inverse recovers each byte.
pub proof fn lemma_base64_injective(a: Seq<u8>, b: Seq<u8>)
    requires
        base64_chars(a) == base64_chars(b),
    ensures
        a == b,
    decreases a.len(),
{
    lemma_base64_len(a);
    lemma_base64_len(b);
    if a.len() == 0 || b.len() == 0 {
        assert(a.len() == 0 && b.len() == 0);
        assert(a =~= b);
    } else {
        let a0 = a[0] as int;
        let b0 = b[0] as int;
        // The third output character is padding exactly when the input is a
        // single byte; alphabet characters are never `=`.
        if a.len() == 1 || b.len() == 1 {
            if a.len() == 2 {
                lemma_b64_char_val((a[1] as int % 16) * 4);
            }
            if a.len() >= 3 {
                lemma_b64_char_val((a[1] as int % 16) * 4 + a[2] as int / 64);
            }
            if b.len() == 2 {
                lemma_b64_char_val((b[1] as int % 16) * 4);
            }
            if b.len() >= 3 {
                lemma_b64_char_val((b[1] as int % 16) * 4 + b[2] as int / 64);
            }
            assert(a.len() == 1 && b.len() == 1);
            lemma_b64_char_val(a0 / 4);
            lemma_b64_char_val(b0 / 4);
            lemma_b64_char_val((a0 % 4) * 16);
            lemma_b64_char_val((b0 % 4) * 16);
            assert(a0 / 4 == b0 / 4 && a0 % 4 == b0 % 4);
            assert(a0 == b0);
            assert(a =~= b);
        } else if a.len() == 2 || b.len() == 2 {
            // The fourth output character is padding exactly when the input
            // is one or two bytes, and one byte is already excluded.
            if a.len() >= 3 {
                lemma_b64_char_val(a[2] as int % 64);
            }
            if b.len() >= 3 {
                lemma_b64_char_val(b[2] as int % 64);
            }
            assert(a.len() == 2 && b.len() == 2);
            let a1 = a[1] as int;
            let b1 = b[1] as int;
            lemma_b64_char_val(a0 / 4);
            lemma_b64_char_val(b0 / 4);
            lemma_b64_char_val((a0 % 4) * 16 + a1 / 16);
            lemma_b64_char_val((b0 % 4) * 16 + b1 / 16);
            lemma_b64_char_val((a1 % 16) * 4);
            lemma_b64_char_val((b1 % 16) * 4);
            assert(a0 / 4 == b0 / 4);
            assert((a0 % 4) * 16 + a1 / 16 == (b0 % 4) * 16 + b1 / 16);
            assert((a1 % 16) * 4 == (b1 % 16) * 4);
            assert(a0 % 4 == b0 % 4 && a1 / 16 == b1 / 16);
            assert(a0 == b0 && a1 == b1);
            assert(a =~= b);
        } else {
            assert(a.len() >= 3 && b.len() >= 3);
            let a1 = a[1] as int;
            let a2 = a[2] as int;
            let b1 = b[1] as int;
            let b2 = b[2] as int;
            lemma_b64_char_val(a0 / 4);
            lemma_b64_char_val(b0 / 4);
            lemma_b64_char_val((a0 % 4) * 16 + a1 / 16);
            lemma_b64_char_val((b0 % 4) * 16 + b1 / 16);
            lemma_b64_char_val((a1 % 16) * 4 + a2 / 64);
            lemma_b64_char_val((b1 % 16) * 4 + b2 / 64);
            lemma_b64_char_val(a2 % 64);
            lemma_b64_char_val(b2 % 64);
            assert(base64_chars(a)[0] == b64_char(a0 / 4));
            assert(base64_chars(a)[1] == b64_char((a0 % 4) * 16 + a1 / 16));
            assert(base64_chars(a)[2] == b64_char((a1 % 16) * 4 + a2 / 64));
            assert(base64_chars(a)[3] == b64_char(a2 % 64));
            assert(base64_chars(b)[0] == b64_char(b0 / 4));
            assert(base64_chars(b)[1] == b64_char((b0 % 4) * 16 + b1 / 16));
            assert(base64_chars(b)[2] == b64_char((b1 % 16) * 4 + b2 / 64));
            assert(base64_chars(b)[3] == b64_char(b2 % 64));
            assert(a0 / 4 == b0 / 4);
            assert((a0 % 4) * 16 + a1 / 16 == (b0 % 4) * 16 + b1 / 16);
            assert((a1 % 16) * 4 + a2 / 64 == (b1 % 16) * 4 + b2 / 64);
            assert(a2 % 64 == b2 % 64);
            assert(a0 % 4 == b0 % 4 && a1 / 16 == b1 / 16);
            assert(a1 % 16 == b1 % 16 && a2 / 64 == b2 / 64);
            assert(a0 == b0 && a1 == b1 && a2 == b2);
            assert(base64_chars(a.skip(3)) =~= base64_chars(a).skip(4));
            assert(base64_chars(b.skip(3)) =~= base64_chars(b).skip(4));
            lemma_base64_injective(a.skip(3), b.skip(3));
            assert(a.len() == b.len());
            assert forall|i: int| 0 <= i < a.len() implies a[i] == b[i] by {
                if i >= 3 {
                    assert(a[i] == a.skip(3)[i - 3]);
                    assert(b[i] == b.skip(3)[i - 3]);
                }
            }
            assert(a =~= b);
        }
    }
}

} // verus!
