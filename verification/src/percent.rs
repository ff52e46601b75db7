//! Percent encoding and decoding, the second secondary-encoding
//! policy a lazy value can carry.
//!
//! Encoding escapes every byte of a character's UTF-8 form as `%XX`
//! (uppercase hex) unless the character is unreserved: ASCII
//! alphanumeric, `'-'`, `'.'` or `'_'`.  Decoding accepts `%XX` with
//! hex digits of either case and passes any other character through
//! verbatim.

use vstd::prelude::*;
use vstd::utf8::{decode_utf8, encode_utf8, valid_utf8};

use crate::encodings::string_from_utf8;
use crate::text::{push_char, str_to_chars};

verus! {

/// Whether `c` is left unescaped by percent encoding.
pub open spec fn is_unreserved(c: char) -> bool {
    ||| 0x41 <= (c as u32) && (c as u32) <= 0x5a
    ||| 0x61 <= (c as u32) && (c as u32) <= 0x7a
    ||| 0x30 <= (c as u32) && (c as u32) <= 0x39
    ||| c == '-'
    ||| c == '.'
    ||| c == '_'
}

/// Whether `c` is a hex digit of either case.
pub open spec fn is_hex_digit(c: char) -> bool {
    ||| 0x30 <= (c as u32) && (c as u32) <= 0x39
    ||| 0x41 <= (c as u32) && (c as u32) <= 0x46
    ||| 0x61 <= (c as u32) && (c as u32) <= 0x66
}

/// The numeric value of the hex digit `c`.
pub open spec fn hex_val(c: char) -> nat
    recommends
        is_hex_digit(c),
{
    if 0x30 <= (c as u32) && (c as u32) <= 0x39 {
        ((c as u32) - 0x30) as nat
    } else if 0x41 <= (c as u32) && (c as u32) <= 0x46 {
        ((c as u32) - 0x41 + 10) as nat
    } else {
        ((c as u32) - 0x61 + 10) as nat
    }
}

/// The uppercase hex digit character for a value below sixteen.
pub open spec fn hex_char(d: nat) -> char
    recommends
        d < 16,
{
    if d == 0 {
        '0'
    } else if d == 1 {
        '1'
    } else if d == 2 {
        '2'
    } else if d == 3 {
        '3'
    } else if d == 4 {
        '4'
    } else if d == 5 {
        '5'
    } else if d == 6 {
        '6'
    } else if d == 7 {
        '7'
    } else if d == 8 {
        '8'
    } else if d == 9 {
        '9'
    } else if d == 10 {
        'A'
    } else if d == 11 {
        'B'
    } else if d == 12 {
        'C'
    } else if d == 13 {
        'D'
    } else if d == 14 {
        'E'
    } else {
        'F'
    }
}

/// The three-character escape of one byte.
pub open spec fn byte_escape(b: u8) -> Seq<char> {
    seq!['%', hex_char((b / 16) as nat), hex_char((b % 16) as nat)]
}

/// The escapes of a byte sequence, concatenated.
pub open spec fn escape_bytes(bs: Seq<u8>) -> Seq<char>
    decreases bs.len(),
{
    if bs.len() == 0 {
        Seq::empty()
    } else {
        byte_escape(bs[0]) + escape_bytes(bs.drop_first())
    }
}

/// The percent encoding of a character sequence.
pub open spec fn percent_encode_spec(s: Seq<char>) -> Seq<char>
    decreases s.len(),
{
    if s.len() == 0 {
        Seq::empty()
    } else {
        let head = if is_unreserved(s[0]) {
            seq![s[0]]
        } else {
            escape_bytes(encode_utf8(seq![s[0]]))
        };
        head + percent_encode_spec(s.drop_first())
    }
}

/// The bytes a percent-encoded sequence denotes, reading from
/// position `i`: nothing when a `%` is not followed by two hex
/// digits.
pub open spec fn pct_decode_from(s: Seq<char>, i: int) -> Option<Seq<u8>>
    recommends
        0 <= i <= s.len(),
    decreases s.len() - i,
{
    if i >= s.len() {
        Some(Seq::empty())
    } else if s[i] == '%' {
        if i + 3 <= s.len() && is_hex_digit(s[i + 1]) && is_hex_digit(s[i + 2]) {
            let b = (hex_val(s[i + 1]) * 16 + hex_val(s[i + 2])) as u8;
            match pct_decode_from(s, i + 3) {
                Some(rest) => Some(seq![b] + rest),
                None => None,
            }
        } else {
            None
        }
    } else {
        match pct_decode_from(s, i + 1) {
            Some(rest) => Some(encode_utf8(seq![s[i]]) + rest),
            None => None,
        }
    }
}

/// What percent-decoding yields: the denoted bytes read back as
/// UTF-8 text, or nothing when an escape is malformed or the bytes
/// are not valid text.
pub open spec fn percent_decode_spec(s: Seq<char>) -> Option<Seq<char>> {
    match pct_decode_from(s, 0) {
        None => None,
        Some(b) => if valid_utf8(b) {
            Some(decode_utf8(b))
        } else {
            None
        },
    }
}

/// Appending a character extends the encoding on the right.
proof fn lemma_encode_push(s: Seq<char>, c: char)
    ensures
        percent_encode_spec(s.push(c)) == percent_encode_spec(s) + (if is_unreserved(c) {
            seq![c]
        } else {
            escape_bytes(encode_utf8(seq![c]))
        }),
    decreases s.len(),
{
    let enc_c = if is_unreserved(c) {
        seq![c]
    } else {
        escape_bytes(encode_utf8(seq![c]))
    };
    if s.len() == 0 {
        assert(s =~= Seq::<char>::empty());
        assert(s.push(c)[0] == c);
        assert(s.push(c).drop_first() =~= s);
        assert(percent_encode_spec(s.push(c)) == enc_c + percent_encode_spec(s));
        assert(percent_encode_spec(s) == Seq::<char>::empty());
        assert(enc_c + Seq::<char>::empty() =~= Seq::<char>::empty() + enc_c);
    } else {
        lemma_encode_push(s.drop_first(), c);
        assert(s.push(c)[0] == s[0]);
        assert(s.push(c).drop_first() =~= s.drop_first().push(c));
        let head = if is_unreserved(s[0]) {
            seq![s[0]]
        } else {
            escape_bytes(encode_utf8(seq![s[0]]))
        };
        assert(percent_encode_spec(s.push(c)) == head + percent_encode_spec(
            s.drop_first().push(c),
        ));
        assert(percent_encode_spec(s) == head + percent_encode_spec(s.drop_first()));
        assert(head + (percent_encode_spec(s.drop_first()) + enc_c) =~= (head
            + percent_encode_spec(s.drop_first())) + enc_c);
    }
}

/// Returns the uppercase hex digit character for `d`.
fn hex_to_char(d: u8) -> (c: char)
    requires
        d < 16,
    ensures
        c == hex_char(d as nat),
{
    if d == 0 {
        '0'
    } else if d == 1 {
        '1'
    } else if d == 2 {
        '2'
    } else if d == 3 {
        '3'
    } else if d == 4 {
        '4'
    } else if d == 5 {
        '5'
    } else if d == 6 {
        '6'
    } else if d == 7 {
        '7'
    } else if d == 8 {
        '8'
    } else if d == 9 {
        '9'
    } else if d == 10 {
        'A'
    } else if d == 11 {
        'B'
    } else if d == 12 {
        'C'
    } else if d == 13 {
        'D'
    } else if d == 14 {
        'E'
    } else {
        'F'
    }
}

/// The UTF-8 bytes of a single character.
fn char_utf8_bytes(c: char) -> (r: Vec<u8>)
    ensures
        r@ == encode_utf8(seq![c]),
{
    let mut s = String::new();
    push_char(&mut s, c);
    proof {
        assert(s@ =~= seq![c]);
    }
    let r = s.as_str().as_bytes_vec();
    r
}

/// Whether `c` is unreserved, decided executably.
fn unreserved(c: char) -> (r: bool)
    ensures
        r == is_unreserved(c),
{
    let v = c as u32;
    (0x41 <= v && v <= 0x5a) || (0x61 <= v && v <= 0x7a) || (0x30 <= v && v <= 0x39) || c == '-'
        || c == '.' || c == '_'
}

/// Percent-encodes `s`, as [`percent_encode_spec`] describes.
pub fn percent_encode(s: &str) -> (r: String)
    ensures
        r@ == percent_encode_spec(s@),
{
    let chars = str_to_chars(s);
    let mut out = String::new();
    let mut i: usize = 0;
    while i < chars.len()
        invariant
            chars@ == s@,
            i <= s@.len(),
            out@ == percent_encode_spec(s@.take(i as int)),
        decreases s@.len() - i,
    {
        let c = chars[i];
        proof {
            lemma_encode_push(s@.take(i as int), c);
            assert(s@.take(i as int).push(c) =~= s@.take(i + 1));
        }
        if unreserved(c) {
            push_char(&mut out, c);
            assert(out@ =~= percent_encode_spec(s@.take(i + 1)));
        } else {
            let bytes = char_utf8_bytes(c);
            let mut j: usize = 0;
            let ghost start = out@;
            while j < bytes.len()
                invariant
                    j <= bytes@.len(),
                    out@ == start + escape_bytes(bytes@.take(j as int)),
                decreases bytes@.len() - j,
            {
                let b = bytes[j];
                push_char(&mut out, '%');
                push_char(&mut out, hex_to_char(b / 16));
                push_char(&mut out, hex_to_char(b % 16));
                proof {
                    lemma_escape_push(bytes@.take(j as int), b);
                    assert(bytes@.take(j as int).push(b) =~= bytes@.take(j + 1));
                    assert(out@ =~= start + escape_bytes(bytes@.take(j + 1)));
                }
                j += 1;
            }
            proof {
                assert(bytes@.take(bytes@.len() as int) =~= bytes@);
                assert(out@ =~= percent_encode_spec(s@.take(i + 1)));
            }
        }
        i += 1;
    }
    proof {
        assert(s@.take(s@.len() as int) =~= s@);
    }
    out
}

/// Appending a byte extends the escape sequence on the right.
proof fn lemma_escape_push(bs: Seq<u8>, b: u8)
    ensures
        escape_bytes(bs.push(b)) == escape_bytes(bs) + byte_escape(b),
    decreases bs.len(),
{
    if bs.len() == 0 {
        assert(bs =~= Seq::<u8>::empty());
        assert(bs.push(b)[0] == b);
        assert(bs.push(b).drop_first() =~= bs);
        assert(escape_bytes(bs.push(b)) == byte_escape(b) + escape_bytes(bs));
        assert(escape_bytes(bs) == Seq::<char>::empty());
        assert(byte_escape(b) + Seq::<char>::empty() =~= Seq::<char>::empty() + byte_escape(b));
    } else {
        lemma_escape_push(bs.drop_first(), b);
        assert(bs.push(b)[0] == bs[0]);
        assert(bs.push(b).drop_first() =~= bs.drop_first().push(b));
        assert(escape_bytes(bs.push(b)) == byte_escape(bs[0]) + escape_bytes(
            bs.drop_first().push(b),
        ));
        assert(byte_escape(bs[0]) + (escape_bytes(bs.drop_first()) + byte_escape(b)) =~= (
        byte_escape(bs[0]) + escape_bytes(bs.drop_first())) + byte_escape(b));
    }
}

/// Percent-decodes `s`, as [`percent_decode_spec`] describes: the
/// decoded text on success, an error exactly when the spec yields
/// nothing.
pub fn percent_decode(s: &str) -> (r: Result<String, ()>)
    ensures
        match (r, percent_decode_spec(s@)) {
            (Ok(t), Some(v)) => t@ == v,
            (Err(_), None) => true,
            _ => false,
        },
{
    let chars = str_to_chars(s);
    let mut out: Vec<u8> = Vec::new();
    let mut i: usize = 0;
    while i < chars.len()
        invariant
            chars@ == s@,
            i <= s@.len(),
            pct_decode_from(s@, 0) == match pct_decode_from(s@, i as int) {
                Some(rest) => Some(out@ + rest),
                None => None::<Seq<u8>>,
            },
        decreases s@.len() - i,
    {
        let c = chars[i];
        if c == '%' {
            if chars.len() - i < 3 {
                return Err(());
            }
            let h1 = chars[i + 1];
            let h2 = chars[i + 2];
            let v1 = match hex_digit_val(h1) {
                Some(v) => v,
                None => {
                    return Err(());
                },
            };
            let v2 = match hex_digit_val(h2) {
                Some(v) => v,
                None => {
                    return Err(());
                },
            };
            proof {
                assert(hex_val(s@[i + 1]) < 16);
                assert(hex_val(s@[i + 2]) < 16);
            }
            let b: u8 = v1 * 16 + v2;
            let ghost before = out@;
            proof {
                if pct_decode_from(s@, i + 3) is Some {
                    let rest = pct_decode_from(s@, i + 3)->Some_0;
                    assert(before + (seq![b] + rest) =~= (before + seq![b]) + rest);
                }
            }
            out.push(b);
            proof {
                assert(out@ =~= before + seq![b]);
            }
            i += 3;
        } else {
            let bytes = char_utf8_bytes(c);
            let ghost before = out@;
            proof {
                if pct_decode_from(s@, i + 1) is Some {
                    let rest = pct_decode_from(s@, i + 1)->Some_0;
                    assert(before + (encode_utf8(seq![c]) + rest) =~= (before + encode_utf8(
                        seq![c],
                    )) + rest);
                }
            }
            let mut j: usize = 0;
            while j < bytes.len()
                invariant
                    j <= bytes@.len(),
                    out@ == before + bytes@.take(j as int),
                decreases bytes@.len() - j,
            {
                out.push(bytes[j]);
                j += 1;
                assert(out@ =~= before + bytes@.take(j as int));
            }
            proof {
                assert(bytes@.take(bytes@.len() as int) =~= bytes@);
            }
            i += 1;
        }
    }
    proof {
        assert(pct_decode_from(s@, i as int) == Some(Seq::<u8>::empty()));
        assert(out@ + Seq::<u8>::empty() =~= out@);
    }
    match string_from_utf8(out) {
        Ok(t) => Ok(t),
        Err(_) => Err(()),
    }
}

/// The value of a hex digit of either case, decided executably.
fn hex_digit_val(c: char) -> (r: Option<u8>)
    ensures
        is_hex_digit(c) ==> r == Some((hex_val(c) as u8)),
        !is_hex_digit(c) ==> r is None,
{
    let v = c as u32;
    if 0x30 <= v && v <= 0x39 {
        Some((v - 0x30) as u8)
    } else if 0x41 <= v && v <= 0x46 {
        Some((v - 0x41 + 10) as u8)
    } else if 0x61 <= v && v <= 0x66 {
        Some((v - 0x61 + 10) as u8)
    } else {
        None
    }
}

} // verus!
