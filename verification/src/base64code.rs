//! Base64: the canonical padded encoding for the standard and URL-safe
//! alphabets, its injectivity, and the calls into the `base64` crate.

use vstd::prelude::*;

verus! {

/// The code of the alphabet character for a 6-bit value; meaningful when
/// `v < 64`. The two alphabets differ only at values 62 and 63.
pub open spec fn b64_char_code(v: u8, url: bool) -> u32 {
    if v < 26 {
        (65 + v) as u32  // 'A' ..= 'Z'
    } else if v < 52 {
        (97 + (v - 26)) as u32  // 'a' ..= 'z'
    } else if v < 62 {
        (48 + (v - 52)) as u32  // '0' ..= '9'
    } else if v == 62 {
        if url {
            45  // '-'
        } else {
            43  // '+'
        }
    } else {
        if url {
            95  // '_'
        } else {
            47  // '/'
        }
    }
}

/// The alphabet character for a 6-bit value; meaningful when `v < 64`.
pub open spec fn b64_char(v: u8, url: bool) -> char {
    b64_char_code(v, url) as char
}

/// The four characters encoding a final group of one byte.
pub open spec fn b64_group1(b0: u8, url: bool) -> Seq<char> {
    seq![b64_char(b0 >> 2, url), b64_char((b0 & 0x03) << 4, url), '=', '=']
}

/// The four characters encoding a final group of two bytes.
pub open spec fn b64_group2(b0: u8, b1: u8, url: bool) -> Seq<char> {
    seq![
        b64_char(b0 >> 2, url),
        b64_char(((b0 & 0x03) << 4) | (b1 >> 4), url),
        b64_char((b1 & 0x0f) << 2, url),
        '=',
    ]
}

/// The four characters encoding a full group of three bytes.
pub open spec fn b64_group3(b0: u8, b1: u8, b2: u8, url: bool) -> Seq<char> {
    seq![
        b64_char(b0 >> 2, url),
        b64_char(((b0 & 0x03) << 4) | (b1 >> 4), url),
        b64_char(((b1 & 0x0f) << 2) | (b2 >> 6), url),
        b64_char(b2 & 0x3f, url),
    ]
}

/// The canonical padded Base64 text of a byte sequence: four characters per
/// group of up to three bytes, `=` filling the last group.
pub open spec fn spec_base64_encode(b: Seq<u8>, url: bool) -> Seq<char>
    decreases b.len(),
{
    if b.len() == 0 {
        Seq::empty()
    } else if b.len() == 1 {
        b64_group1(b[0], url)
    } else if b.len() == 2 {
        b64_group2(b[0], b[1], url)
    } else {
        b64_group3(b[0], b[1], b[2], url) + spec_base64_encode(b.skip(3), url)
    }
}

/// The bytes whose canonical encoding the text is, if it is one: Base64 text
/// is well-formed exactly when some byte sequence encodes to it.
pub open spec fn spec_base64_decode(s: Seq<char>, url: bool) -> Option<Seq<u8>> {
    if exists|b: Seq<u8>| spec_base64_encode(b, url) == s {
        Some(choose|b: Seq<u8>| spec_base64_encode(b, url) == s)
    } else {
        None
    }
}

/// The encoding is four characters per started group of three bytes.
pub proof fn lemma_base64_encode_len(b: Seq<u8>, url: bool)
    ensures
        spec_base64_encode(b, url).len() == 4 * ((b.len() + 2) / 3),
    decreases b.len(),
{
    if b.len() >= 3 {
        lemma_base64_encode_len(b.skip(3), url);
        assert((b.len() + 2) / 3 == (b.len() - 1) / 3 + 1) by (nonlinear_arith)
            requires
                b.len() >= 3,
        ;
    }
}

/// Alphabet characters have codes in the printable range and are never `=`.
proof fn lemma_b64_char_code_range(v: u8, url: bool)
    requires
        v < 64,
    ensures
        43 <= b64_char_code(v, url) <= 122,
        b64_char_code(v, url) != 61,
{
}

/// No alphabet character is the padding character.
proof fn lemma_b64_char_not_pad(v: u8, url: bool)
    requires
        v < 64,
    ensures
        b64_char(v, url) != '=',
{
    lemma_b64_char_code_range(v, url);
    assert(b64_char(v, url) as u32 == b64_char_code(v, url));
    assert('=' as u32 == 61);
}

/// Each alphabet maps distinct 6-bit values to distinct characters.
proof fn lemma_b64_char_injective(v1: u8, v2: u8, url: bool)
    requires
        v1 < 64,
        v2 < 64,
        b64_char(v1, url) == b64_char(v2, url),
    ensures
        v1 == v2,
{
    lemma_b64_char_code_range(v1, url);
    lemma_b64_char_code_range(v2, url);
    assert(b64_char(v1, url) as u32 == b64_char_code(v1, url));
    assert(b64_char(v2, url) as u32 == b64_char_code(v2, url));
}

/// The 6-bit values of an encoded group lie below 64.
proof fn lemma_group_values_in_range(b0: u8, b1: u8, b2: u8)
    ensures
        b0 >> 2 < 64,
        (b0 & 0x03) << 4 < 64,
        ((b0 & 0x03) << 4) | (b1 >> 4) < 64,
        (b1 & 0x0f) << 2 < 64,
        ((b1 & 0x0f) << 2) | (b2 >> 6) < 64,
        b2 & 0x3f < 64,
{
    assert(b0 >> 2 < 64 && (b0 & 0x03) << 4 < 64 && ((b0 & 0x03) << 4) | (b1 >> 4) < 64 && (b1
        & 0x0f) << 2 < 64 && ((b1 & 0x0f) << 2) | (b2 >> 6) < 64 && b2 & 0x3f < 64) by (bit_vector);
}

/// Law: the canonical encoding is injective — equal encodings come only from
/// equal byte sequences.
pub proof fn lemma_base64_encode_injective(a: Seq<u8>, b: Seq<u8>, url: bool)
    requires
        spec_base64_encode(a, url) == spec_base64_encode(b, url),
    ensures
        a == b,
    decreases a.len(),
{
    let s = spec_base64_encode(a, url);
    lemma_base64_encode_len(a, url);
    lemma_base64_encode_len(b, url);
    if a.len() == 0 {
        assert(b.len() == 0) by {
            if b.len() > 0 {
                assert((b.len() + 2) / 3 >= 1) by (nonlinear_arith)
                    requires
                        b.len() >= 1,
                ;
            }
        }
        assert(a =~= b);
    } else if b.len() == 0 {
        assert((a.len() + 2) / 3 >= 1) by (nonlinear_arith)
            requires
                a.len() >= 1,
        ;
        assert(false);
    } else {
        lemma_group_values_in_range(a[0], if a.len() >= 2 { a[1] } else { 0 }, if a.len() >= 3 { a[2] } else { 0 });
        lemma_group_values_in_range(b[0], if b.len() >= 2 { b[1] } else { 0 }, if b.len() >= 3 { b[2] } else { 0 });
        lemma_pad_class_matches(a, b, url);
        if a.len() == 1 {
            assert(b.len() == 1);
            assert(s[0] == b64_char(a[0] >> 2, url) && s[0] == b64_char(b[0] >> 2, url));
            assert(s[1] == b64_char((a[0] & 0x03) << 4, url) && s[1] == b64_char(
                (b[0] & 0x03) << 4,
                url,
            ));
            lemma_b64_char_injective(a[0] >> 2, b[0] >> 2, url);
            lemma_b64_char_injective((a[0] & 0x03) << 4, (b[0] & 0x03) << 4, url);
            let a0 = a[0];
            let b0 = b[0];
            assert(a0 == b0) by (bit_vector)
                requires
                    a0 >> 2 == b0 >> 2 && (a0 & 0x03) << 4 == (b0 & 0x03) << 4,
            ;
            assert(a =~= b);
        } else if a.len() == 2 {
            assert(b.len() == 2);
            assert(s[0] == b64_char(a[0] >> 2, url) && s[0] == b64_char(b[0] >> 2, url));
            assert(s[1] == b64_char(((a[0] & 0x03) << 4) | (a[1] >> 4), url) && s[1] == b64_char(
                ((b[0] & 0x03) << 4) | (b[1] >> 4),
                url,
            ));
            assert(s[2] == b64_char((a[1] & 0x0f) << 2, url) && s[2] == b64_char(
                (b[1] & 0x0f) << 2,
                url,
            ));
            lemma_b64_char_injective(a[0] >> 2, b[0] >> 2, url);
            lemma_b64_char_injective(
                ((a[0] & 0x03) << 4) | (a[1] >> 4),
                ((b[0] & 0x03) << 4) | (b[1] >> 4),
                url,
            );
            lemma_b64_char_injective((a[1] & 0x0f) << 2, (b[1] & 0x0f) << 2, url);
            let a0 = a[0];
            let a1 = a[1];
            let b0 = b[0];
            let b1 = b[1];
            assert(a0 == b0 && a1 == b1) by (bit_vector)
                requires
                    a0 >> 2 == b0 >> 2 && ((a0 & 0x03) << 4) | (a1 >> 4) == ((b0 & 0x03) << 4) | (
                    b1 >> 4) && (a1 & 0x0f) << 2 == (b1 & 0x0f) << 2,
            ;
            assert(a =~= b);
        } else {
            assert(b.len() >= 3);
            let ga = b64_group3(a[0], a[1], a[2], url);
            let gb = b64_group3(b[0], b[1], b[2], url);
            let ta = spec_base64_encode(a.skip(3), url);
            let tb = spec_base64_encode(b.skip(3), url);
            assert(s == ga + ta && s == gb + tb);
            assert forall|i: int| 0 <= i < 4 implies ga[i] == gb[i] by {
                assert((ga + ta)[i] == ga[i]);
                assert((gb + tb)[i] == gb[i]);
            }
            lemma_b64_char_injective(a[0] >> 2, b[0] >> 2, url);
            lemma_b64_char_injective(
                ((a[0] & 0x03) << 4) | (a[1] >> 4),
                ((b[0] & 0x03) << 4) | (b[1] >> 4),
                url,
            );
            lemma_b64_char_injective(
                ((a[1] & 0x0f) << 2) | (a[2] >> 6),
                ((b[1] & 0x0f) << 2) | (b[2] >> 6),
                url,
            );
            lemma_b64_char_injective(a[2] & 0x3f, b[2] & 0x3f, url);
            let a0 = a[0];
            let a1 = a[1];
            let a2 = a[2];
            let b0 = b[0];
            let b1 = b[1];
            let b2 = b[2];
            assert(a0 == b0 && a1 == b1 && a2 == b2) by (bit_vector)
                requires
                    a0 >> 2 == b0 >> 2 && ((a0 & 0x03) << 4) | (a1 >> 4) == ((b0 & 0x03) << 4) | (
                    b1 >> 4) && ((a1 & 0x0f) << 2) | (a2 >> 6) == ((b1 & 0x0f) << 2) | (b2 >> 6)
                        && a2 & 0x3f == b2 & 0x3f,
            ;
            assert(ta =~= tb) by {
                assert(ta.len() == tb.len());
                assert forall|i: int| 0 <= i < ta.len() implies ta[i] == tb[i] by {
                    assert((ga + ta)[i + 4] == ta[i]);
                    assert((gb + tb)[i + 4] == tb[i]);
                }
            }
            lemma_base64_encode_injective(a.skip(3), b.skip(3), url);
            assert(a =~= b) by {
                assert(a.len() == b.len());
                assert forall|i: int| 3 <= i < a.len() implies a[i] == b[i] by {
                    assert(a.skip(3)[i - 3] == a[i]);
                    assert(b.skip(3)[i - 3] == b[i]);
                }
            }
        }
    }
}

/// Equal encodings put their final groups in the same padding class: the
/// padding characters tell a final group of one, two or three bytes apart.
proof fn lemma_pad_class_matches(a: Seq<u8>, b: Seq<u8>, url: bool)
    requires
        a.len() >= 1,
        b.len() >= 1,
        spec_base64_encode(a, url) == spec_base64_encode(b, url),
    ensures
        a.len() <= 2 ==> b.len() == a.len(),
        a.len() >= 3 ==> b.len() >= 3,
    decreases a.len(),
{
    let s = spec_base64_encode(a, url);
    lemma_base64_encode_len(a, url);
    lemma_base64_encode_len(b, url);
    lemma_group_values_in_range(a[0], if a.len() >= 2 { a[1] } else { 0 }, if a.len() >= 3 { a[2] } else { 0 });
    lemma_group_values_in_range(b[0], if b.len() >= 2 { b[1] } else { 0 }, if b.len() >= 3 { b[2] } else { 0 });
    if a.len() == 1 {
        assert(s[2] == '=' && s[3] == '=');
        if b.len() == 2 {
            lemma_b64_char_not_pad((b[1] & 0x0f) << 2, url);
            assert(false);
        } else if b.len() >= 3 {
            let gb = b64_group3(b[0], b[1], b[2], url);
            let tb = spec_base64_encode(b.skip(3), url);
            assert(s == gb + tb);
            assert((gb + tb)[3] == gb[3]);
            lemma_b64_char_not_pad(b[2] & 0x3f, url);
            assert(false);
        }
    } else if a.len() == 2 {
        assert(s[2] == b64_char((a[1] & 0x0f) << 2, url) && s[3] == '=');
        lemma_b64_char_not_pad((a[1] & 0x0f) << 2, url);
        if b.len() == 1 {
            assert(false);
        } else if b.len() >= 3 {
            let gb = b64_group3(b[0], b[1], b[2], url);
            let tb = spec_base64_encode(b.skip(3), url);
            assert(s == gb + tb);
            assert((gb + tb)[3] == gb[3]);
            lemma_b64_char_not_pad(b[2] & 0x3f, url);
            assert(false);
        }
    } else {
        let ga = b64_group3(a[0], a[1], a[2], url);
        let ta = spec_base64_encode(a.skip(3), url);
        assert(s == ga + ta);
        assert((ga + ta)[2] == ga[2]);
        assert((ga + ta)[3] == ga[3]);
        lemma_b64_char_not_pad(((a[1] & 0x0f) << 2) | (a[2] >> 6), url);
        lemma_b64_char_not_pad(a[2] & 0x3f, url);
        if b.len() == 1 {
            assert(s[3] == '=');
            assert(false);
        } else if b.len() == 2 {
            assert(s[3] == '=');
            assert(false);
        }
    }
}

/// Law: a text is decoded back to exactly the bytes whose encoding it is.
pub proof fn lemma_base64_decode_of_encoding(s: Seq<char>, v: Seq<u8>, url: bool)
    requires
        s == spec_base64_encode(v, url),
    ensures
        spec_base64_decode(s, url) == Some(v),
{
    assert(exists|b: Seq<u8>| spec_base64_encode(b, url) == s) by {
        assert(spec_base64_encode(v, url) == s);
    }
    let w = choose|b: Seq<u8>| spec_base64_encode(b, url) == s;
    lemma_base64_encode_injective(w, v, url);
}

/// Law: decoding the encoding of any byte sequence, under either alphabet,
/// gives those bytes back.
pub proof fn lemma_base64_round_trip(b: Seq<u8>, url: bool)
    ensures
        spec_base64_decode(spec_base64_encode(b, url), url) == Some(b),
{
    lemma_base64_decode_of_encoding(spec_base64_encode(b, url), b, url);
}

/// The two characters encoding a final group of one byte, unpadded.
pub open spec fn b64_group1_nopad(b0: u8, url: bool) -> Seq<char> {
    seq![b64_char(b0 >> 2, url), b64_char((b0 & 0x03) << 4, url)]
}

/// The three characters encoding a final group of two bytes, unpadded.
pub open spec fn b64_group2_nopad(b0: u8, b1: u8, url: bool) -> Seq<char> {
    seq![
        b64_char(b0 >> 2, url),
        b64_char(((b0 & 0x03) << 4) | (b1 >> 4), url),
        b64_char((b1 & 0x0f) << 2, url),
    ]
}

/// The unpadded Base64 text of a byte sequence: as the canonical padded
/// encoding, but the final group carries no `=` filler.
pub open spec fn spec_base64_encode_nopad(b: Seq<u8>, url: bool) -> Seq<char>
    decreases b.len(),
{
    if b.len() == 0 {
        Seq::empty()
    } else if b.len() == 1 {
        b64_group1_nopad(b[0], url)
    } else if b.len() == 2 {
        b64_group2_nopad(b[0], b[1], url)
    } else {
        b64_group3(b[0], b[1], b[2], url) + spec_base64_encode_nopad(b.skip(3), url)
    }
}

/// The bytes whose unpadded encoding the text is, if it is one.
pub open spec fn spec_base64_decode_nopad(s: Seq<char>, url: bool) -> Option<Seq<u8>> {
    if exists|b: Seq<u8>| spec_base64_encode_nopad(b, url) == s {
        Some(choose|b: Seq<u8>| spec_base64_encode_nopad(b, url) == s)
    } else {
        None
    }
}

/// The unpadded encoding of `n` bytes has `(4 n + 2) / 3` characters.
pub proof fn lemma_base64_encode_nopad_len(b: Seq<u8>, url: bool)
    ensures
        spec_base64_encode_nopad(b, url).len() == (4 * b.len() + 2) / 3,
    decreases b.len(),
{
    if b.len() >= 3 {
        lemma_base64_encode_nopad_len(b.skip(3), url);
        assert((4 * b.len() + 2) / 3 == (4 * (b.len() - 3) + 2) / 3 + 4) by (nonlinear_arith)
            requires
                b.len() >= 3,
        ;
    }
}

/// Unpadded encodings of differently long inputs differ in length.
proof fn lemma_nopad_len_determines_count(a: nat, b: nat)
    requires
        (4 * a + 2) / 3 == (4 * b + 2) / 3,
    ensures
        a == b,
{
    if a < b {
        assert((4 * a + 2) / 3 < (4 * b + 2) / 3) by (nonlinear_arith)
            requires
                a < b,
        ;
    } else if b < a {
        assert((4 * b + 2) / 3 < (4 * a + 2) / 3) by (nonlinear_arith)
            requires
                b < a,
        ;
    }
}

/// Law: the unpadded encoding is injective too — its length alone fixes how
/// many bytes it encodes, and the characters fix their values.
pub proof fn lemma_base64_encode_nopad_injective(a: Seq<u8>, b: Seq<u8>, url: bool)
    requires
        spec_base64_encode_nopad(a, url) == spec_base64_encode_nopad(b, url),
    ensures
        a == b,
    decreases a.len(),
{
    let s = spec_base64_encode_nopad(a, url);
    lemma_base64_encode_nopad_len(a, url);
    lemma_base64_encode_nopad_len(b, url);
    lemma_nopad_len_determines_count(a.len(), b.len());
    lemma_group_values_in_range(
        if a.len() >= 1 { a[0] } else { 0 },
        if a.len() >= 2 { a[1] } else { 0 },
        if a.len() >= 3 { a[2] } else { 0 },
    );
    lemma_group_values_in_range(
        if b.len() >= 1 { b[0] } else { 0 },
        if b.len() >= 2 { b[1] } else { 0 },
        if b.len() >= 3 { b[2] } else { 0 },
    );
    if a.len() == 0 {
        assert(a =~= b);
    } else if a.len() == 1 {
        assert(s[0] == b64_char(a[0] >> 2, url) && s[0] == b64_char(b[0] >> 2, url));
        assert(s[1] == b64_char((a[0] & 0x03) << 4, url) && s[1] == b64_char(
            (b[0] & 0x03) << 4,
            url,
        ));
        lemma_b64_char_injective(a[0] >> 2, b[0] >> 2, url);
        lemma_b64_char_injective((a[0] & 0x03) << 4, (b[0] & 0x03) << 4, url);
        let a0 = a[0];
        let b0 = b[0];
        assert(a0 == b0) by (bit_vector)
            requires
                a0 >> 2 == b0 >> 2 && (a0 & 0x03) << 4 == (b0 & 0x03) << 4,
        ;
        assert(a =~= b);
    } else if a.len() == 2 {
        assert(s[0] == b64_char(a[0] >> 2, url) && s[0] == b64_char(b[0] >> 2, url));
        assert(s[1] == b64_char(((a[0] & 0x03) << 4) | (a[1] >> 4), url) && s[1] == b64_char(
            ((b[0] & 0x03) << 4) | (b[1] >> 4),
            url,
        ));
        assert(s[2] == b64_char((a[1] & 0x0f) << 2, url) && s[2] == b64_char(
            (b[1] & 0x0f) << 2,
            url,
        ));
        lemma_b64_char_injective(a[0] >> 2, b[0] >> 2, url);
        lemma_b64_char_injective(
            ((a[0] & 0x03) << 4) | (a[1] >> 4),
            ((b[0] & 0x03) << 4) | (b[1] >> 4),
            url,
        );
        lemma_b64_char_injective((a[1] & 0x0f) << 2, (b[1] & 0x0f) << 2, url);
        let a0 = a[0];
        let a1 = a[1];
        let b0 = b[0];
        let b1 = b[1];
        assert(a0 == b0 && a1 == b1) by (bit_vector)
            requires
                a0 >> 2 == b0 >> 2 && ((a0 & 0x03) << 4) | (a1 >> 4) == ((b0 & 0x03) << 4) | (b1
                    >> 4) && (a1 & 0x0f) << 2 == (b1 & 0x0f) << 2,
        ;
        assert(a =~= b);
    } else {
        let ga = b64_group3(a[0], a[1], a[2], url);
        let gb = b64_group3(b[0], b[1], b[2], url);
        let ta = spec_base64_encode_nopad(a.skip(3), url);
        let tb = spec_base64_encode_nopad(b.skip(3), url);
        assert(s == ga + ta && s == gb + tb);
        assert forall|i: int| 0 <= i < 4 implies ga[i] == gb[i] by {
            assert((ga + ta)[i] == ga[i]);
            assert((gb + tb)[i] == gb[i]);
        }
        lemma_b64_char_injective(a[0] >> 2, b[0] >> 2, url);
        lemma_b64_char_injective(
            ((a[0] & 0x03) << 4) | (a[1] >> 4),
            ((b[0] & 0x03) << 4) | (b[1] >> 4),
            url,
        );
        lemma_b64_char_injective(
            ((a[1] & 0x0f) << 2) | (a[2] >> 6),
            ((b[1] & 0x0f) << 2) | (b[2] >> 6),
            url,
        );
        lemma_b64_char_injective(a[2] & 0x3f, b[2] & 0x3f, url);
        let a0 = a[0];
        let a1 = a[1];
        let a2 = a[2];
        let b0 = b[0];
        let b1 = b[1];
        let b2 = b[2];
        assert(a0 == b0 && a1 == b1 && a2 == b2) by (bit_vector)
            requires
                a0 >> 2 == b0 >> 2 && ((a0 & 0x03) << 4) | (a1 >> 4) == ((b0 & 0x03) << 4) | (b1
                    >> 4) && ((a1 & 0x0f) << 2) | (a2 >> 6) == ((b1 & 0x0f) << 2) | (b2 >> 6) && a2
                    & 0x3f == b2 & 0x3f,
        ;
        assert(ta =~= tb) by {
            assert(ta.len() == tb.len());
            assert forall|i: int| 0 <= i < ta.len() implies ta[i] == tb[i] by {
                assert((ga + ta)[i + 4] == ta[i]);
                assert((gb + tb)[i + 4] == tb[i]);
            }
        }
        lemma_base64_encode_nopad_injective(a.skip(3), b.skip(3), url);
        assert(a =~= b) by {
            assert(a.len() == b.len());
            assert forall|i: int| 3 <= i < a.len() implies a[i] == b[i] by {
                assert(a.skip(3)[i - 3] == a[i]);
                assert(b.skip(3)[i - 3] == b[i]);
            }
        }
    }
}

/// Law: a text is decoded back to exactly the bytes whose unpadded encoding
/// it is.
pub proof fn lemma_base64_decode_nopad_of_encoding(s: Seq<char>, v: Seq<u8>, url: bool)
    requires
        s == spec_base64_encode_nopad(v, url),
    ensures
        spec_base64_decode_nopad(s, url) == Some(v),
{
    assert(exists|b: Seq<u8>| spec_base64_encode_nopad(b, url) == s) by {
        assert(spec_base64_encode_nopad(v, url) == s);
    }
    let w = choose|b: Seq<u8>| spec_base64_encode_nopad(b, url) == s;
    lemma_base64_encode_nopad_injective(w, v, url);
}

/// Law: decoding the unpadded encoding of any byte sequence, under either
/// alphabet, gives those bytes back.
pub proof fn lemma_base64_nopad_round_trip(b: Seq<u8>, url: bool)
    ensures
        spec_base64_decode_nopad(spec_base64_encode_nopad(b, url), url) == Some(b),
{
    lemma_base64_decode_nopad_of_encoding(spec_base64_encode_nopad(b, url), b, url);
}

/// Relies on base64's `STANDARD_NO_PAD` engine: `Engine::encode` returns
/// the unpadded encoding under the `+/` alphabet.
#[verifier::external_body]
pub(crate) fn base64_encode_standard_nopad(b: &[u8]) -> (r: String)
    ensures
        r@ == spec_base64_encode_nopad(b@, false),
{
    base64::Engine::encode(&base64::engine::general_purpose::STANDARD_NO_PAD, b)
}

/// Relies on base64's `STANDARD_NO_PAD` engine: with its `NO_PAD` config
/// (no padding allowed, trailing bits rejected), `Engine::decode` accepts
/// exactly the unpadded encodings and returns the encoded bytes.
#[verifier::external_body]
pub(crate) fn base64_decode_standard_nopad(s: &str) -> (r: Option<Vec<u8>>)
    ensures
        match r {
            Some(v) => s@ == spec_base64_encode_nopad(v@, false),
            None => forall|b: Seq<u8>| s@ != spec_base64_encode_nopad(b, false),
        },
{
    match base64::Engine::decode(&base64::engine::general_purpose::STANDARD_NO_PAD, s) {
        Ok(v) => Some(v),
        Err(_) => None,
    }
}

/// Relies on base64's `STANDARD` engine: `Engine::encode` returns the
/// canonical padded encoding under the `+/` alphabet.
#[verifier::external_body]
pub(crate) fn base64_encode_standard(b: &[u8]) -> (r: String)
    ensures
        r@ == spec_base64_encode(b@, false),
{
    base64::Engine::encode(&base64::engine::general_purpose::STANDARD, b)
}

/// Relies on base64's `URL_SAFE` engine: `Engine::encode` returns the
/// canonical padded encoding under the `-_` alphabet.
#[verifier::external_body]
pub(crate) fn base64_encode_urlsafe(b: &[u8]) -> (r: String)
    ensures
        r@ == spec_base64_encode(b@, true),
{
    base64::Engine::encode(&base64::engine::general_purpose::URL_SAFE, b)
}

/// Relies on base64's `STANDARD` engine: with its `PAD` config (canonical
/// padding required, trailing bits rejected), `Engine::decode` accepts
/// exactly the canonical padded encodings and returns the encoded bytes.
#[verifier::external_body]
pub(crate) fn base64_decode_standard(s: &str) -> (r: Option<Vec<u8>>)
    ensures
        match r {
            Some(v) => s@ == spec_base64_encode(v@, false),
            None => forall|b: Seq<u8>| s@ != spec_base64_encode(b, false),
        },
{
    match base64::Engine::decode(&base64::engine::general_purpose::STANDARD, s) {
        Ok(v) => Some(v),
        Err(_) => None,
    }
}

} // verus!
