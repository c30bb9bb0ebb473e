//! Hexadecimal text: stripping separators, decoding to bytes, encoding bytes
//! to lowercase digits.

use vstd::prelude::*;

verus! {

/// Separator characters that hexadecimal input may carry: spaces and tabs.
pub open spec fn is_hex_space(c: char) -> bool {
    c == ' ' || c == '\t'
}

/// The input with every space and tab removed, other characters kept in order.
pub open spec fn spec_strip_spaces(s: Seq<char>) -> Seq<char>
    decreases s.len(),
{
    if s.len() == 0 {
        Seq::empty()
    } else if is_hex_space(s[0]) {
        spec_strip_spaces(s.drop_first())
    } else {
        seq![s[0]] + spec_strip_spaces(s.drop_first())
    }
}

pub open spec fn is_hex_digit(c: char) -> bool {
    (48 <= c as u32 && c as u32 <= 57)  // '0' ..= '9'
    || (97 <= c as u32 && c as u32 <= 102)  // 'a' ..= 'f'
    || (65 <= c as u32 && c as u32 <= 70)  // 'A' ..= 'F'
}

/// The numeric value of a hexadecimal digit; meaningful when `is_hex_digit(c)`.
pub open spec fn hex_digit_value(c: char) -> u8 {
    if 97 <= c as u32 {
        (c as u32 - 87) as u8
    } else if 65 <= c as u32 {
        (c as u32 - 55) as u8
    } else {
        (c as u32 - 48) as u8
    }
}

/// The lowercase digit character of a nibble; meaningful when `v < 16`.
pub open spec fn hex_char_of_nibble(v: u8) -> char {
    if v < 10 {
        (v + 48) as char
    } else {
        (v + 87) as char
    }
}

/// Well-formed hexadecimal text: even length, digits only.
pub open spec fn valid_hex(s: Seq<char>) -> bool {
    s.len() % 2 == 0 && (forall|i: int| 0 <= i < s.len() ==> is_hex_digit(#[trigger] s[i]))
}

/// The bytes read from hexadecimal text, one per digit pair; meaningful when
/// `valid_hex(s)`.
pub open spec fn spec_hex_decode(s: Seq<char>) -> Seq<u8>
    decreases s.len(),
{
    if s.len() < 2 {
        Seq::empty()
    } else {
        seq![(hex_digit_value(s[0]) as u32 * 16 + hex_digit_value(s[1]) as u32) as u8]
            + spec_hex_decode(s.skip(2))
    }
}

/// The lowercase hexadecimal text of a byte sequence, two digits per byte.
pub open spec fn spec_hex_encode(b: Seq<u8>) -> Seq<char>
    decreases b.len(),
{
    if b.len() == 0 {
        Seq::empty()
    } else {
        seq![hex_char_of_nibble(b[0] / 16), hex_char_of_nibble(b[0] % 16)]
            + spec_hex_encode(b.drop_first())
    }
}

/// A hexadecimal digit mapped to lowercase; other characters kept.
pub open spec fn spec_lower_hex_char(c: char) -> char {
    if 65 <= c as u32 && c as u32 <= 70 {
        (c as u32 + 32) as char
    } else {
        c
    }
}

/// The text with every uppercase hexadecimal digit lowered.
pub open spec fn spec_lower_hex(s: Seq<char>) -> Seq<char> {
    s.map_values(|c: char| spec_lower_hex_char(c))
}

/// Relies on `String::push`: appends the one character at the end.
#[verifier::external_body]
fn push_char(s: &mut String, c: char)
    ensures
        final(s)@ == old(s)@.push(c),
{
    s.push(c);
}

/// Removes every space and tab from the input, keeping all other characters
/// in order.
pub fn strip_spaces(s: &str) -> (r: Vec<char>)
    ensures
        r@ == spec_strip_spaces(s@),
{
    let n = s.unicode_len();
    let mut r: Vec<char> = Vec::new();
    let mut i: usize = 0;
    proof {
        assert(s@.skip(0) =~= s@);
        assert(r@ + spec_strip_spaces(s@) =~= spec_strip_spaces(s@));
    }
    while i < n
        invariant
            n == s@.len(),
            i <= n,
            r@ + spec_strip_spaces(s@.skip(i as int)) == spec_strip_spaces(s@),
        decreases n - i,
    {
        let c = s.get_char(i);
        proof {
            assert(s@.skip(i as int)[0] == s@[i as int]);
            assert(s@.skip(i as int).drop_first() =~= s@.skip(i + 1));
        }
        if !(c == ' ' || c == '\t') {
            r.push(c);
            proof {
                assert(r@ + spec_strip_spaces(s@.skip(i + 1)) =~= spec_strip_spaces(s@));
            }
        }
        i = i + 1;
    }
    proof {
        assert(s@.skip(n as int) =~= Seq::<char>::empty());
        assert(r@ =~= r@ + spec_strip_spaces(s@.skip(n as int)));
    }
    r
}

/// Reads one character as a hexadecimal digit, if it is one.
fn hex_digit(c: char) -> (r: Option<u8>)
    ensures
        match r {
            Some(v) => is_hex_digit(c) && v == hex_digit_value(c) && v < 16,
            None => !is_hex_digit(c),
        },
{
    let u = c as u32;
    if 48 <= u && u <= 57 {
        Some((u - 48) as u8)
    } else if 97 <= u && u <= 102 {
        Some((u - 87) as u8)
    } else if 65 <= u && u <= 70 {
        Some((u - 55) as u8)
    } else {
        None
    }
}

/// Decodes hexadecimal characters to bytes: `Some` exactly on well-formed
/// input (even length, digits only), with one byte per digit pair.
pub fn hex_decode_chars(s: &[char]) -> (r: Option<Vec<u8>>)
    ensures
        match r {
            Some(v) => valid_hex(s@) && v@ == spec_hex_decode(s@),
            None => !valid_hex(s@),
        },
{
    let n = s.len();
    if n % 2 != 0 {
        return None;
    }
    let mut out: Vec<u8> = Vec::new();
    let mut i: usize = 0;
    proof {
        assert(s@.skip(0) =~= s@);
        assert(out@ + spec_hex_decode(s@) =~= spec_hex_decode(s@));
    }
    while i < n
        invariant
            n == s@.len(),
            n % 2 == 0,
            i % 2 == 0,
            i <= n,
            forall|j: int| 0 <= j < i ==> is_hex_digit(#[trigger] s@[j]),
            out@ + spec_hex_decode(s@.skip(i as int)) == spec_hex_decode(s@),
        decreases n - i,
    {
        let hi = match hex_digit(s[i]) {
            Some(v) => v,
            None => {
                return None;
            },
        };
        let lo = match hex_digit(s[i + 1]) {
            Some(v) => v,
            None => {
                return None;
            },
        };
        proof {
            assert(s@.skip(i as int)[0] == s@[i as int]);
            assert(s@.skip(i as int)[1] == s@[i + 1]);
            assert(s@.skip(i as int).skip(2) =~= s@.skip(i + 2));
        }
        out.push(hi * 16 + lo);
        proof {
            assert(out@ + spec_hex_decode(s@.skip(i + 2)) =~= spec_hex_decode(s@));
        }
        i = i + 2;
    }
    proof {
        assert(s@.skip(n as int) =~= Seq::<char>::empty());
        assert(out@ =~= out@ + spec_hex_decode(s@.skip(n as int)));
    }
    Some(out)
}

/// Writes bytes as lowercase hexadecimal, two digits per byte, no separators.
pub fn hex_encode(b: &[u8]) -> (r: String)
    ensures
        r@ == spec_hex_encode(b@),
{
    let n = b.len();
    let mut r = String::new();
    let mut i: usize = 0;
    proof {
        assert(b@.skip(0) =~= b@);
        assert(r@ + spec_hex_encode(b@) =~= spec_hex_encode(b@));
    }
    while i < n
        invariant
            n == b@.len(),
            i <= n,
            r@ + spec_hex_encode(b@.skip(i as int)) == spec_hex_encode(b@),
        decreases n - i,
    {
        let x = b[i];
        let hi = x / 16;
        let lo = x % 16;
        let c_hi = if hi < 10 {
            (hi + 48) as char
        } else {
            (hi + 87) as char
        };
        let c_lo = if lo < 10 {
            (lo + 48) as char
        } else {
            (lo + 87) as char
        };
        proof {
            assert(b@.skip(i as int)[0] == b@[i as int]);
            assert(b@.skip(i as int).drop_first() =~= b@.skip(i + 1));
            assert(c_hi == hex_char_of_nibble(hi));
            assert(c_lo == hex_char_of_nibble(lo));
        }
        push_char(&mut r, c_hi);
        push_char(&mut r, c_lo);
        proof {
            assert(r@ + spec_hex_encode(b@.skip(i + 1)) =~= spec_hex_encode(b@));
        }
        i = i + 1;
    }
    proof {
        assert(b@.skip(n as int) =~= Seq::<u8>::empty());
        assert(r@ =~= r@ + spec_hex_encode(b@.skip(n as int)));
    }
    r
}

/// The hexadecimal text of a byte sequence is two characters per byte.
pub proof fn lemma_hex_encode_len(b: Seq<u8>)
    ensures
        spec_hex_encode(b).len() == 2 * b.len(),
    decreases b.len(),
{
    if b.len() > 0 {
        lemma_hex_encode_len(b.drop_first());
    }
}

/// Law: decoding well-formed hexadecimal text and encoding the bytes again
/// yields the same text with uppercase digits lowered.
pub proof fn lemma_hex_round_trip(s: Seq<char>)
    requires
        valid_hex(s),
    ensures
        spec_hex_encode(spec_hex_decode(s)) == spec_lower_hex(s),
    decreases s.len(),
{
    if s.len() == 0 {
        assert(spec_hex_encode(spec_hex_decode(s)) =~= spec_lower_hex(s));
    } else {
        let c0 = s[0];
        let c1 = s[1];
        let v0 = hex_digit_value(c0);
        let v1 = hex_digit_value(c1);
        let x = (v0 as u32 * 16 + v1 as u32) as u8;
        assert(is_hex_digit(c0) && is_hex_digit(c1));
        assert(v0 < 16 && v1 < 16);
        assert(x / 16 == v0 && x % 16 == v1) by (nonlinear_arith)
            requires
                v0 < 16 && v1 < 16 && x == v0 as u32 * 16 + v1 as u32,
        ;
        lemma_hex_digit_lower(c0);
        lemma_hex_digit_lower(c1);
        let t = s.skip(2);
        assert(valid_hex(t)) by {
            assert(forall|i: int| 0 <= i < t.len() ==> t[i] == s[i + 2]);
        }
        lemma_hex_round_trip(t);
        assert(spec_hex_decode(s).drop_first() =~= spec_hex_decode(t));
        assert(spec_hex_decode(s)[0] == x);
        assert(spec_hex_encode(spec_hex_decode(s)) =~= seq![
            hex_char_of_nibble(v0),
            hex_char_of_nibble(v1),
        ] + spec_hex_encode(spec_hex_decode(t)));
        assert(spec_lower_hex(t) =~= spec_lower_hex(s).skip(2));
        assert(spec_hex_encode(spec_hex_decode(s)) =~= spec_lower_hex(s));
    }
}

/// Law: decoding hexadecimal input that may carry spaces and tabs, then
/// encoding the bytes again, yields the input with the separators removed
/// and uppercase digits lowered.
pub proof fn lemma_hex_round_trip_with_separators(h: Seq<char>)
    requires
        valid_hex(spec_strip_spaces(h)),
    ensures
        spec_hex_encode(spec_hex_decode(spec_strip_spaces(h))) == spec_lower_hex(
            spec_strip_spaces(h),
        ),
{
    lemma_hex_round_trip(spec_strip_spaces(h));
}

/// For a hexadecimal digit, re-encoding its value gives the lowercase digit.
proof fn lemma_hex_digit_lower(c: char)
    requires
        is_hex_digit(c),
    ensures
        hex_char_of_nibble(hex_digit_value(c)) == spec_lower_hex_char(c),
{
}

} // verus!
