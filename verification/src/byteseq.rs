//! Byte-string helpers shared by the token subsystem: equality, concatenation,
//! lowercase hexadecimal framing and delimiter search, each with an exact
//! specification and a round-trip proof where one applies.
use vstd::prelude::*;

verus! {

/// The ASCII code of the part separator in a token.
pub open spec fn dot_byte() -> u8 {
    46
}

/// No byte of the sequence is the part separator.
pub open spec fn dot_free(s: Seq<u8>) -> bool {
    free_of(s, dot_byte())
}

/// Compares two byte strings for equality of contents.
pub fn bytes_eq(a: &Vec<u8>, b: &Vec<u8>) -> (r: bool)
    ensures
        r == (a@ == b@),
{
    if a.len() != b.len() {
        assert(a@.len() != b@.len());
        return false;
    }
    let mut i: usize = 0;
    while i < a.len()
        invariant
            0 <= i <= a@.len(),
            a@.len() == b@.len(),
            forall|j: int| 0 <= j < i ==> a@[j] == b@[j],
        decreases a@.len() - i,
    {
        if a[i] != b[i] {
            return false;
        }
        i += 1;
    }
    proof {
        assert(a@ =~= b@);
    }
    true
}

/// Appends all bytes of a slice to the end of a vector.
pub fn push_bytes(dst: &mut Vec<u8>, src: &[u8])
    ensures
        final(dst)@ == old(dst)@ + src@,
{
    let ghost orig = dst@;
    let mut i: usize = 0;
    while i < src.len()
        invariant
            0 <= i <= src@.len(),
            dst@ == orig + src@.subrange(0, i as int),
        decreases src@.len() - i,
    {
        dst.push(src[i]);
        i += 1;
        proof {
            assert(orig + src@.subrange(0, i - 1) + seq![src@[i - 1]] =~= orig + src@.subrange(
                0,
                i as int,
            ));
        }
    }
    proof {
        assert(orig + src@.subrange(0, src@.len() as int) =~= orig + src@);
    }
}

/// The lowercase hexadecimal digit for a value below sixteen.
pub open spec fn hex_digit_of(n: u8) -> u8 {
    if n < 10 {
        (48 + n) as u8
    } else {
        (87 + n) as u8
    }
}

/// Whether a byte is a lowercase hexadecimal digit.
pub open spec fn is_hex_digit(c: u8) -> bool {
    (48 <= c <= 57) || (97 <= c <= 102)
}

/// The value of a lowercase hexadecimal digit.
pub open spec fn hex_value_of(c: u8) -> u8 {
    if 48 <= c <= 57 {
        (c - 48) as u8
    } else if 97 <= c <= 102 {
        (c - 87) as u8
    } else {
        0
    }
}

/// Lowercase hexadecimal expansion of a byte string: two digits per byte,
/// high nibble first.
pub open spec fn spec_hex_encode(s: Seq<u8>) -> Seq<u8> {
    Seq::new(
        2 * s.len(),
        |i: int|
            if i % 2 == 0 {
                hex_digit_of(s[i / 2] / 16)
            } else {
                hex_digit_of(s[i / 2] % 16)
            },
    )
}

/// Whether a byte string is a well-formed hexadecimal expansion.
pub open spec fn is_hex_seq(s: Seq<u8>) -> bool {
    s.len() % 2 == 0 && forall|i: int| 0 <= i < s.len() ==> is_hex_digit(#[trigger] s[i])
}

/// The byte string whose hexadecimal expansion a well-formed input is.
pub open spec fn spec_hex_decode(s: Seq<u8>) -> Seq<u8>
    recommends
        is_hex_seq(s),
{
    Seq::new(s.len() / 2, |i: int| (16 * hex_value_of(s[2 * i]) + hex_value_of(s[2 * i + 1])) as u8)
}

proof fn lemma_hex_digit_of_value(n: u8)
    requires
        n < 16,
    ensures
        is_hex_digit(hex_digit_of(n)),
        hex_value_of(hex_digit_of(n)) == n,
        hex_digit_of(n) != dot_byte(),
{
}

/// Hexadecimal expansion consists of hexadecimal digits only, hence is free
/// of the part separator.
pub proof fn lemma_hex_encode_wf(s: Seq<u8>)
    ensures
        is_hex_seq(spec_hex_encode(s)),
        dot_free(spec_hex_encode(s)),
{
    let e = spec_hex_encode(s);
    assert forall|i: int| 0 <= i < e.len() implies is_hex_digit(#[trigger] e[i]) && e[i]
        != dot_byte() by {
        if i % 2 == 0 {
            assert(s[i / 2] / 16 < 16);
            lemma_hex_digit_of_value(s[i / 2] / 16);
        } else {
            assert(s[i / 2] % 16 < 16);
            lemma_hex_digit_of_value(s[i / 2] % 16);
        }
    }
}

/// Decoding inverts encoding: the hexadecimal round trip.
pub proof fn lemma_hex_round_trip(s: Seq<u8>)
    ensures
        spec_hex_decode(spec_hex_encode(s)) =~= s,
{
    let e = spec_hex_encode(s);
    let d = spec_hex_decode(e);
    assert(d.len() == s.len());
    assert forall|i: int| 0 <= i < s.len() implies d[i] == s[i] by {
        assert((2 * i) / 2 == i);
        assert((2 * i + 1) / 2 == i);
        assert(e[2 * i] == hex_digit_of(s[i] / 16));
        assert(e[2 * i + 1] == hex_digit_of(s[i] % 16));
        lemma_hex_digit_of_value(s[i] / 16);
        lemma_hex_digit_of_value(s[i] % 16);
        assert(16 * (s[i] / 16) + s[i] % 16 == s[i]);
    }
}

/// Writes the lowercase hexadecimal expansion of a byte string.
pub fn hex_encode(s: &Vec<u8>) -> (r: Vec<u8>)
    ensures
        r@ == spec_hex_encode(s@),
{
    let mut r: Vec<u8> = Vec::new();
    let mut i: usize = 0;
    while i < s.len()
        invariant
            0 <= i <= s@.len(),
            r@.len() == 2 * i,
            forall|j: int|
                0 <= j < r@.len() ==> #[trigger] r@[j] == spec_hex_encode(s@)[j],
        decreases s@.len() - i,
    {
        let b = s[i];
        let hi = b / 16;
        let lo = b % 16;
        let hi_digit: u8 = if hi < 10 {
            48 + hi
        } else {
            87 + hi
        };
        let lo_digit: u8 = if lo < 10 {
            48 + lo
        } else {
            87 + lo
        };
        assert(hi_digit == hex_digit_of(s@[i as int] / 16));
        assert(lo_digit == hex_digit_of(s@[i as int] % 16));
        r.push(hi_digit);
        r.push(lo_digit);
        i += 1;
        proof {
            assert forall|j: int| 0 <= j < r@.len() implies #[trigger] r@[j] == spec_hex_encode(
                s@,
            )[j] by {
                if j < 2 * (i - 1) {
                } else if j == 2 * (i - 1) {
                    assert(j % 2 == 0 && j / 2 == i - 1);
                } else {
                    assert(j == 2 * (i - 1) + 1);
                    assert(j % 2 == 1 && j / 2 == i - 1);
                }
            }
        }
    }
    proof {
        assert(r@ =~= spec_hex_encode(s@));
    }
    r
}

/// Reads a lowercase hexadecimal expansion back into bytes; rejects inputs
/// that are not well-formed expansions.
pub fn hex_decode(s: &[u8]) -> (r: Option<Vec<u8>>)
    ensures
        is_hex_seq(s@) <==> r is Some,
        r matches Some(v) ==> v@ == spec_hex_decode(s@),
{
    if s.len() % 2 != 0 {
        return None;
    }
    let mut r: Vec<u8> = Vec::new();
    let mut i: usize = 0;
    while i < s.len()
        invariant
            0 <= i <= s@.len(),
            i % 2 == 0,
            s@.len() % 2 == 0,
            r@.len() == i / 2,
            forall|j: int| 0 <= j < i ==> is_hex_digit(#[trigger] s@[j]),
            forall|j: int|
                0 <= j < r@.len() ==> #[trigger] r@[j] == (16 * hex_value_of(s@[2 * j])
                    + hex_value_of(s@[2 * j + 1])) as u8,
        decreases s@.len() - i,
    {
        let c0 = s[i];
        let c1 = s[i + 1];
        let v0: u8 = if 48 <= c0 && c0 <= 57 {
            c0 - 48
        } else if 97 <= c0 && c0 <= 102 {
            c0 - 87
        } else {
            return None;
        };
        let v1: u8 = if 48 <= c1 && c1 <= 57 {
            c1 - 48
        } else if 97 <= c1 && c1 <= 102 {
            c1 - 87
        } else {
            return None;
        };
        assert(v0 == hex_value_of(s@[i as int]) && v0 < 16);
        assert(v1 == hex_value_of(s@[i as int + 1]) && v1 < 16);
        r.push(16 * v0 + v1);
        i += 2;
    }
    proof {
        assert(r@ =~= spec_hex_decode(s@));
    }
    Some(r)
}

/// No byte of the sequence is `b`.
pub open spec fn free_of(s: Seq<u8>, b: u8) -> bool {
    forall|i: int| 0 <= i < s.len() ==> #[trigger] s[i] != b
}

/// Position of the first occurrence of `b`, or the length of the input when
/// there is none.
pub open spec fn spec_first_byte(s: Seq<u8>, b: u8) -> int
    decreases s.len(),
{
    if s.len() == 0 {
        0
    } else if s[0] == b {
        0
    } else {
        1 + spec_first_byte(s.drop_first(), b)
    }
}

/// The first-occurrence position is sound: nothing before it is `b`, and it
/// points at a `b` unless it is the length.
pub proof fn lemma_first_byte(s: Seq<u8>, b: u8)
    ensures
        0 <= spec_first_byte(s, b) <= s.len(),
        spec_first_byte(s, b) < s.len() ==> s[spec_first_byte(s, b)] == b,
        forall|k: int| 0 <= k < spec_first_byte(s, b) ==> #[trigger] s[k] != b,
    decreases s.len(),
{
    if s.len() == 0 {
    } else if s[0] == b {
    } else {
        let d = s.drop_first();
        lemma_first_byte(d, b);
        assert(spec_first_byte(s, b) == 1 + spec_first_byte(d, b));
        assert forall|k: int| 0 <= k < spec_first_byte(s, b) implies #[trigger] s[k] != b by {
            if k > 0 {
                assert(s[k] == d[k - 1]);
            }
        }
        if spec_first_byte(s, b) < s.len() {
            assert(s[spec_first_byte(s, b)] == d[spec_first_byte(d, b)]);
        }
    }
}

/// On a `b`-free prefix followed by a `b`, the first occurrence is exactly
/// the prefix length.
pub proof fn lemma_first_byte_of_join(a: Seq<u8>, rest: Seq<u8>, b: u8)
    requires
        free_of(a, b),
    ensures
        spec_first_byte(a + seq![b] + rest, b) == a.len(),
    decreases a.len(),
{
    let s = a + seq![b] + rest;
    if a.len() == 0 {
        assert(s[0] == b);
    } else {
        assert(s[0] == a[0]);
        assert(s[0] != b);
        assert(s.drop_first() =~= a.drop_first() + seq![b] + rest);
        assert(free_of(a.drop_first(), b));
        lemma_first_byte_of_join(a.drop_first(), rest, b);
    }
}

/// Finds the first occurrence of `b` in a byte string, reporting the input
/// length when there is none.
pub fn find_first_byte(s: &[u8], b: u8) -> (r: usize)
    ensures
        r as int == spec_first_byte(s@, b),
{
    proof {
        lemma_first_byte(s@, b);
    }
    let mut i: usize = 0;
    while i < s.len()
        invariant
            0 <= i <= s@.len(),
            forall|k: int| 0 <= k < i ==> #[trigger] s@[k] != b,
            spec_first_byte(s@, b) >= i,
        decreases s@.len() - i,
    {
        if s[i] == b {
            proof {
                lemma_first_byte(s@, b);
                if spec_first_byte(s@, b) > i {
                    assert(s@[i as int] != b);
                }
                if spec_first_byte(s@, b) < i {
                    assert(s@[spec_first_byte(s@, b)] != b);
                }
            }
            return i;
        }
        i += 1;
        proof {
            lemma_first_byte_lower(s@, i as int, b);
        }
    }
    proof {
        lemma_first_byte(s@, b);
    }
    i
}

/// A byte string with no `b` among its first `i` bytes has its first
/// occurrence at `i` or later.
proof fn lemma_first_byte_lower(s: Seq<u8>, i: int, b: u8)
    requires
        0 <= i <= s.len(),
        forall|k: int| 0 <= k < i ==> #[trigger] s[k] != b,
    ensures
        spec_first_byte(s, b) >= i,
    decreases i,
{
    lemma_first_byte(s, b);
    if i > 0 {
        assert(s[0] != b);
        assert(s.drop_first().len() == s.len() - 1);
        assert forall|k: int| 0 <= k < i - 1 implies #[trigger] s.drop_first()[k] != b by {
            assert(s.drop_first()[k] == s[k + 1]);
        }
        lemma_first_byte_lower(s.drop_first(), i - 1, b);
        assert(spec_first_byte(s, b) == 1 + spec_first_byte(s.drop_first(), b));
    }
}

/// Position of the first part separator, or the length of the input when
/// there is none.
pub open spec fn spec_first_dot(s: Seq<u8>) -> int {
    spec_first_byte(s, dot_byte())
}

/// The first-separator position is sound.
pub proof fn lemma_first_dot(s: Seq<u8>)
    ensures
        0 <= spec_first_dot(s) <= s.len(),
        spec_first_dot(s) < s.len() ==> s[spec_first_dot(s)] == dot_byte(),
        forall|k: int| 0 <= k < spec_first_dot(s) ==> #[trigger] s[k] != dot_byte(),
{
    lemma_first_byte(s, dot_byte());
}

/// On a separator-free prefix followed by a separator, the first-separator
/// position is exactly the prefix length.
pub proof fn lemma_first_dot_of_join(a: Seq<u8>, rest: Seq<u8>)
    requires
        dot_free(a),
    ensures
        spec_first_dot(a + seq![dot_byte()] + rest) == a.len(),
{
    lemma_first_byte_of_join(a, rest, dot_byte());
}

/// Finds the first part separator in a byte string, reporting the input
/// length when there is none.
pub fn find_first_dot(s: &[u8]) -> (r: usize)
    ensures
        r as int == spec_first_dot(s@),
{
    find_first_byte(s, 46)
}

} // verus!
