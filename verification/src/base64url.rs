use vstd::prelude::*;

verus! {

/// The ASCII code of the base64url alphabet character for a 6-bit value.
pub open spec fn b64_ascii(v: int) -> u8 {
    if 0 <= v < 26 {
        (65 + v) as u8  // 'A'..'Z'
    } else if 26 <= v < 52 {
        (97 + (v - 26)) as u8  // 'a'..'z'
    } else if 52 <= v < 62 {
        (48 + (v - 52)) as u8  // '0'..'9'
    } else if v == 62 {
        45u8  // '-'
    } else {
        95u8  // '_'
    }
}

/// base64url encoding of a byte string, without padding, as ASCII codes.
pub open spec fn b64url_of(s: Seq<u8>) -> Seq<u8>
    decreases s.len(),
{
    if s.len() == 0 {
        Seq::empty()
    } else if s.len() == 1 {
        let b0 = s[0] as int;
        seq![b64_ascii(b0 / 4), b64_ascii((b0 % 4) * 16)]
    } else if s.len() == 2 {
        let b0 = s[0] as int;
        let b1 = s[1] as int;
        seq![b64_ascii(b0 / 4), b64_ascii((b0 % 4) * 16 + b1 / 16), b64_ascii((b1 % 16) * 4)]
    } else {
        let b0 = s[0] as int;
        let b1 = s[1] as int;
        let b2 = s[2] as int;
        seq![
            b64_ascii(b0 / 4),
            b64_ascii((b0 % 4) * 16 + b1 / 16),
            b64_ascii((b1 % 16) * 4 + b2 / 64),
            b64_ascii(b2 % 64),
        ] + b64url_of(s.skip(3))
    }
}

/// The characters of an ASCII byte string.
pub open spec fn chars_of(s: Seq<u8>) -> Seq<char> {
    s.map_values(|b: u8| b as char)
}

/// An ASCII code drawn from the base64url alphabet `A-Z a-z 0-9 - _`.
pub open spec fn is_b64url_ascii(b: u8) -> bool {
    (65 <= b && b <= 90) || (97 <= b && b <= 122) || (48 <= b && b <= 57) || b == 45 || b == 95
}

/// A character drawn from the base64url alphabet `A-Z a-z 0-9 - _`.
pub open spec fn is_b64url_char(c: char) -> bool {
    (65 <= c as u32 && c as u32 <= 90) || (97 <= c as u32 && c as u32 <= 122) || (48 <= c as u32
        && c as u32 <= 57) || c as u32 == 45 || c as u32 == 95
}

/// A character string containing only base64url alphabet characters and no
/// padding character.
pub open spec fn all_b64url(s: Seq<char>) -> bool {
    forall|i: int| 0 <= i < s.len() ==> is_b64url_char(#[trigger] s[i]) && s[i] != '='
}

pub proof fn lemma_b64_ascii_in(v: int)
    ensures
        is_b64url_ascii(b64_ascii(v)),
        b64_ascii(v) != 61,
        b64_ascii(v) < 128,
{
}

/// Every byte of a base64url encoding lies in the URL-safe alphabet; in
/// particular none is the padding character `=` (ASCII 61).
pub proof fn lemma_b64url_alphabet(s: Seq<u8>)
    ensures
        forall|i: int|
            0 <= i < b64url_of(s).len() ==> is_b64url_ascii(#[trigger] b64url_of(s)[i])
                && b64url_of(s)[i] != 61 && b64url_of(s)[i] < 128,
    decreases s.len(),
{
    if s.len() >= 3 {
        lemma_b64url_alphabet(s.skip(3));
        assert forall|i: int| 0 <= i < b64url_of(s).len() implies is_b64url_ascii(
            #[trigger] b64url_of(s)[i],
        ) && b64url_of(s)[i] != 61 && b64url_of(s)[i] < 128 by {
            if i < 4 {
                lemma_b64_ascii_in(b64url_of(s)[i] as int);
                let b0 = s[0] as int;
                let b1 = s[1] as int;
                let b2 = s[2] as int;
                if i == 0 {
                    lemma_b64_ascii_in(b0 / 4);
                } else if i == 1 {
                    lemma_b64_ascii_in((b0 % 4) * 16 + b1 / 16);
                } else if i == 2 {
                    lemma_b64_ascii_in((b1 % 16) * 4 + b2 / 64);
                } else {
                    lemma_b64_ascii_in(b2 % 64);
                }
            } else {
                assert(b64url_of(s)[i] == b64url_of(s.skip(3))[i - 4]);
            }
        }
    } else if s.len() == 1 {
        let b0 = s[0] as int;
        lemma_b64_ascii_in(b0 / 4);
        lemma_b64_ascii_in((b0 % 4) * 16);
    } else if s.len() == 2 {
        let b0 = s[0] as int;
        let b1 = s[1] as int;
        lemma_b64_ascii_in(b0 / 4);
        lemma_b64_ascii_in((b0 % 4) * 16 + b1 / 16);
        lemma_b64_ascii_in((b1 % 16) * 4);
    }
}

/// The length of a base64url encoding: four characters for every full group
/// of three bytes, plus two or three characters for a trailing one or two
/// bytes, and never a padding character.
pub proof fn lemma_b64url_len(s: Seq<u8>)
    ensures
        b64url_of(s).len() == 4 * (s.len() / 3) + (if s.len() % 3 == 0 {
            0int
        } else {
            s.len() % 3 + 1int
        }),
    decreases s.len(),
{
    if s.len() >= 3 {
        lemma_b64url_len(s.skip(3));
        assert(s.skip(3).len() == s.len() - 3);
        assert(s.len() / 3 == (s.len() - 3) / 3 + 1) by (nonlinear_arith)
            requires s.len() >= 3;
        assert(s.len() % 3 == (s.len() - 3) % 3) by (nonlinear_arith)
            requires s.len() >= 3;
    }
}

/// The alphabet map is injective on 6-bit values.
pub proof fn lemma_b64_ascii_injective(u: int, v: int)
    requires
        0 <= u < 64,
        0 <= v < 64,
        b64_ascii(u) == b64_ascii(v),
    ensures
        u == v,
{
}

/// Encoding is invertible: distinct byte strings have distinct encodings.
pub proof fn lemma_b64url_injective(a: Seq<u8>, b: Seq<u8>)
    requires
        b64url_of(a) == b64url_of(b),
    ensures
        a =~= b,
    decreases a.len(),
{
    let oa = b64url_of(a);
    let ob = b64url_of(b);
    if a.len() == 0 {
        assert(ob.len() == 0);
        if b.len() == 1 {
            assert(ob.len() == 2);
        } else if b.len() == 2 {
            assert(ob.len() == 3);
        } else if b.len() >= 3 {
            assert(ob.len() >= 4);
        }
        assert(b.len() == 0);
    } else if a.len() == 1 {
        assert(oa.len() == 2);
        if b.len() == 0 {
            assert(ob.len() == 0);
        } else if b.len() == 2 {
            assert(ob.len() == 3);
        } else if b.len() >= 3 {
            assert(ob.len() >= 4);
        }
        assert(b.len() == 1);
        let b0a = a[0] as int;
        let b0b = b[0] as int;
        assert(oa[0] == b64_ascii(b0a / 4) && oa[1] == b64_ascii((b0a % 4) * 16));
        assert(ob[0] == b64_ascii(b0b / 4) && ob[1] == b64_ascii((b0b % 4) * 16));
        lemma_b64_ascii_injective(b0a / 4, b0b / 4);
        lemma_b64_ascii_injective((b0a % 4) * 16, (b0b % 4) * 16);
        assert(a[0] == b[0]);
    } else if a.len() == 2 {
        assert(oa.len() == 3);
        if b.len() == 0 {
            assert(ob.len() == 0);
        } else if b.len() == 1 {
            assert(ob.len() == 2);
        } else if b.len() >= 3 {
            assert(ob.len() >= 4);
        }
        assert(b.len() == 2);
        let b0a = a[0] as int;
        let b1a = a[1] as int;
        let b0b = b[0] as int;
        let b1b = b[1] as int;
        assert(oa[0] == b64_ascii(b0a / 4) && oa[1] == b64_ascii((b0a % 4) * 16 + b1a / 16)
            && oa[2] == b64_ascii((b1a % 16) * 4));
        assert(ob[0] == b64_ascii(b0b / 4) && ob[1] == b64_ascii((b0b % 4) * 16 + b1b / 16)
            && ob[2] == b64_ascii((b1b % 16) * 4));
        lemma_b64_ascii_injective(b0a / 4, b0b / 4);
        lemma_b64_ascii_injective((b0a % 4) * 16 + b1a / 16, (b0b % 4) * 16 + b1b / 16);
        lemma_b64_ascii_injective((b1a % 16) * 4, (b1b % 16) * 4);
        assert(a[0] == b[0] && a[1] == b[1]);
    } else {
        assert(oa.len() >= 4);
        if b.len() == 0 {
            assert(ob.len() == 0);
        } else if b.len() == 1 {
            assert(ob.len() == 2);
        } else if b.len() == 2 {
            assert(ob.len() == 3);
        }
        assert(b.len() >= 3);
        let b0a = a[0] as int;
        let b1a = a[1] as int;
        let b2a = a[2] as int;
        let b0b = b[0] as int;
        let b1b = b[1] as int;
        let b2b = b[2] as int;
        assert(oa[0] == b64_ascii(b0a / 4) && oa[1] == b64_ascii((b0a % 4) * 16 + b1a / 16)
            && oa[2] == b64_ascii((b1a % 16) * 4 + b2a / 64) && oa[3] == b64_ascii(b2a % 64));
        assert(ob[0] == b64_ascii(b0b / 4) && ob[1] == b64_ascii((b0b % 4) * 16 + b1b / 16)
            && ob[2] == b64_ascii((b1b % 16) * 4 + b2b / 64) && ob[3] == b64_ascii(b2b % 64));
        lemma_b64_ascii_injective(b0a / 4, b0b / 4);
        lemma_b64_ascii_injective((b0a % 4) * 16 + b1a / 16, (b0b % 4) * 16 + b1b / 16);
        lemma_b64_ascii_injective((b1a % 16) * 4 + b2a / 64, (b1b % 16) * 4 + b2b / 64);
        lemma_b64_ascii_injective(b2a % 64, b2b % 64);
        assert(a[0] == b[0] && a[1] == b[1] && a[2] == b[2]);
        assert(b64url_of(a.skip(3)) =~= b64url_of(b.skip(3))) by {
            assert forall|j: int| 0 <= j < b64url_of(a.skip(3)).len() implies b64url_of(a.skip(3))[j]
                == b64url_of(b.skip(3))[j] by {
                assert(b64url_of(a.skip(3))[j] == oa[j + 4]);
                assert(b64url_of(b.skip(3))[j] == ob[j + 4]);
            }
        }
        lemma_b64url_injective(a.skip(3), b.skip(3));
        assert forall|i: int| 0 <= i < a.len() implies a[i] == b[i] by {
            if i >= 3 {
                assert(a.skip(3)[i - 3] == b.skip(3)[i - 3]);
            }
        }
    }
}

/// Every character of an encoded string lies in the URL-safe alphabet and is
/// not `=`.
pub proof fn lemma_b64url_chars(s: Seq<u8>)
    ensures
        forall|i: int|
            0 <= i < chars_of(b64url_of(s)).len() ==> is_b64url_char(
                #[trigger] chars_of(b64url_of(s))[i],
            ) && chars_of(b64url_of(s))[i] != '=',
{
    lemma_b64url_alphabet(s);
    assert forall|i: int| 0 <= i < chars_of(b64url_of(s)).len() implies is_b64url_char(
        #[trigger] chars_of(b64url_of(s))[i],
    ) && chars_of(b64url_of(s))[i] != '=' by {
        let b = b64url_of(s)[i];
        assert(chars_of(b64url_of(s))[i] == b as char);
        assert(is_b64url_ascii(b) && b != 61);
        assert((b as char) as u32 == b);
        assert('=' as u32 == 61);
    }
}

/// Maps a 6-bit value to its base64url alphabet character, as an ASCII byte.
fn b64_char(v: u8) -> (r: u8)
    requires
        v < 64,
    ensures
        r == b64_ascii(v as int),
{
    if v < 26 {
        65 + v
    } else if v < 52 {
        97 + (v - 26)
    } else if v < 62 {
        48 + (v - 52)
    } else if v == 62 {
        45
    } else {
        95
    }
}

/// Encodes a byte string with the URL-safe base64 alphabet, without padding,
/// as ASCII bytes.
pub fn base64url_bytes(s: &Vec<u8>) -> (r: Vec<u8>)
    ensures
        r@ == b64url_of(s@),
{
    let n: usize = s.len();
    let mut r: Vec<u8> = Vec::new();
    let mut i: usize = 0;
    proof {
        assert(s@.skip(0) =~= s@);
    }
    while n - i >= 3
        invariant
            n == s@.len(),
            i <= n,
            r@ + b64url_of(s@.skip(i as int)) =~= b64url_of(s@),
        decreases n - i,
    {
        let b0 = s[i];
        let b1 = s[i + 1];
        let b2 = s[i + 2];
        r.push(b64_char(b0 / 4));
        r.push(b64_char((b0 % 4) * 16 + b1 / 16));
        r.push(b64_char((b1 % 16) * 4 + b2 / 64));
        r.push(b64_char(b2 % 64));
        proof {
            let t = s@.skip(i as int);
            assert(t.len() >= 3);
            assert(t[0] == s@[i as int] && t[1] == s@[i as int + 1] && t[2] == s@[i as int + 2]);
            assert(t.skip(3) =~= s@.skip(i as int + 3));
            assert(r@ + b64url_of(s@.skip(i as int + 3)) =~= b64url_of(s@));
        }
        i = i + 3;
    }
    if n - i == 1 {
        let b0 = s[i];
        r.push(b64_char(b0 / 4));
        r.push(b64_char((b0 % 4) * 16));
        proof {
            let t = s@.skip(i as int);
            assert(t.len() == 1);
            assert(t[0] == s@[i as int]);
            assert(r@ =~= b64url_of(s@));
        }
    } else if n - i == 2 {
        let b0 = s[i];
        let b1 = s[i + 1];
        r.push(b64_char(b0 / 4));
        r.push(b64_char((b0 % 4) * 16 + b1 / 16));
        r.push(b64_char((b1 % 16) * 4));
        proof {
            let t = s@.skip(i as int);
            assert(t.len() == 2);
            assert(t[0] == s@[i as int] && t[1] == s@[i as int + 1]);
            assert(r@ =~= b64url_of(s@));
        }
    } else {
        proof {
            assert(s@.skip(i as int).len() == 0);
            assert(r@ =~= b64url_of(s@));
        }
    }
    r
}

/// Relies on String::from_utf8: a sequence of bytes below 128 is valid UTF-8
/// and parses to the string whose characters are exactly those bytes.
#[verifier::external_body]
fn ascii_string(v: Vec<u8>) -> (r: String)
    requires
        forall|i: int| 0 <= i < v@.len() ==> v@[i] < 128,
    ensures
        r@ == chars_of(v@),
{
    String::from_utf8(v).unwrap_or_default()
}

/// Encodes a byte string with the URL-safe base64 alphabet, without padding.
pub fn base64url_encode(bytes: &Vec<u8>) -> (r: String)
    ensures
        r@ == chars_of(b64url_of(bytes@)),
{
    let ascii = base64url_bytes(bytes);
    proof {
        lemma_b64url_alphabet(bytes@);
    }
    ascii_string(ascii)
}

} // verus!
