//! Hexadecimal encoding and decoding (lower-case encoding, case-insensitive
//! decoding), as the `hex` crate defines them.

use vstd::prelude::*;
use crate::text::push_char;

verus! {

/// The lower-case hex digit for a nibble value below 16.
pub open spec fn nibble_char(n: int) -> char {
    if n < 10 {
        (n + 48) as char
    } else {
        (n + 87) as char
    }
}

/// Lower-case hex rendering: byte `k` becomes characters `2k` (high nibble)
/// and `2k + 1` (low nibble).
pub open spec fn spec_hex_encode(data: Seq<u8>) -> Seq<char> {
    Seq::new(
        2 * data.len(),
        |i: int|
            if i % 2 == 0 {
                nibble_char((data[i / 2] / 16) as int)
            } else {
                nibble_char((data[i / 2] % 16) as int)
            },
    )
}

/// The value of one hex digit byte, upper or lower case.
pub open spec fn hex_value(b: u8) -> Option<u8> {
    if 48 <= b <= 57 {
        Some((b - 48) as u8)
    } else if 97 <= b <= 102 {
        Some((b - 87) as u8)
    } else if 65 <= b <= 70 {
        Some((b - 55) as u8)
    } else {
        None
    }
}

/// Hex decoding of a byte string: defined when the length is even and every
/// byte is a hex digit; byte `k` is made of digits `2k` and `2k + 1`.
pub open spec fn spec_hex_decode(s: Seq<u8>) -> Option<Seq<u8>> {
    if s.len() % 2 == 0 && (forall|j: int| 0 <= j < s.len() ==> (#[trigger] hex_value(s[j])) is Some) {
        Some(
            Seq::new(
                s.len() / 2,
                |k: int|
                    (hex_value(s[2 * k])->0 * 16 + hex_value(s[2 * k + 1])->0) as u8,
            ),
        )
    } else {
        None
    }
}

fn nibble_to_char(n: u8) -> (c: char)
    requires
        n < 16,
    ensures
        c == nibble_char(n as int),
{
    if n < 10 {
        (n + 48) as char
    } else {
        (n + 87) as char
    }
}

/// Appends the lower-case hex rendering of `data` to `s`.
pub fn append_hex(s: &mut String, data: &[u8])
    ensures
        final(s)@ == old(s)@ + spec_hex_encode(data@),
{
    let n = data.len();
    let mut i: usize = 0;
    while i < n
        invariant
            n == data@.len(),
            i <= n,
            s@ =~= old(s)@ + spec_hex_encode(data@.take(i as int)),
        decreases n - i,
    {
        let b = data[i];
        push_char(s, nibble_to_char(b / 16));
        push_char(s, nibble_to_char(b % 16));
        proof {
            let t = data@.take(i as int + 1);
            let p = data@.take(i as int);
            assert(s@ =~= old(s)@ + spec_hex_encode(t)) by {
                assert forall|j: int| 0 <= j < 2 * t.len() implies #[trigger] spec_hex_encode(t)[j]
                    == s@[old(s)@.len() + j] by {
                    if j < 2 * i {
                        assert(p[j / 2] == t[j / 2]);
                        assert(spec_hex_encode(p)[j] == spec_hex_encode(t)[j]);
                    }
                }
            }
        }
        i = i + 1;
    }
    assert(data@.take(n as int) =~= data@);
}

/// Renders bytes as lower-case hex without prefix (`hex::encode`).
pub fn encode_hex(data: &[u8]) -> (s: String)
    ensures
        s@ == spec_hex_encode(data@),
{
    let mut s = String::new();
    append_hex(&mut s, data);
    assert(s@ =~= spec_hex_encode(data@));
    s
}

/// Renders bytes as `0x` followed by lower-case hex.
pub fn encode_hex_prefixed(data: &[u8]) -> (s: String)
    ensures
        s@ == seq!['0', 'x'] + spec_hex_encode(data@),
{
    let mut s = String::new();
    push_char(&mut s, '0');
    push_char(&mut s, 'x');
    append_hex(&mut s, data);
    assert(s@ =~= seq!['0', 'x'] + spec_hex_encode(data@));
    s
}

pub(crate) fn digit_value(b: u8) -> (v: Option<u8>)
    ensures
        v == hex_value(b),
{
    if 48 <= b && b <= 57 {
        Some(b - 48)
    } else if 97 <= b && b <= 102 {
        Some(b - 87)
    } else if 65 <= b && b <= 70 {
        Some(b - 55)
    } else {
        None
    }
}

/// Decodes hex digits into bytes (`hex::decode`); `None` on odd length or a
/// byte that is not a hex digit.
pub fn decode_hex(s: &[u8]) -> (r: Option<Vec<u8>>)
    ensures
        r matches Some(v) ==> spec_hex_decode(s@) == Some(v@),
        r is None ==> spec_hex_decode(s@) is None,
{
    let n = s.len();
    if n % 2 != 0 {
        return None;
    }
    let mut out: Vec<u8> = Vec::new();
    let mut k: usize = 0;
    while k < n / 2
        invariant
            n == s@.len(),
            n % 2 == 0,
            k <= n / 2,
            forall|j: int| 0 <= j < 2 * k ==> (#[trigger] hex_value(s@[j])) is Some,
            out@ =~= Seq::new(
                k as nat,
                |m: int| (hex_value(s@[2 * m])->0 * 16 + hex_value(s@[2 * m + 1])->0) as u8,
            ),
        decreases n / 2 - k,
    {
        let hi = digit_value(s[2 * k]);
        let lo = digit_value(s[2 * k + 1]);
        match (hi, lo) {
            (Some(h), Some(l)) => {
                out.push(h * 16 + l);
                proof {
                    assert forall|j: int| 0 <= j < 2 * (k + 1) implies (#[trigger] hex_value(s@[j])) is Some by {
                        if j >= 2 * k {
                            assert(j == 2 * k || j == 2 * k + 1);
                        }
                    }
                }
                k = k + 1;
            },
            _ => {
                proof {
                    if hi is None {
                        assert(hex_value(s@[2 * k as int]) is None);
                    } else {
                        assert(hex_value(s@[2 * k as int + 1]) is None);
                    }
                }
                return None;
            },
        }
    }
    Some(out)
}

/// Decoding the ASCII bytes of a hex rendering gives back the data.
pub proof fn lemma_hex_roundtrip(data: Seq<u8>, ascii: Seq<u8>)
    requires
        ascii.len() == spec_hex_encode(data).len(),
        forall|i: int| 0 <= i < ascii.len() ==> ascii[i] == (#[trigger] spec_hex_encode(data)[i]) as u8,
    ensures
        spec_hex_decode(ascii) == Some(data),
{
    let e = spec_hex_encode(data);
    assert forall|j: int| 0 <= j < ascii.len() implies (#[trigger] hex_value(ascii[j])) is Some
        && (hex_value(ascii[j])->0 == if j % 2 == 0 { data[j / 2] / 16 } else { data[j / 2] % 16 }) by {
        assert(ascii[j] == e[j] as u8);
    }
    let d = Seq::new(
        ascii.len() / 2,
        |k: int| (hex_value(ascii[2 * k])->0 * 16 + hex_value(ascii[2 * k + 1])->0) as u8,
    );
    assert forall|k: int| 0 <= k < data.len() implies d[k] == data[k] by {
        assert(hex_value(ascii[2 * k]) is Some);
        assert(hex_value(ascii[2 * k + 1]) is Some);
        assert((2 * k) / 2 == k);
        assert((2 * k + 1) / 2 == k);
    }
    assert(d =~= data);
}

/// Every character of a hex rendering is ASCII.
pub proof fn lemma_hex_encode_ascii(data: Seq<u8>)
    ensures
        vstd::utf8::is_ascii_chars(spec_hex_encode(data)),
{
}

} // verus!
