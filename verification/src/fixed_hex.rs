//! Text form of fixed-size hashes (`H160`, `H256`): an optional `0x`, then
//! exactly the hash's hex digits, with spaces, tabs and line breaks ignored.

use vstd::prelude::*;
use crate::hex::{nibble_char, spec_hex_encode};
use crate::text::{append_decimal, chars_of, owned, push_char, push_str, spec_decimal};

verus! {

/// Why a text is not a fixed-size hash.
#[derive(Clone, Copy, Debug, PartialEq, Eq, Structural)]
pub enum FixedHexError {
    /// A character that is neither a hex digit nor a separator, and its
    /// position after the optional `0x`.
    InvalidCharacter(char, usize),
    /// Too few or too many hex digits.
    InvalidLength,
}

/// The separators skipped between hex digits.
pub open spec fn is_hex_separator(c: char) -> bool {
    c == ' ' || c == '\r' || c == '\n' || c == '\t'
}

/// Whether `c` is a hex digit, upper or lower case.
pub open spec fn is_hex_digit(c: char) -> bool {
    let n = c as u32;
    (48 <= n <= 57) || (97 <= n <= 102) || (65 <= n <= 70)
}

/// The value of a hex digit.
pub open spec fn hex_digit_value(c: char) -> int {
    let n = c as u32;
    if n <= 57 {
        n - 48
    } else if n >= 97 {
        n - 87
    } else {
        n - 55
    }
}

/// The bytes that a sequence of hex digits spells, two digits per byte.
pub open spec fn decode_hex_digits(d: Seq<char>) -> Seq<u8> {
    Seq::new(d.len() / 2, |k: int| (hex_digit_value(d[2 * k]) * 16 + hex_digit_value(d[2 * k + 1])) as u8)
}

/// Scans `t` from position `i`, having collected `digits`, for exactly
/// `want` hex digits: separators are skipped, anything else after the last
/// wanted digit is a length error, and a non-digit before it is reported
/// with its position.
pub open spec fn scan_hex_digits(t: Seq<char>, i: int, digits: Seq<char>, want: nat) -> Result<
    Seq<char>,
    FixedHexError,
>
    decreases t.len() - i,
{
    if i < 0 || i >= t.len() {
        if digits.len() == want {
            Ok(digits)
        } else {
            Err(FixedHexError::InvalidLength)
        }
    } else if is_hex_separator(t[i]) {
        scan_hex_digits(t, i + 1, digits, want)
    } else if digits.len() >= want {
        Err(FixedHexError::InvalidLength)
    } else if is_hex_digit(t[i]) {
        scan_hex_digits(t, i + 1, digits.push(t[i]), want)
    } else {
        Err(FixedHexError::InvalidCharacter(t[i], i as usize))
    }
}

/// A successful scan collects exactly the wanted number of digits.
pub proof fn lemma_scan_hex_digits_len(t: Seq<char>, i: int, digits: Seq<char>, want: nat)
    requires
        digits.len() <= want,
    ensures
        scan_hex_digits(t, i, digits, want) matches Ok(d) ==> d.len() == want,
    decreases t.len() - i,
{
    if 0 <= i < t.len() {
        if is_hex_separator(t[i]) {
            lemma_scan_hex_digits_len(t, i + 1, digits, want);
        } else if digits.len() < want && is_hex_digit(t[i]) {
            lemma_scan_hex_digits_len(t, i + 1, digits.push(t[i]), want);
        }
    }
}

/// `text` without one leading `0x`.
pub open spec fn strip_0x_chars(text: Seq<char>) -> Seq<char> {
    if text.len() >= 2 && text[0] == '0' && text[1] == 'x' {
        text.skip(2)
    } else {
        text
    }
}

/// The bytes of a fixed-size hash of `want_digits / 2` bytes written as
/// text, or why the text is not one.
pub open spec fn spec_fixed_hex_parse(text: Seq<char>, want_digits: nat) -> Result<Seq<u8>, FixedHexError> {
    match scan_hex_digits(strip_0x_chars(text), 0, Seq::empty(), want_digits) {
        Ok(d) => Ok(decode_hex_digits(d)),
        Err(e) => Err(e),
    }
}

/// Parses a fixed-size hash of `want_digits / 2` bytes from text.
pub fn parse_fixed_hex(text: &str, want_digits: usize) -> (r: Result<Vec<u8>, FixedHexError>)
    requires
        want_digits % 2 == 0,
    ensures
        r is Ok <==> spec_fixed_hex_parse(text@, want_digits as nat) is Ok,
        r matches Ok(v) ==> spec_fixed_hex_parse(text@, want_digits as nat) == Ok::<Seq<u8>, FixedHexError>(v@),
        r matches Err(e) ==> spec_fixed_hex_parse(text@, want_digits as nat) == Err::<Seq<u8>, FixedHexError>(e),
        r matches Ok(v) ==> v@.len() == want_digits / 2,
{
    let all = chars_of(text);
    let t: &[char] = if all.len() >= 2 && all[0] == '0' && all[1] == 'x' {
        let (_, rest) = all.as_slice().split_at(2);
        rest
    } else {
        all.as_slice()
    };
    assert(t@ == strip_0x_chars(text@));
    let ghost want = want_digits as nat;
    let n = t.len();
    let mut digits: Vec<char> = Vec::new();
    let mut i: usize = 0;
    while i < n
        invariant
            n == t@.len(),
            t@ == strip_0x_chars(text@),
            want == want_digits as nat,
            i <= n,
            digits@.len() <= want,
            forall|j: int| 0 <= j < digits@.len() ==> #[trigger] is_hex_digit(digits@[j]),
            scan_hex_digits(t@, 0, Seq::empty(), want) == scan_hex_digits(t@, i as int, digits@, want),
        decreases n - i,
    {
        let c = t[i];
        let code = c as u32;
        if c == ' ' || c == '\r' || c == '\n' || c == '\t' {
        } else if digits.len() >= want_digits {
            return Err(FixedHexError::InvalidLength);
        } else if (48 <= code && code <= 57) || (97 <= code && code <= 102) || (65 <= code && code <= 70) {
            digits.push(c);
        } else {
            return Err(FixedHexError::InvalidCharacter(c, i));
        }
        i = i + 1;
    }
    if digits.len() != want_digits {
        return Err(FixedHexError::InvalidLength);
    }
    proof {
        lemma_scan_hex_digits_len(t@, 0, Seq::empty(), want);
    }
    let m = digits.len() / 2;
    let mut out: Vec<u8> = Vec::new();
    let mut k: usize = 0;
    while k < m
        invariant
            m == digits@.len() / 2,
            k <= m,
            forall|j: int| 0 <= j < digits@.len() ==> #[trigger] is_hex_digit(digits@[j]),
            out@ =~= decode_hex_digits(digits@).take(k as int),
        decreases m - k,
    {
        let len = digits.len();
        assert(2 * k + 1 < len) by (nonlinear_arith)
            requires
                k < m,
                m == len / 2,
        ;
        let hi = hex_digit_byte(digits[2 * k]);
        let lo = hex_digit_byte(digits[2 * k + 1]);
        out.push(hi * 16 + lo);
        k = k + 1;
    }
    assert(out@ =~= decode_hex_digits(digits@));
    Ok(out)
}

fn hex_digit_byte(c: char) -> (v: u8)
    requires
        is_hex_digit(c),
    ensures
        v == hex_digit_value(c),
        v < 16,
{
    let n = c as u32;
    if n <= 57 {
        (n - 48) as u8
    } else if n >= 97 {
        (n - 87) as u8
    } else {
        (n - 55) as u8
    }
}

/// The message of a fixed-size hash parse error.
pub open spec fn spec_fixed_hex_message(e: FixedHexError) -> Seq<char> {
    match e {
        FixedHexError::InvalidCharacter(c, i) => "Invalid character '"@ + seq![c] + "' at position "@
            + spec_decimal(i as nat),
        FixedHexError::InvalidLength => "Invalid input length"@,
    }
}

impl FixedHexError {
    /// The error's message.
    pub fn message(&self) -> (s: String)
        ensures
            s@ == spec_fixed_hex_message(*self),
    {
        match self {
            FixedHexError::InvalidCharacter(c, i) => {
                let mut s = owned("Invalid character '");
                push_char(&mut s, *c);
                push_str(&mut s, "' at position ");
                append_decimal(&mut s, *i);
                s
            },
            FixedHexError::InvalidLength => owned("Invalid input length"),
        }
    }
}

/// Scanning a run of hex digits that completes the wanted count collects
/// them all.
proof fn lemma_scan_all_digits(t: Seq<char>, i: int, digits: Seq<char>, want: nat)
    requires
        0 <= i <= t.len(),
        digits.len() + (t.len() - i) == want,
        forall|j: int| i <= j < t.len() ==> #[trigger] is_hex_digit(t[j]),
    ensures
        scan_hex_digits(t, i, digits, want) == Ok::<Seq<char>, FixedHexError>(digits + t.skip(i)),
    decreases t.len() - i,
{
    if i < t.len() {
        assert(is_hex_digit(t[i]));
        assert(!is_hex_separator(t[i]));
        lemma_scan_all_digits(t, i + 1, digits.push(t[i]), want);
        assert(digits.push(t[i]) + t.skip(i + 1) =~= digits + t.skip(i));
    } else {
        assert(digits + t.skip(i) =~= digits);
    }
}

proof fn lemma_nibble_digit(n: int)
    requires
        0 <= n < 16,
    ensures
        is_hex_digit(nibble_char(n)),
        hex_digit_value(nibble_char(n)) == n,
{
}

/// The lower-case hex of bytes, with or without `0x`, parses back to the
/// bytes as a fixed-size hash of their length.
pub proof fn lemma_fixed_hex_roundtrip(data: Seq<u8>, prefixed: bool)
    ensures
        spec_fixed_hex_parse(
            if prefixed { seq!['0', 'x'] + spec_hex_encode(data) } else { spec_hex_encode(data) },
            2 * data.len(),
        ) == Ok::<Seq<u8>, FixedHexError>(data),
{
    let e = spec_hex_encode(data);
    let text = if prefixed { seq!['0', 'x'] + e } else { e };
    assert forall|j: int| 0 <= j < e.len() implies #[trigger] is_hex_digit(e[j]) by {
        if j % 2 == 0 {
            lemma_nibble_digit((data[j / 2] / 16) as int);
        } else {
            lemma_nibble_digit((data[j / 2] % 16) as int);
        }
    }
    if prefixed {
        assert(strip_0x_chars(text) =~= e);
    } else if e.len() >= 2 && e[0] == '0' && e[1] == 'x' {
        assert(is_hex_digit(e[1]));
    }
    assert(strip_0x_chars(text) == e);
    lemma_scan_all_digits(e, 0, Seq::empty(), 2 * data.len());
    assert(Seq::<char>::empty() + e.skip(0) =~= e);
    assert forall|k: int| 0 <= k < data.len() implies #[trigger] decode_hex_digits(e)[k] == data[k] by {
        lemma_nibble_digit((data[k] / 16) as int);
        lemma_nibble_digit((data[k] % 16) as int);
        assert((2 * k) / 2 == k);
        assert((2 * k + 1) / 2 == k);
        assert((2 * k) % 2 == 0);
        assert((2 * k + 1) % 2 == 1);
    }
    assert(decode_hex_digits(e) =~= data);
}

} // verus!
