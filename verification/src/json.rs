//! Canonical JSON of a proof statement, as `serde_json` writes the statement
//! struct: `{"state_commitment":[..],"context":[..],"public_inputs":[..]}`.
//! The arrays themselves are written by `serde_json`; what it writes for
//! bytes and for strings is stated here.

use vstd::prelude::*;
use vstd::string::StringSliceAdditionalSpecFns;
use vstd::utf8::encode_utf8;
use crate::bytes_ext::append_bytes;
use crate::text::strings_view;

verus! {

#[verifier::external_type_specification]
#[verifier::external_body]
pub struct ExJsonError(serde_json::Error);

/// The ASCII decimal digits of a number, without leading zeros.
pub open spec fn decimal_ascii(n: nat) -> Seq<u8>
    decreases n,
{
    if n < 10 {
        seq![(n + 48) as u8]
    } else {
        decimal_ascii(n / 10) + seq![((n % 10) + 48) as u8]
    }
}

/// The decimal numbers of bytes, separated by commas.
pub open spec fn comma_joined_decimals(bytes: Seq<u8>) -> Seq<u8>
    decreases bytes.len(),
{
    if bytes.len() == 0 {
        Seq::empty()
    } else if bytes.len() == 1 {
        decimal_ascii(bytes[0] as nat)
    } else {
        // 44 is ','.
        comma_joined_decimals(bytes.drop_last()) + seq![44u8] + decimal_ascii(bytes.last() as nat)
    }
}

/// The compact JSON array of numbers that `serde_json` writes for bytes:
/// `[`, the decimal numbers separated by commas, `]`.
pub open spec fn json_byte_array(bytes: Seq<u8>) -> Seq<u8> {
    // 91 is '[' and 93 is ']'.
    seq![91u8] + comma_joined_decimals(bytes) + seq![93u8]
}

/// The lower-case hex digit of a nibble, as an ASCII byte.
pub open spec fn hex_digit_ascii(n: int) -> u8 {
    if n < 10 {
        (n + 48) as u8
    } else {
        (n + 87) as u8
    }
}

/// How a JSON string writes one byte of its UTF-8 text: `"` and `\` behind a
/// backslash, backspace, tab, line feed, form feed and carriage return as
/// `\b`, `\t`, `\n`, `\f`, `\r`, other control bytes as `\u00` and two
/// lower-case hex digits, every other byte as it is.
pub open spec fn json_escaped_byte(b: u8) -> Seq<u8> {
    // 92 is the backslash and 34 the double quote.
    if b == 34 {
        seq![92u8, 34u8]
    } else if b == 92 {
        seq![92u8, 92u8]
    } else if b == 8 {
        seq![92u8, 98u8]
    } else if b == 9 {
        seq![92u8, 116u8]
    } else if b == 10 {
        seq![92u8, 110u8]
    } else if b == 12 {
        seq![92u8, 102u8]
    } else if b == 13 {
        seq![92u8, 114u8]
    } else if b < 32 {
        seq![92u8, 117u8, 48u8, 48u8, hex_digit_ascii((b / 16) as int), hex_digit_ascii((b % 16) as int)]
    } else {
        seq![b]
    }
}

/// The escaped form of a UTF-8 text, byte by byte.
pub open spec fn json_escaped(bytes: Seq<u8>) -> Seq<u8>
    decreases bytes.len(),
{
    if bytes.len() == 0 {
        Seq::empty()
    } else {
        json_escaped(bytes.drop_last()) + json_escaped_byte(bytes.last())
    }
}

/// The JSON string literal of a text: its escaped UTF-8 bytes in double
/// quotes.
pub open spec fn json_string(s: Seq<char>) -> Seq<u8> {
    // 34 is '"'.
    seq![34u8] + json_escaped(encode_utf8(s)) + seq![34u8]
}

/// The string literals of texts, separated by commas.
pub open spec fn comma_joined_strings(items: Seq<Seq<char>>) -> Seq<u8>
    decreases items.len(),
{
    if items.len() == 0 {
        Seq::empty()
    } else if items.len() == 1 {
        json_string(items[0])
    } else {
        comma_joined_strings(items.drop_last()) + seq![44u8] + json_string(items.last())
    }
}

/// The compact JSON array of strings that `serde_json` writes for strings:
/// `[`, the string literals separated by commas, `]`.
pub open spec fn json_string_array(items: Seq<Seq<char>>) -> Seq<u8> {
    seq![91u8] + comma_joined_strings(items) + seq![93u8]
}

/// `serde_json::to_vec` on a byte slice.
///
/// Trusted: the compact formatter writes a sequence as `[`, its elements
/// separated by `,`, and `]`, and each `u8` in decimal; writing into a `Vec`
/// cannot fail.
#[verifier::external_body]
pub(crate) fn json_encode_bytes(bytes: &[u8]) -> (r: Result<Vec<u8>, serde_json::Error>)
    ensures
        r is Ok,
        r matches Ok(v) ==> v@ == json_byte_array(bytes@),
{
    serde_json::to_vec(bytes)
}

/// `serde_json::to_vec` on a slice of strings.
///
/// Trusted: the compact formatter writes a sequence as `[`, its elements
/// separated by `,`, and `]`, and each string through `format_escaped_str`
/// with its escape table; writing into a `Vec` cannot fail.
#[verifier::external_body]
pub(crate) fn json_encode_strings(items: &[String]) -> (r: Result<Vec<u8>, serde_json::Error>)
    ensures
        r is Ok,
        r matches Ok(v) ==> v@ == json_string_array(strings_view(items@)),
{
    serde_json::to_vec(items)
}

/// The statement object around its three field values, in declaration
/// order, as `serde_json` lays out a struct.
pub open spec fn statement_object(commitment_json: Seq<u8>, context_json: Seq<u8>, inputs_json: Seq<u8>) -> Seq<u8> {
    "{\"state_commitment\":".spec_bytes() + commitment_json + ",\"context\":".spec_bytes() + context_json
        + ",\"public_inputs\":".spec_bytes() + inputs_json + "}".spec_bytes()
}

/// The canonical JSON of a statement with the given commitment bytes,
/// context bytes and public inputs.
pub open spec fn spec_statement_json(commitment: Seq<u8>, context: Seq<u8>, inputs: Seq<Seq<char>>) -> Seq<u8> {
    statement_object(json_byte_array(commitment), json_byte_array(context), json_string_array(inputs))
}

/// Writes the statement object around already-encoded field values.
pub fn assemble_statement_json(commitment_json: &[u8], context_json: &[u8], inputs_json: &[u8]) -> (v: Vec<u8>)
    ensures
        v@ == statement_object(commitment_json@, context_json@, inputs_json@),
{
    let mut out: Vec<u8> = Vec::new();
    append_bytes(&mut out, "{\"state_commitment\":".as_bytes());
    append_bytes(&mut out, commitment_json);
    append_bytes(&mut out, ",\"context\":".as_bytes());
    append_bytes(&mut out, context_json);
    append_bytes(&mut out, ",\"public_inputs\":".as_bytes());
    append_bytes(&mut out, inputs_json);
    append_bytes(&mut out, "}".as_bytes());
    out
}

/// Writes the canonical JSON of a statement's fields.
pub fn statement_json(commitment: &[u8], context: &[u8], inputs: &Vec<String>) -> (r: Result<Vec<u8>, serde_json::Error>)
    ensures
        r is Ok,
        r matches Ok(v) ==> v@ == spec_statement_json(commitment@, context@, strings_view(inputs@)),
{
    let commitment_json = match json_encode_bytes(commitment) {
        Ok(v) => v,
        Err(e) => return Err(e),
    };
    let context_json = match json_encode_bytes(context) {
        Ok(v) => v,
        Err(e) => return Err(e),
    };
    let inputs_json = match json_encode_strings(inputs.as_slice()) {
        Ok(v) => v,
        Err(e) => return Err(e),
    };
    Ok(assemble_statement_json(commitment_json.as_slice(), context_json.as_slice(), inputs_json.as_slice()))
}

} // verus!
