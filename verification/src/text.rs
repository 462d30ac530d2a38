//! Text that crosses the boundary: NUL-terminated byte strings going out,
//! UTF-8 device names coming in, and decimal rendering of numbers.

use vstd::prelude::*;
use vstd::string::*;
use vstd::utf8::*;
use crate::error::AudioError;

verus! {

/// The NUL-terminated byte string that carries `bytes` across the boundary.
///
/// A byte string with an interior NUL cannot be carried; the empty string
/// stands in for it.
pub open spec fn c_string(bytes: Seq<u8>) -> Seq<u8> {
    if bytes.contains(0u8) {
        seq![0u8]
    } else {
        bytes.push(0u8)
    }
}

/// The NUL-terminated byte string that carries the text `chars`, in UTF-8.
pub open spec fn c_text(chars: Seq<char>) -> Seq<u8> {
    c_string(encode_utf8(chars))
}

/// A boundary string ends with a NUL and holds no other, and text without a
/// NUL is carried unchanged in front of it.
pub proof fn lemma_c_string_is_terminated(bytes: Seq<u8>)
    ensures
        c_string(bytes).len() >= 1,
        c_string(bytes).last() == 0u8,
        forall|i: int| 0 <= i < c_string(bytes).len() - 1 ==> c_string(bytes)[i] != 0u8,
        !bytes.contains(0u8) ==> c_string(bytes).drop_last() == bytes,
{
}

/// Encodes `s` as a NUL-terminated byte string, falling back to the empty
/// string when `s` holds a NUL itself.
pub fn string_to_c_bytes(s: &str) -> (out: Vec<u8>)
    ensures
        out@ == c_text(s@),
{
    let bytes = s.as_bytes();
    let mut out: Vec<u8> = Vec::new();
    let mut i: usize = 0;
    while i < bytes.len()
        invariant
            i <= bytes@.len(),
            bytes@ == s.spec_bytes(),
            out@ == bytes@.subrange(0, i as int),
            !bytes@.subrange(0, i as int).contains(0u8),
        decreases bytes@.len() - i,
    {
        let b: u8 = bytes[i];
        if b == 0 {
            let mut empty: Vec<u8> = Vec::new();
            empty.push(0u8);
            return empty;
        }
        out.push(b);
        i = i + 1;
    }
    assert(bytes@.subrange(0, i as int) == bytes@);
    out.push(0u8);
    out
}

/// Encodes every string of `strings` as a NUL-terminated byte string, in order.
pub fn vec_to_c_array(strings: &Vec<String>) -> (out: Vec<Vec<u8>>)
    ensures
        out@.len() == strings@.len(),
        forall|i: int|
            0 <= i < strings@.len() ==> (#[trigger] out@[i])@ == c_text(strings@[i]@),
{
    let mut out: Vec<Vec<u8>> = Vec::new();
    let mut i: usize = 0;
    while i < strings.len()
        invariant
            i <= strings@.len(),
            out@.len() == i,
            forall|j: int|
                0 <= j < i ==> (#[trigger] out@[j])@ == c_text(strings@[j]@),
        decreases strings@.len() - i,
    {
        let encoded = string_to_c_bytes(strings[i].as_str());
        out.push(encoded);
        i = i + 1;
    }
    out
}

/// The decimal digit for a value below ten.
pub open spec fn digit_char(d: int) -> char {
    if d == 0 {
        '0'
    } else if d == 1 {
        '1'
    } else if d == 2 {
        '2'
    } else if d == 3 {
        '3'
    } else if d == 4 {
        '4'
    } else if d == 5 {
        '5'
    } else if d == 6 {
        '6'
    } else if d == 7 {
        '7'
    } else if d == 8 {
        '8'
    } else {
        '9'
    }
}

/// The decimal rendering of `n`, without sign or leading zeros.
pub open spec fn decimal(n: nat) -> Seq<char>
    decreases n,
{
    if n < 10 {
        seq![digit_char(n as int)]
    } else {
        decimal(n / 10).push(digit_char((n % 10) as int))
    }
}

fn digit_str(d: u32) -> (s: &'static str)
    requires
        d < 10,
    ensures
        s@ == seq![digit_char(d as int)],
{
    proof {
        reveal_strlit("0");
        reveal_strlit("1");
        reveal_strlit("2");
        reveal_strlit("3");
        reveal_strlit("4");
        reveal_strlit("5");
        reveal_strlit("6");
        reveal_strlit("7");
        reveal_strlit("8");
        reveal_strlit("9");
    }
    let s = if d == 0 {
        "0"
    } else if d == 1 {
        "1"
    } else if d == 2 {
        "2"
    } else if d == 3 {
        "3"
    } else if d == 4 {
        "4"
    } else if d == 5 {
        "5"
    } else if d == 6 {
        "6"
    } else if d == 7 {
        "7"
    } else if d == 8 {
        "8"
    } else {
        "9"
    };
    s
}

/// Renders `n` in decimal.
pub fn decimal_string(n: u32) -> (s: String)
    ensures
        s@ == decimal(n as nat),
    decreases n,
{
    if n < 10 {
        digit_str(n).to_owned()
    } else {
        let mut s = decimal_string(n / 10);
        s.append(digit_str(n % 10));
        s
    }
}

/// Decodes `bytes` as UTF-8.
///
/// Trusted: calls `core::str::from_utf8`, which accepts exactly the byte
/// strings that are well-formed UTF-8 and then yields the text they encode.
#[verifier::external_body]
fn utf8_text(bytes: &[u8]) -> (text: Option<&str>)
    ensures
        text is Some <==> valid_utf8(bytes@),
        text matches Some(s) ==> s@ == decode_utf8(bytes@),
{
    core::str::from_utf8(bytes).ok()
}

/// What a device name handed in by the caller decodes to.
pub open spec fn decoded_name(raw: Option<Seq<u8>>) -> Result<Seq<char>, AudioError> {
    match raw {
        None => Err(AudioError::NullDeviceName),
        Some(bytes) => if valid_utf8(bytes) {
            Ok(decode_utf8(bytes))
        } else {
            Err(AudioError::InvalidDeviceName)
        },
    }
}

/// Every text, handed in as its UTF-8 bytes, decodes to itself.
pub proof fn lemma_encoded_name_decodes(chars: Seq<char>)
    ensures
        decoded_name(Some(encode_utf8(chars))) == Ok::<Seq<char>, AudioError>(chars),
{
    encode_utf8_valid_utf8(chars);
    encode_utf8_decode_utf8(chars);
}

/// Tells whether a device name handed in by the caller can be used, so that
/// the platform is worth asking for its devices.
pub fn device_name_is_usable(raw: Option<&[u8]>) -> (usable: bool)
    ensures
        usable == decoded_name(
            match raw {
                Some(bytes) => Some(bytes@),
                None => None,
            },
        ) is Ok,
{
    match raw {
        None => false,
        Some(bytes) => utf8_text(bytes).is_some(),
    }
}

/// Decodes a device name handed in by the caller: `None` stands for a null
/// pointer, `Some` holds the bytes before the terminating NUL.
pub fn decode_device_name(raw: Option<&[u8]>) -> (name: Result<String, AudioError>)
    ensures
        match (name, decoded_name(
            match raw {
                Some(bytes) => Some(bytes@),
                None => None,
            },
        )) {
            (Ok(s), Ok(chars)) => s@ == chars,
            (Err(e), Err(expected)) => e == expected,
            _ => false,
        },
{
    match raw {
        None => Err(AudioError::NullDeviceName),
        Some(bytes) => match utf8_text(bytes) {
            Some(s) => Ok(s.to_owned()),
            None => Err(AudioError::InvalidDeviceName),
        },
    }
}

} // verus!
