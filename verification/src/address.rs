//! Connection targets: a socket address, or a Unix path that arrives as the
//! hex form of its UTF-8 bytes.

use hex::FromHex;
use hex::FromHexError;
use vstd::prelude::*;
use vstd::string::StringSliceAdditionalSpecFns;
use vstd::utf8::decode_utf8;
use vstd::utf8::encode_utf8;
use vstd::utf8::encode_utf8_decode_utf8;
use vstd::utf8::encode_utf8_valid_utf8;
use vstd::utf8::valid_utf8;

verus! {

/// An IP address with a port, as plain numbers.
#[derive(Clone, Copy, Debug)]
pub enum SocketAddress {
    V4 { octets: [u8; 4], port: u16 },
    V6 { segments: [u16; 8], port: u16, flowinfo: u32, scope_id: u32 },
}

/// Where a connection goes.
#[derive(Debug)]
pub enum Address {
    Ip(SocketAddress),
    Unix(String),
}

/// An `Address` with its path as a sequence of characters.
pub enum AddressView {
    Ip(SocketAddress),
    Unix(Seq<char>),
}

impl View for Address {
    type V = AddressView;

    open spec fn view(&self) -> AddressView {
        match self {
            Address::Ip(socket) => AddressView::Ip(*socket),
            Address::Unix(path) => AddressView::Unix(path@),
        }
    }
}

/// The value of a hex digit, upper or lower case; nothing for any other
/// byte.
pub open spec fn hex_value(c: u8) -> Option<u8> {
    if 48 <= c <= 57 {
        Some((c - 48) as u8)
    } else if 97 <= c <= 102 {
        Some((c - 87) as u8)
    } else if 65 <= c <= 70 {
        Some((c - 55) as u8)
    } else {
        None
    }
}

/// Hex text: an even number of bytes, all of them hex digits.
pub open spec fn is_hex(text: Seq<u8>) -> bool {
    &&& text.len() % 2 == 0
    &&& forall|i: int| 0 <= i < text.len() ==> hex_value(#[trigger] text[i]) is Some
}

/// The bytes that hex text stands for: each pair of digits is one byte, the
/// high digit first.
pub open spec fn hex_decoded(text: Seq<u8>) -> Seq<u8> {
    Seq::new(
        text.len() / 2,
        |i: int| (hex_value(text[2 * i]).unwrap() * 16 + hex_value(text[2 * i + 1]).unwrap()) as u8,
    )
}

/// The lower-case hex digit of a value below sixteen.
pub open spec fn hex_digit(v: u8) -> u8 {
    if v < 10 {
        (v + 48) as u8
    } else {
        (v + 87) as u8
    }
}

/// The lower-case hex text of `bytes`: two digits for each byte, the high
/// digit first.
pub open spec fn hex_encoded(bytes: Seq<u8>) -> Seq<u8> {
    Seq::new(
        2 * bytes.len(),
        |i: int|
            if i % 2 == 0 {
                hex_digit(bytes[i / 2] / 16)
            } else {
                hex_digit(bytes[i / 2] % 16)
            },
    )
}

/// `hex::FromHexError`. Which of its variants came back is not looked at.
#[verifier::external_type_specification]
#[verifier::external_body]
pub struct ExFromHexError(FromHexError);

/// `Vec::<u8>::from_hex` of the `hex` crate, on the bytes of `text`. It
/// fails on an odd length and on a byte that is no hex digit, in either case,
/// and otherwise gives one byte for each pair of digits, the first digit
/// shifted four bits up.
#[verifier::external_body]
fn from_hex(text: &str) -> (decoded: Result<Vec<u8>, FromHexError>)
    ensures
        decoded is Ok == is_hex(text.spec_bytes()),
        decoded matches Ok(bytes) ==> bytes@ == hex_decoded(text.spec_bytes()),
{
    Vec::from_hex(text)
}

/// `String::from_utf8`: the text that `bytes` encode, where they are valid
/// UTF-8, and nothing where they are not.
#[verifier::external_body]
fn from_utf8(bytes: Vec<u8>) -> (text: Option<String>)
    ensures
        text is Some == valid_utf8(bytes@),
        text matches Some(s) ==> s@ == decode_utf8(bytes@),
{
    String::from_utf8(bytes).ok()
}

/// Why an authority is no Unix path.
#[derive(Clone, Copy, PartialEq, Eq, Structural, Debug)]
pub enum PathError {
    /// The authority is not hex text.
    NotHex,
    /// The bytes that the hex text stands for are not UTF-8.
    NotUtf8,
}

/// The path that a hex authority stands for, or the step of decoding that
/// failed.
pub open spec fn unix_path_of(authority: Seq<char>) -> Result<Seq<char>, PathError> {
    let text = encode_utf8(authority);
    if !is_hex(text) {
        Err(PathError::NotHex)
    } else if !valid_utf8(hex_decoded(text)) {
        Err(PathError::NotUtf8)
    } else {
        Ok(decode_utf8(hex_decoded(text)))
    }
}

/// Decodes the authority of a Unix target: hex text to bytes, bytes to
/// UTF-8 text.
pub fn decode_unix_path(authority: &str) -> (path: Result<String, PathError>)
    ensures
        match path {
            Ok(p) => unix_path_of(authority@) == Ok::<Seq<char>, PathError>(p@),
            Err(e) => unix_path_of(authority@) == Err::<Seq<char>, PathError>(e),
        },
{
    match from_hex(authority) {
        Ok(bytes) => match from_utf8(bytes) {
            Some(path) => Ok(path),
            None => Err(PathError::NotUtf8),
        },
        Err(_) => Err(PathError::NotHex),
    }
}

/// Hex text of any bytes is hex text, and decodes to those bytes.
pub proof fn lemma_hex_round_trip(bytes: Seq<u8>)
    ensures
        is_hex(hex_encoded(bytes)),
        hex_decoded(hex_encoded(bytes)) == bytes,
{
}

/// The round trip of a Unix path: the hex text of a path's UTF-8 bytes, read
/// as an authority, stands for exactly that path.
pub proof fn lemma_unix_path_round_trip(path: Seq<char>, authority: Seq<char>)
    requires
        encode_utf8(authority) == hex_encoded(encode_utf8(path)),
    ensures
        unix_path_of(authority) == Ok::<Seq<char>, PathError>(path),
{
    lemma_hex_round_trip(encode_utf8(path));
    encode_utf8_valid_utf8(path);
    encode_utf8_decode_utf8(path);
}

} // verus!
