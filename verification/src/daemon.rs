//! The background service's access rules: the bearer token that guards its
//! event stream, and the check of an `Authorization` header against it.

use vstd::prelude::*;
use rand::RngCore;
use crate::text::{owned, push_char, push_str, str_eq};

verus! {

/// The lowercase hexadecimal digit of a value below sixteen.
pub open spec fn hex_digit(v: int) -> char {
    if v == 0 {
        '0'
    } else if v == 1 {
        '1'
    } else if v == 2 {
        '2'
    } else if v == 3 {
        '3'
    } else if v == 4 {
        '4'
    } else if v == 5 {
        '5'
    } else if v == 6 {
        '6'
    } else if v == 7 {
        '7'
    } else if v == 8 {
        '8'
    } else if v == 9 {
        '9'
    } else if v == 10 {
        'a'
    } else if v == 11 {
        'b'
    } else if v == 12 {
        'c'
    } else if v == 13 {
        'd'
    } else if v == 14 {
        'e'
    } else {
        'f'
    }
}

/// Each byte as two lowercase hexadecimal digits, high nibble first.
pub open spec fn hex_of(bytes: Seq<u8>) -> Seq<char>
    decreases bytes.len(),
{
    if bytes.len() == 0 {
        Seq::empty()
    } else {
        let b = bytes.last();
        hex_of(bytes.drop_last()).push(hex_digit(b as int / 16)).push(hex_digit(b as int % 16))
    }
}

fn digit(v: u8) -> (c: char)
    requires
        v < 16,
    ensures
        c == hex_digit(v as int),
{
    match v {
        0 => '0',
        1 => '1',
        2 => '2',
        3 => '3',
        4 => '4',
        5 => '5',
        6 => '6',
        7 => '7',
        8 => '8',
        9 => '9',
        10 => 'a',
        11 => 'b',
        12 => 'c',
        13 => 'd',
        14 => 'e',
        _ => 'f',
    }
}

/// The bytes as lowercase hexadecimal text, two digits per byte.
pub fn token_hex(bytes: &[u8]) -> (r: String)
    ensures
        r@ == hex_of(bytes@),
        r@.len() == 2 * bytes@.len(),
{
    let mut out = String::new();
    let mut i: usize = 0;
    while i < bytes.len()
        invariant
            i <= bytes@.len(),
            out@ == hex_of(bytes@.take(i as int)),
            out@.len() == 2 * i,
        decreases bytes@.len() - i,
    {
        let b = bytes[i];
        assert(bytes@.take(i + 1).drop_last() =~= bytes@.take(i as int));
        push_char(&mut out, digit(b / 16));
        push_char(&mut out, digit(b % 16));
        i = i + 1;
    }
    assert(bytes@.take(bytes@.len() as int) =~= bytes@);
    out
}

/// The error of `rand`'s random sources (`rand::Error`, which is
/// `rand_core::Error`). Nothing is read from it.
#[verifier::external_type_specification]
#[verifier::external_body]
pub struct ExRandError(rand::Error);

/// `rand::rngs::OsRng::try_fill_bytes`: fills the buffer from the operating
/// system's random source, or returns the source's error. Nothing is stated
/// of the bytes (they are chance), nor of when the source fails.
#[verifier::external_body]
fn fill_from_os(buf: &mut [u8; 32]) -> (r: Result<(), rand::Error>) {
    rand::rngs::OsRng.try_fill_bytes(buf)
}

/// Why no token could be made.
#[derive(Debug, Clone, Copy, PartialEq, Eq)]
pub enum TokenError {
    /// The operating system's random source could not be read.
    RandomSourceUnavailable,
}

/// A fresh bearer token for the service: thirty-two random bytes, written
/// as sixty-four lowercase hexadecimal digits. Fails, instead of handing
/// out a guessable token, when no random bytes can be had.
pub fn new_daemon_token() -> (r: Result<String, TokenError>)
    ensures
        r matches Ok(t) ==> (exists|bytes: Seq<u8>| bytes.len() == 32 && t@ == hex_of(bytes)),
        r matches Ok(t) ==> t@.len() == 64,
{
    let mut bytes: [u8; 32] = [0u8; 32];
    match fill_from_os(&mut bytes) {
        Ok(()) => {
            let r = token_hex(bytes.as_slice());
            assert(bytes@.len() == 32);
            Ok(r)
        },
        Err(_) => Err(TokenError::RandomSourceUnavailable),
    }
}

/// The header value that the service's stream accepts.
pub open spec fn bearer_value(token: Seq<char>) -> Seq<char> {
    "Bearer "@ + token
}

/// Whether a request's `Authorization` header carries the service's token.
pub fn is_authorized(header: Option<&str>, token: &str) -> (b: bool)
    ensures
        b == (header matches Some(h) && h@ == bearer_value(token@)),
{
    match header {
        Some(h) => {
            let mut expected = owned("Bearer ");
            push_str(&mut expected, token);
            str_eq(h, expected.as_str())
        },
        None => false,
    }
}

} // verus!
