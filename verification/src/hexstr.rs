use vstd::prelude::*;
use crate::Key;

verus! {

/// The lowercase hexadecimal digit for a value below sixteen.
pub open spec fn hex_digit(n: u8) -> char
    recommends
        n < 16,
{
    if n == 0 {
        '0'
    } else if n == 1 {
        '1'
    } else if n == 2 {
        '2'
    } else if n == 3 {
        '3'
    } else if n == 4 {
        '4'
    } else if n == 5 {
        '5'
    } else if n == 6 {
        '6'
    } else if n == 7 {
        '7'
    } else if n == 8 {
        '8'
    } else if n == 9 {
        '9'
    } else if n == 10 {
        'a'
    } else if n == 11 {
        'b'
    } else if n == 12 {
        'c'
    } else if n == 13 {
        'd'
    } else if n == 14 {
        'e'
    } else {
        'f'
    }
}

/// The lowercase hexadecimal text of a byte sequence: two digits per byte,
/// high nibble first.
pub open spec fn hex_chars(bytes: Seq<u8>) -> Seq<char> {
    Seq::new(
        bytes.len() * 2,
        |i: int|
            if i % 2 == 0 {
                hex_digit((bytes[i / 2] / 16) as u8)
            } else {
                hex_digit((bytes[i / 2] % 16) as u8)
            },
    )
}

/// Relies on hex::encode of the hex crate: it turns each input byte into
/// two lowercase hexadecimal digits, high nibble first.
#[verifier::external_body]
fn encode_bytes(bytes: &[u8]) -> (r: String)
    ensures
        r@ == hex_chars(bytes@),
{
    hex::encode(bytes)
}

/// The lowercase hexadecimal text of a 32-byte key, as the handlers log it.
pub fn key_hex(key: &Key) -> (r: String)
    ensures
        r@ == hex_chars(key@),
        r@.len() == 64,
{
    encode_bytes(key.as_slice())
}

/// Two byte sequences with the same hexadecimal text are the same sequence:
/// the logged form of a key identifies it.
pub proof fn lemma_hex_chars_injective(a: Seq<u8>, b: Seq<u8>)
    requires
        hex_chars(a) == hex_chars(b),
    ensures
        a == b,
{
    assert(hex_chars(a).len() == 2 * a.len());
    assert(hex_chars(b).len() == 2 * b.len());
    assert(a.len() == b.len());
    assert forall|i: int| 0 <= i < a.len() implies a[i] == b[i] by {
        assert((2 * i) % 2 == 0 && (2 * i) / 2 == i);
        assert((2 * i + 1) % 2 == 1 && (2 * i + 1) / 2 == i);
        assert(hex_chars(a)[2 * i] == hex_digit((a[i] / 16) as u8));
        assert(hex_chars(b)[2 * i] == hex_digit((b[i] / 16) as u8));
        assert(hex_chars(a)[2 * i + 1] == hex_digit((a[i] % 16) as u8));
        assert(hex_chars(b)[2 * i + 1] == hex_digit((b[i] % 16) as u8));
        assert(hex_digit((a[i] / 16) as u8) == hex_digit((b[i] / 16) as u8));
        assert(hex_digit((a[i] % 16) as u8) == hex_digit((b[i] % 16) as u8));
        assert(a[i] / 16 == b[i] / 16 && a[i] % 16 == b[i] % 16);
    }
    assert(a =~= b);
}

} // verus!
