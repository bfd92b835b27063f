use vstd::prelude::*;

verus! {

/// The lowercase hexadecimal digit for a value below sixteen.
pub open spec fn hex_digit(d: int) -> char {
    if d == 0 { '0' } else if d == 1 { '1' } else if d == 2 { '2' } else if d == 3 { '3' }
    else if d == 4 { '4' } else if d == 5 { '5' } else if d == 6 { '6' } else if d == 7 { '7' }
    else if d == 8 { '8' } else if d == 9 { '9' } else if d == 10 { 'a' } else if d == 11 { 'b' }
    else if d == 12 { 'c' } else if d == 13 { 'd' } else if d == 14 { 'e' } else { 'f' }
}

/// Two lowercase hexadecimal digits per byte, high half first.
pub open spec fn hex_text(b: Seq<u8>) -> Seq<char>
    decreases b.len(),
{
    if b.len() == 0 {
        Seq::empty()
    } else {
        seq![hex_digit(b[0] as int / 16), hex_digit(b[0] as int % 16)] + hex_text(
            b.subrange(1, b.len() as int),
        )
    }
}

/// The decimal digit for a value below ten.
pub open spec fn dec_digit(d: int) -> char {
    if d == 0 { '0' } else if d == 1 { '1' } else if d == 2 { '2' } else if d == 3 { '3' }
    else if d == 4 { '4' } else if d == 5 { '5' } else if d == 6 { '6' } else if d == 7 { '7' }
    else if d == 8 { '8' } else { '9' }
}

/// The decimal digits of a natural number, without leading zeros.
pub open spec fn nat_text(n: nat) -> Seq<char>
    decreases n,
{
    if n < 10 {
        seq![dec_digit(n as int)]
    } else {
        nat_text(n / 10).push(dec_digit(n as int % 10))
    }
}

/// The decimal text of an integer, with a minus sign when it is negative.
pub open spec fn int_text(i: int) -> Seq<char> {
    if i < 0 {
        seq!['-'] + nat_text((-i) as nat)
    } else {
        nat_text(i as nat)
    }
}

pub proof fn lemma_hex_text_len(b: Seq<u8>)
    ensures
        hex_text(b).len() == 2 * b.len(),
    decreases b.len(),
{
    if b.len() > 0 {
        lemma_hex_text_len(b.subrange(1, b.len() as int));
    }
}

/// Relies on hex::encode: two lowercase hexadecimal digits for each byte,
/// in the order of the bytes.
#[verifier::external_body]
fn hex_encode(b: &[u8]) -> (r: String)
    ensures
        r@ == hex_text(b@),
{
    hex::encode(b)
}

/// Relies on rand::random: six bytes drawn from the thread-local generator.
/// Nothing is promised of their values.
#[verifier::external_body]
fn random_bytes() -> (r: [u8; 6]) {
    rand::random()
}

/// Relies on the `Display` impl of `i64` (through `to_string`): the decimal
/// text of the number, with a leading minus sign when it is negative.
#[verifier::external_body]
pub(crate) fn decimal(n: i64) -> (r: String)
    ensures
        r@ == int_text(n as int),
{
    n.to_string()
}

/// A fresh identifier: the hexadecimal text of six random bytes, twelve
/// lowercase hexadecimal digits.
pub fn random_hex_string() -> (r: String)
    ensures
        r@.len() == 12,
        exists|b: Seq<u8>| b.len() == 6 && r@ == hex_text(b),
{
    let bytes = random_bytes();
    let r = hex_encode(&bytes);
    proof {
        lemma_hex_text_len(bytes@);
    }
    r
}

} // verus!
