use vstd::prelude::*;

verus! {

/// The single byte that carries a boolean over the channel.
pub fn encode_boolean(boolean: bool) -> (r: u8)
    ensures
        r == (if boolean { 1u8 } else { 0u8 }),
{
    if boolean { 1 } else { 0 }
}

/// The boolean that a received byte carries: only `1` means `true`.
pub fn decode_boolean(byte: u8) -> (r: bool)
    ensures
        r == (byte == 1),
{
    byte == 1
}

/// A boolean survives the trip through its byte.
pub proof fn lemma_boolean_round_trip(boolean: bool)
    ensures
        ((if boolean { 1u8 } else { 0u8 }) == 1) == boolean,
{
}

} // verus!
