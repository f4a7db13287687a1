use vstd::prelude::*;
use rustc_hex::ToHex;

verus! {

/// The sixteen lowercase hexadecimal digits, in value order.
pub open spec fn hex_digits() -> Seq<char> {
    seq!['0', '1', '2', '3', '4', '5', '6', '7', '8', '9', 'a', 'b', 'c', 'd', 'e', 'f']
}

/// Lowercase hexadecimal encoding of a byte string: two digits per byte,
/// high nibble first.
pub open spec fn hex_of(b: Seq<u8>) -> Seq<char>
    decreases b.len(),
{
    if b.len() == 0 {
        Seq::empty()
    } else {
        seq![
            hex_digits()[(b.first() / 16) as int],
            hex_digits()[(b.first() % 16) as int],
        ] + hex_of(b.drop_first())
    }
}

/// Relies on rustc_hex's `ToHex` for byte slices: it emits exactly two
/// lowercase hex digits per byte, high nibble first.
#[verifier::external_body]
pub(crate) fn bytes_to_hex(b: &[u8]) -> (r: String)
    ensures
        r@ == hex_of(b@),
{
    b.to_hex()
}

} // verus!
