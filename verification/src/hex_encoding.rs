use vstd::prelude::*;

verus! {

/// The sixteen lowercase hexadecimal digit characters, in value order.
pub open spec fn hex_digits() -> Seq<char> {
    seq!['0', '1', '2', '3', '4', '5', '6', '7', '8', '9', 'a', 'b', 'c', 'd', 'e', 'f']
}

/// The lowercase hexadecimal digit for a nibble value.
pub open spec fn hex_digit(n: u8) -> char
    recommends
        n < 16,
{
    hex_digits()[n as int]
}

/// The lowercase hexadecimal encoding of a byte sequence: two digits per
/// byte, high nibble first.
pub open spec fn hex_of(bytes: Seq<u8>) -> Seq<char>
    decreases bytes.len(),
{
    if bytes.len() == 0 {
        Seq::empty()
    } else {
        seq![hex_digit(bytes[0] / 16), hex_digit(bytes[0] % 16)] + hex_of(bytes.drop_first())
    }
}

/// The encoding is twice as long as what it encodes.
pub proof fn lemma_hex_of_len(bytes: Seq<u8>)
    ensures
        hex_of(bytes).len() == 2 * bytes.len(),
    decreases bytes.len(),
{
    if bytes.len() != 0 {
        lemma_hex_of_len(bytes.drop_first());
    }
}

/// Encoding a prefix of a byte sequence gives the corresponding prefix of
/// the encoding of the whole sequence.
pub proof fn lemma_hex_of_take(bytes: Seq<u8>, k: int)
    requires
        0 <= k <= bytes.len(),
    ensures
        hex_of(bytes.take(k)) == hex_of(bytes).take(2 * k),
    decreases k,
{
    lemma_hex_of_len(bytes);
    if k == 0 {
        assert(hex_of(bytes.take(0)) =~= hex_of(bytes).take(0));
    } else {
        lemma_hex_of_take(bytes.drop_first(), k - 1);
        lemma_hex_of_len(bytes.drop_first());
        lemma_hex_of_len(bytes.take(k));
        assert(bytes.take(k).drop_first() =~= bytes.drop_first().take(k - 1));
        assert(hex_of(bytes.take(k)) =~= hex_of(bytes).take(2 * k));
    }
}

/// Relies on hex::encode: the lowercase hexadecimal encoding of the bytes,
/// two digits per byte, high nibble first.
#[verifier::external_body]
pub(crate) fn hex_encode(bytes: &Vec<u8>) -> (r: String)
    ensures
        r@ == hex_of(bytes@),
{
    hex::encode(bytes)
}

} // verus!
