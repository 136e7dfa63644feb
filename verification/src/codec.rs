//! Text encodings of bytes and numbers: lowercase hex (through the `hex`
//! crate) and decimal (through the standard library's `Display`).
use vstd::prelude::*;

verus! {

/// The lowercase hex digit of a value below 16.
pub open spec fn hex_digit(v: int) -> char
    recommends
        0 <= v < 16,
{
    if v < 10 {
        (48 + v) as char
    } else {
        (87 + v) as char
    }
}

/// The lowercase hex text of `bytes`: two digits per byte, high nibble
/// first.
pub open spec fn hex_lower(bytes: Seq<u8>) -> Seq<char>
    decreases bytes.len(),
{
    if bytes.len() == 0 {
        Seq::empty()
    } else {
        hex_lower(bytes.drop_last()) + seq![
            hex_digit(bytes.last() as int / 16),
            hex_digit(bytes.last() as int % 16),
        ]
    }
}

/// The decimal digit of a value below 10.
pub open spec fn decimal_digit(v: int) -> char
    recommends
        0 <= v < 10,
{
    (48 + v) as char
}

/// The decimal text of `n`, without sign or leading zeros.
pub open spec fn decimal(n: nat) -> Seq<char>
    decreases n,
{
    if n < 10 {
        seq![decimal_digit(n as int)]
    } else {
        decimal(n / 10).push(decimal_digit((n % 10) as int))
    }
}

/// `hex::encode`: the lowercase hex text of `bytes`.
#[verifier::external_body]
pub(crate) fn hex_encode(bytes: &[u8]) -> (s: String)
    ensures
        s@ == hex_lower(bytes@),
{
    hex::encode(bytes)
}

/// `u64::to_string`: the decimal text of `n`.
#[verifier::external_body]
pub(crate) fn u64_decimal(n: u64) -> (s: String)
    ensures
        s@ == decimal(n as nat),
{
    n.to_string()
}

/// The key under which a byte identifier (a commission or milestone id) is
/// stored: its lowercase hex text.
pub fn bytes_key(bytes: &[u8]) -> (s: String)
    ensures
        s@ == hex_lower(bytes@),
{
    hex_encode(bytes)
}

/// Distinct byte identifiers get distinct keys.
pub proof fn lemma_bytes_key_injective(a: Seq<u8>, b: Seq<u8>)
    requires
        hex_lower(a) == hex_lower(b),
    ensures
        a == b,
    decreases a.len(),
{
    lemma_hex_lower_len(a);
    lemma_hex_lower_len(b);
    if a.len() > 0 {
        let ha = hex_lower(a.drop_last());
        let hb = hex_lower(b.drop_last());
        lemma_hex_lower_len(a.drop_last());
        lemma_hex_lower_len(b.drop_last());
        assert(hex_lower(a)[ha.len() as int] == hex_digit(a.last() as int / 16));
        assert(hex_lower(b)[hb.len() as int] == hex_digit(b.last() as int / 16));
        assert(hex_lower(a)[ha.len() as int + 1] == hex_digit(a.last() as int % 16));
        assert(hex_lower(b)[hb.len() as int + 1] == hex_digit(b.last() as int % 16));
        assert(a.last() / 16 == b.last() / 16);
        assert(a.last() % 16 == b.last() % 16);
        assert(ha =~= hex_lower(a).subrange(0, ha.len() as int));
        assert(hb =~= hex_lower(b).subrange(0, hb.len() as int));
        lemma_bytes_key_injective(a.drop_last(), b.drop_last());
        assert(a =~= a.drop_last().push(a.last()));
        assert(b =~= b.drop_last().push(b.last()));
    }
}

proof fn lemma_hex_lower_len(a: Seq<u8>)
    ensures
        hex_lower(a).len() == 2 * a.len(),
    decreases a.len(),
{
    if a.len() > 0 {
        lemma_hex_lower_len(a.drop_last());
    }
}

} // verus!
