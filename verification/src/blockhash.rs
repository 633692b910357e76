//! The cluster's recent blockhash, as the thirty-two bytes it is made of.

use vstd::prelude::*;

verus! {

/// The text that `solana_sdk::hash::Hash` displays for the given bytes: their
/// Base58 encoding in the Bitcoin alphabet. The encoding is not spelled out
/// here; the name stands for whatever the outside crate prints.
pub uninterp spec fn blockhash_display(bytes: Seq<u8>) -> Seq<char>;

/// A blockhash. Two blockhashes are the same when their bytes are.
#[derive(Clone, Copy, Debug, PartialEq, Eq)]
pub struct Blockhash {
    pub bytes: [u8; 32],
}

impl View for Blockhash {
    type V = Seq<u8>;

    open spec fn view(&self) -> Seq<u8> {
        self.bytes@
    }
}

/// Calls `Display` of `solana_sdk::hash::Hash` on a hash made of `bytes` with
/// `Hash::new_from_array`. Trusted: the text returned is the one named by
/// [`blockhash_display`].
#[verifier::external_body]
fn display_hash(bytes: &[u8; 32]) -> (text: String)
    ensures
        text@ == blockhash_display(bytes@),
{
    solana_sdk::hash::Hash::new_from_array(*bytes).to_string()
}

impl Blockhash {
    /// The all-zero blockhash, which no snapshot has been compared with yet.
    pub fn zero() -> (hash: Blockhash)
        ensures
            hash@ == Seq::new(32, |i: int| 0u8),
    {
        Blockhash { bytes: [0u8; 32] }
    }

    /// The text shown for this blockhash in messages.
    pub fn text(&self) -> (text: String)
        ensures
            text@ == blockhash_display(self@),
    {
        display_hash(&self.bytes)
    }

    /// Whether two blockhashes hold the same bytes.
    pub fn same_as(&self, other: &Blockhash) -> (same: bool)
        ensures
            same == (self@ == other@),
    {
        let mut i: usize = 0;
        while i < 32
            invariant
                i <= 32,
                forall|j: int| 0 <= j < i ==> self.bytes@[j] == other.bytes@[j],
            decreases 32 - i,
        {
            if self.bytes[i] != other.bytes[i] {
                return false;
            }
            i += 1;
        }
        assert(self@ =~= other@);
        true
    }
}

} // verus!
