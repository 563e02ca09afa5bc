//! The 32-byte identity (public key) of an on-chain account, held as plain
//! bytes so that contracts can speak about it directly, together with the
//! base58 text form that the data source reports identities in.

use vstd::prelude::*;

verus! {

/// The bytes that a base58 string decodes to, when it decodes to exactly
/// 32 bytes; `None` otherwise. Gives a name to what
/// `solana_pubkey::Pubkey::from_str` computes.
pub uninterp spec fn pubkey_from_base58(s: Seq<char>) -> Option<Seq<u8>>;

/// The canonical base58 text form of 32 key bytes. Gives a name to what the
/// `Display` impl of `solana_pubkey::Pubkey` computes.
pub uninterp spec fn base58_of_pubkey(b: Seq<u8>) -> Seq<char>;

/// A 32-byte account identity: a validator's node key, a record's address,
/// or the authority allowed to mutate a record.
#[derive(Clone, Copy, Debug, PartialEq, Eq)]
pub struct Identity {
    pub bytes: [u8; 32],
}

impl Identity {
    /// Byte-for-byte equality of two identities.
    pub fn equals(&self, other: &Identity) -> (r: bool)
        ensures
            r == (self.bytes@ == other.bytes@),
    {
        let mut i: usize = 0;
        while i < 32
            invariant
                i <= 32,
                forall|j: int| 0 <= j < i ==> self.bytes@[j] == other.bytes@[j],
            decreases 32 - i,
        {
            if self.bytes[i] != other.bytes[i] {
                return false;
            }
            i = i + 1;
        }
        proof {
            assert(self.bytes@ =~= other.bytes@);
        }
        true
    }
}

/// Relies on `solana_pubkey::Pubkey::from_str`: base58 decoding of the
/// characters alone, succeeding exactly when the string decodes to 32 bytes.
#[verifier::external_body]
pub(crate) fn parse_pubkey(s: &str) -> (r: Option<Identity>)
    ensures
        r is Some <==> pubkey_from_base58(s@) is Some,
        r matches Some(id) ==> Some(id.bytes@) == pubkey_from_base58(s@),
{
    match <solana_pubkey::Pubkey as std::str::FromStr>::from_str(s) {
        Ok(pk) => Some(Identity { bytes: pk.to_bytes() }),
        Err(_) => None,
    }
}

/// Relies on the `Display` impl of `solana_pubkey::Pubkey`: base58
/// encoding of the 32 key bytes alone.
#[verifier::external_body]
pub(crate) fn encode_pubkey(id: &Identity) -> (r: String)
    ensures
        r@ == base58_of_pubkey(id.bytes@),
{
    solana_pubkey::Pubkey::new_from_array(id.bytes).to_string()
}

} // verus!
