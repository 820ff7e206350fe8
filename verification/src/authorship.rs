//! From the key of a block's author to the account that receives its rewards.
use vstd::prelude::*;

verus! {

/// The 32 bytes of an account identifier on the chain.
pub type AccountId = [u8; 32];

/// Converts a byte slice into an account identifier; `None` unless the slice
/// holds exactly 32 bytes.
pub fn account_id_from_slice(bytes: &[u8]) -> (r: Option<AccountId>)
    ensures
        r is Some <==> bytes@.len() == 32,
        r matches Some(a) ==> a@ == bytes@,
{
    if bytes.len() != 32 {
        return None;
    }
    let mut data: [u8; 32] = [0u8; 32];
    let mut i: usize = 0;
    while i < 32
        invariant
            bytes@.len() == 32,
            0 <= i <= 32,
            forall|j: int| 0 <= j < i ==> data@[j] == bytes@[j],
        decreases 32 - i,
    {
        data[i] = bytes[i];
        i = i + 1;
    }
    assert(data@ =~= bytes@);
    Some(data)
}

/// Finds the account of a block's author from its Aura authority key.
pub struct AuraAccountAdapter;

impl AuraAccountAdapter {
    /// The account of the author whose Aura key `author_key` is, where the
    /// block names one: `None` where no author was found or where the key is
    /// not the 32 bytes of an account.
    pub fn find_author(author_key: Option<&[u8]>) -> (r: Option<AccountId>)
        ensures
            r is Some <==> (author_key matches Some(k) && k@.len() == 32),
            r matches Some(a) ==> (author_key matches Some(k) && a@ == k@),
    {
        match author_key {
            Some(k) => account_id_from_slice(k),
            None => None,
        }
    }
}

} // verus!
