use anchor_lang::prelude::Pubkey;
use vstd::prelude::*;

verus! {

/// `Pubkey` of `anchor_lang`: the address of an account or of a party. It is
/// carried through as it is; what is known of it is its 32 bytes.
#[verifier::external_type_specification]
#[verifier::external_body]
pub struct ExPubkey(Pubkey);

/// The 32 bytes that an address wraps: what `Pubkey::to_bytes` returns.
pub uninterp spec fn key_bytes(key: Pubkey) -> Seq<u8>;

/// The bytes of the address that `Pubkey::default()` gives: 32 zeros.
pub open spec fn zero_key_bytes() -> Seq<u8> {
    Seq::new(32, |i: int| 0u8)
}

/// `Pubkey::to_bytes` hands out a copy of the byte array that the address
/// wraps. The contract gives those bytes their name.
pub assume_specification[ Pubkey::to_bytes ](key: &Pubkey) -> (bytes: [u8; 32])
    ensures
        bytes@ == key_bytes(*key),
;

/// `Clone` for `Pubkey` is derived on a `Copy` type: the clone is the address
/// itself.
pub assume_specification[ <Pubkey as Clone>::clone ](key: &Pubkey) -> (copy: Pubkey)
    ensures
        copy == *key,
;

/// `==` on `Pubkey` is the derived comparison of the wrapped byte arrays: two
/// addresses are equal exactly when their bytes are.
#[verifier::external_body]
pub(crate) fn same_key(a: &Pubkey, b: &Pubkey) -> (same: bool)
    ensures
        same == (key_bytes(*a) == key_bytes(*b)),
{
    a == b
}

/// `Pubkey::default()` is the derived default of the wrapped byte array: the
/// address of 32 zero bytes.
#[verifier::external_body]
pub(crate) fn default_key() -> (key: Pubkey)
    ensures
        key_bytes(key) == zero_key_bytes(),
{
    Pubkey::default()
}

/// Stores a blob under the address of the party that supplied it: the 32
/// bytes of `owner`, then `data` as it came. This marks whose blob it is; it
/// hides nothing.
pub fn encrypt_proof(data: &[u8], owner: &Pubkey) -> (sealed: Vec<u8>)
    ensures
        sealed@ == key_bytes(*owner) + data@,
        sealed@.len() == 32 + data@.len(),
{
    let prefix: [u8; 32] = owner.to_bytes();
    let mut sealed: Vec<u8> = Vec::new();
    sealed.extend_from_slice(prefix.as_slice());
    sealed.extend_from_slice(data);
    assert(sealed@ =~= key_bytes(*owner) + data@);
    sealed
}

} // verus!
