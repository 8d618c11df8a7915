use vstd::prelude::*;
use parity_scale_codec::Encode;
use crate::types::AccountId;

verus! {

/// The BLAKE2b digest of 256 bits of a byte sequence.
pub uninterp spec fn blake2_256_digest(data: Seq<u8>) -> Seq<u8>;

/// `sp_core::blake2_256`: its result is taken to be the named digest
/// [`blake2_256_digest`] of the input bytes; nothing more is claimed of it.
#[verifier::external_body]
fn blake2_256(data: &[u8]) -> (digest: [u8; 32])
    ensures
        digest@ == blake2_256_digest(data@),
{
    sp_core::blake2_256(data)
}

/// `parity_scale_codec::Encode::encode` on an account id: SCALE writes a
/// fixed-size byte array as its bytes in order, with no length prefix.
#[verifier::external_body]
fn encode_account(account: &AccountId) -> (encoded: Vec<u8>)
    ensures
        encoded@ == account@,
{
    account.encode()
}

/// `parity_scale_codec::Encode::encode` on a pair of references to account
/// ids: SCALE writes a tuple as the encodings of its fields one after the
/// other, and a reference as what it refers to.
#[verifier::external_body]
fn encode_account_pair(first: &AccountId, second: &AccountId) -> (encoded: Vec<u8>)
    ensures
        encoded@ == first@ + second@,
{
    (first, second).encode()
}

/// The key under which an attribute of a DID is stored: the digest of the
/// DID account's encoding followed by the attribute's name.
pub open spec fn attr_key(did_account: Seq<u8>, name: Seq<u8>) -> Seq<u8> {
    blake2_256_digest(did_account + name)
}

/// The identifier that ties an owner to a DID: the digest of the encoding of
/// the pair (owner, DID account).
pub open spec fn owner_id(owner: Seq<u8>, did_account: Seq<u8>) -> Seq<u8> {
    blake2_256_digest(owner + did_account)
}

/// Computes the storage key of the attribute `name` of `did_account`.
pub fn get_hashed_key_for_attr(did_account: &AccountId, name: &[u8]) -> (key: [u8; 32])
    ensures
        key@ == attr_key(did_account@, name@),
        key@ == blake2_256_digest(did_account@ + name@),
{
    let mut bytes_in_name: Vec<u8> = crate::types::copy_bytes(name);
    let mut bytes_to_hash: Vec<u8> = encode_account(did_account);
    bytes_to_hash.append(&mut bytes_in_name);
    blake2_256(bytes_to_hash.as_slice())
}

/// Computes the identifier that ties `owner` to `did_account`.
pub fn get_owner_id(owner: &AccountId, did_account: &AccountId) -> (id: [u8; 32])
    ensures
        id@ == owner_id(owner@, did_account@),
        id@ == blake2_256_digest(owner@ + did_account@),
{
    let encoded = encode_account_pair(owner, did_account);
    blake2_256(encoded.as_slice())
}

} // verus!
