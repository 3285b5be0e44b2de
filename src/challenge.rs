use vstd::prelude::*;
use vstd::string::StringExecFns;
use crate::types::{Address, Digest};
use ethers_core::types::H160;

verus! {

/// The mixed-case display form of an address, as ethers' `to_checksum` derives
/// it from the raw bytes.
pub uninterp spec fn checksum_of(addr: Seq<u8>) -> Seq<char>;

/// The EIP-191 digest of a message, as ethers' `hash_message` computes it.
pub uninterp spec fn eip191_digest(message: Seq<char>) -> Seq<u8>;

/// The challenge text that a holder signs for `collection`.
pub open spec fn challenge_text(collection: Seq<u8>) -> Seq<char> {
    "Confirm ownership of "@ + checksum_of(collection)
}

/// The digest that a holder's signature over the challenge text covers.
pub open spec fn challenge_digest(collection: Seq<u8>) -> Seq<u8> {
    eip191_digest(challenge_text(collection))
}

/// Relies on ethers_core's `utils::to_checksum` without a chain id: the display
/// form depends on the address bytes alone.
#[verifier::external_body]
fn checksum_display(addr: &Address) -> (r: String)
    ensures
        r@ == checksum_of(addr@),
{
    ethers_core::utils::to_checksum(&H160(addr.bytes), None)
}

/// Relies on ethers_core's `utils::hash_message`: the domain-separated digest
/// depends on the message alone.
#[verifier::external_body]
fn signed_message_digest(message: &str) -> (r: Digest)
    ensures
        r@ == eip191_digest(message@),
{
    ethers_core::utils::hash_message(message).0
}

/// Builds the challenge text for `collection` and its digest.
pub fn build_challenge(collection: &Address) -> (r: (String, Digest))
    ensures
        r.0@ == challenge_text(collection@),
        r.1@ == challenge_digest(collection@),
{
    let mut message = String::from_str("Confirm ownership of ");
    let shown = checksum_display(collection);
    message.append(shown.as_str());
    let digest = signed_message_digest(message.as_str());
    (message, digest)
}

} // verus!
