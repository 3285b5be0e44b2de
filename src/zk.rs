use vstd::prelude::*;
use vstd::string::StringExecFns;
use crate::challenge::{build_challenge, challenge_digest};
use crate::circuit::{circuit_spec, recovered, run_circuit};
use crate::codec::{base64_text, le_bytes, text_to_words, words_of_text, words_to_text};
use crate::types::{Address, Digest, ErrorKind, ProgramIdentity, Signature, addresses_view};
use ethers_core::types::{H160, H256, U256};
use risc0_zkvm::{ExecutorEnv, ExternalProver, Prover, Receipt};

verus! {

/// risc0's proof receipt: a seal and its journal, carried through unopened.
#[verifier::external_type_specification]
#[verifier::external_body]
pub struct ExReceipt(Receipt);

/// The holder list and collection that journal bytes hold, `None` where they do
/// not decode, as risc0's word serde reads them.
pub uninterp spec fn journal_pair(bytes: Seq<u8>) -> Option<(Seq<Seq<u8>>, Seq<u8>)>;

/// A decoded pair as plain values.
pub open spec fn pair_view(p: (Vec<Address>, Address)) -> (Seq<Seq<u8>>, Seq<u8>) {
    (addresses_view(p.0@), p.1@)
}

/// Relies on risc0_zkvm's `serde::to_vec`: the receipt as words, or `None` if
/// it does not serialise.
#[verifier::external_body]
fn receipt_to_words(receipt: &Receipt) -> (r: Option<Vec<u32>>) {
    risc0_zkvm::serde::to_vec(receipt).ok()
}

/// Whether words deserialise to a receipt, as risc0's word serde reads them.
pub uninterp spec fn receipt_decodes(words: Seq<u32>) -> bool;

/// Relies on risc0_zkvm's `serde::from_slice`: the receipt that the words
/// hold, or `None` if they do not deserialise; which of the two depends on the
/// words alone.
#[verifier::external_body]
fn words_to_receipt(words: &Vec<u32>) -> (r: Option<Receipt>)
    ensures
        r is Some == receipt_decodes(words@),
{
    risc0_zkvm::serde::from_slice::<Receipt, u32>(words).ok()
}

/// Relies on the public `journal.bytes` field of risc0_zkvm's `Receipt`.
#[verifier::external_body]
fn journal_bytes(receipt: &Receipt) -> (r: Vec<u8>) {
    receipt.journal.bytes.clone()
}

/// Relies on risc0_zkvm's `serde::from_slice`, as `Journal::decode` uses it,
/// read as a list of 20-byte addresses and one address: the outcome depends on
/// the bytes alone. It panics on bytes that are not a whole number of words.
#[verifier::external_body]
fn decode_journal(bytes: &Vec<u8>) -> (r: Option<(Vec<Address>, Address)>)
    requires
        bytes@.len() % 4 == 0,
    ensures
        match r {
            Some(p) => journal_pair(bytes@) == Some(pair_view(p)),
            None => journal_pair(bytes@) is None,
        },
{
    let (owners, collection) = risc0_zkvm::serde::from_slice::<(Vec<H160>, H160), u8>(
        bytes,
    ).ok()?;
    Some((owners.into_iter().map(|a| Address { bytes: a.0 }).collect(), Address { bytes: collection.0 }))
}

/// Relies on risc0_zkvm's `Receipt::verify`: whether the receipt proves a run of
/// the program with this image id that committed its journal.
#[verifier::external_body]
fn receipt_verifies(receipt: &Receipt, identity: &ProgramIdentity) -> (r: bool) {
    receipt.verify(risc0_zkvm::sha::Digest::from(identity.words)).is_ok()
}

/// Relies on risc0_zkvm's `ExecutorEnv` builder and `ExternalProver::prove`,
/// which reports a missing or failing r0vm server as an error: runs `program`
/// on the digest, the signature, the holders and the collection, written in
/// that order, and returns the receipt or the prover's diagnostic.
#[verifier::external_body]
fn prove_with_backend(
    program: &[u8],
    r0vm_path: &str,
    digest: &Digest,
    sig: &Signature,
    owners: &Vec<Address>,
    collection: &Address,
) -> (r: Result<Receipt, String>) {
    let sig = ethers_core::types::Signature {
        r: U256::from_big_endian(&sig.r),
        s: U256::from_big_endian(&sig.s),
        v: sig.v,
    };
    let owners: Vec<H160> = owners.iter().map(|a| H160(a.bytes)).collect();
    let run = || -> risc0_zkvm::Result<Receipt> {
        let mut env = ExecutorEnv::builder();
        env.write(&H256(*digest))?.write(&sig)?.write(&owners)?.write(&H160(collection.bytes))?;
        Ok(ExternalProver::new("ipc", r0vm_path).prove(env.build()?, program)?.receipt)
    };
    run().map_err(|e| e.to_string())
}

/// Proves that the signer of the challenge for `nft_address` is one of
/// `nft_owners`, with `program` as the membership program, run by the r0vm
/// server at `r0vm_path`. The membership
/// decision is made first, and the prover runs only where it admits the
/// signer; a refused signer and a failed prover give the same error.
pub fn generate_proof(
    nft_address: Address,
    signature: Signature,
    nft_owners: Vec<Address>,
    program: &[u8],
    r0vm_path: &str,
) -> (r: Result<Receipt, ErrorKind>)
    ensures
        circuit_spec(
            recovered(challenge_digest(nft_address@), signature),
            addresses_view(nft_owners@),
            nft_address@,
        ) is Err ==> r matches Err(ErrorKind::ProofGenerationFailed(_)),
        r matches Err(e) ==> e is ProofGenerationFailed,
{
    let (_message, digest) = build_challenge(&nft_address);
    match run_circuit(&digest, &signature, nft_owners, nft_address) {
        Err(_) => Err(ErrorKind::ProofGenerationFailed(String::from_str("proof generation failed"))),
        Ok(journal) => match prove_with_backend(program, r0vm_path, &digest, &signature, &journal.owners, &journal.collection) {
            Ok(receipt) => Ok(receipt),
            Err(diagnostic) => Err(ErrorKind::ProofGenerationFailed(diagnostic)),
        },
    }
}

/// Reads the holders and the collection from a receipt's journal bytes and
/// hands them out only when the receipt verified. Bytes that are not a whole
/// number of words or do not decode are a malformed artifact; a receipt that
/// did not verify is refused even though its journal decoded.
pub fn accept_journal(bytes: &Vec<u8>, verified: bool) -> (r: Result<
    (Vec<Address>, Address),
    ErrorKind,
>)
    ensures
        bytes@.len() % 4 != 0 ==> r matches Err(ErrorKind::MalformedArtifact),
        bytes@.len() % 4 == 0 ==> match journal_pair(bytes@) {
            None => r matches Err(ErrorKind::MalformedArtifact),
            Some(p) => if verified {
                r matches Ok(q) && pair_view(q) == p
            } else {
                r matches Err(ErrorKind::VerificationFailed)
            },
        },
{
    if bytes.len() % 4 != 0 {
        return Err(ErrorKind::MalformedArtifact);
    }
    match decode_journal(bytes) {
        None => Err(ErrorKind::MalformedArtifact),
        Some(p) => if verified {
            Ok(p)
        } else {
            Err(ErrorKind::VerificationFailed)
        },
    }
}

/// Verifies `receipt` against `identity` and returns the holders and the
/// collection that it committed.
pub fn verify_and_extract_data(receipt: &Receipt, identity: &ProgramIdentity) -> (r: Result<
    (Vec<Address>, Address),
    ErrorKind,
>)
    ensures
        r matches Err(e) ==> (e is MalformedArtifact || e is VerificationFailed),
        r matches Ok(p) ==> exists|b: Seq<u8>| journal_pair(b) == Some(pair_view(p)),
{
    let bytes = journal_bytes(receipt);
    let verified = receipt_verifies(receipt, identity);
    accept_journal(&bytes, verified)
}

/// Writes a receipt as artifact text: its serde words, little-endian, in
/// standard base64.
pub fn encode_receipt(receipt: &Receipt) -> (r: Result<String, ErrorKind>)
    ensures
        r matches Ok(t) ==> exists|w: Seq<u32>| t@ == base64_text(le_bytes(w)),
        r matches Err(e) ==> e is MalformedArtifact,
{
    match receipt_to_words(receipt) {
        None => Err(ErrorKind::MalformedArtifact),
        Some(words) => if words.len() > usize::MAX / 4 {
            Err(ErrorKind::MalformedArtifact)
        } else {
            Ok(words_to_text(&words))
        },
    }
}

/// Reads a receipt back from artifact text.
pub fn decode_receipt(text: &str) -> (r: Result<Receipt, ErrorKind>)
    ensures
        words_of_text(text@) is None ==> r matches Err(ErrorKind::MalformedArtifact),
        words_of_text(text@) matches Some(w) ==> (r is Ok == receipt_decodes(w)),
        text@.len() == 0 ==> r matches Err(ErrorKind::MalformedArtifact),
        r matches Err(e) ==> e is MalformedArtifact,
{
    let words = text_to_words(text)?;
    match words_to_receipt(&words) {
        None => Err(ErrorKind::MalformedArtifact),
        Some(receipt) => Ok(receipt),
    }
}

} // verus!
