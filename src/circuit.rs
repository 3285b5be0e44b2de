use vstd::prelude::*;
use crate::types::{Address, Digest, Journal, Signature, addresses_view, same_address};
use ethers_core::types::{H256, U256};

verus! {

/// The address that signed `digest`, as ethers' recovery computes it from the
/// signature's `r`, `s` and `v`; `None` where the signature does not recover.
pub uninterp spec fn signer_of(digest: Seq<u8>, r: Seq<u8>, s: Seq<u8>, v: u64) -> Option<Seq<u8>>;

/// The signer that `sig` recovers to over `digest`.
pub open spec fn recovered(digest: Seq<u8>, sig: Signature) -> Option<Seq<u8>> {
    signer_of(digest, sig.r@, sig.s@, sig.v)
}

/// Why the membership program refuses to commit.
#[derive(Clone, Copy, Debug, PartialEq, Eq)]
pub enum CircuitError {
    /// The signature does not recover to any address.
    RecoveryFailed,
    /// The recovered signer is not among the holders.
    NotAMember,
}

/// Whether `signer` is, byte for byte, one of `owners`.
pub open spec fn is_member(owners: Seq<Seq<u8>>, signer: Seq<u8>) -> bool {
    owners.contains(signer)
}

/// What the membership program commits for a recovered signer: the holders and
/// the collection, exactly when the signer is one of the holders.
pub open spec fn circuit_spec(
    signer: Option<Seq<u8>>,
    owners: Seq<Seq<u8>>,
    collection: Seq<u8>,
) -> Result<(Seq<Seq<u8>>, Seq<u8>), CircuitError> {
    match signer {
        None => Err(CircuitError::RecoveryFailed),
        Some(s) => if is_member(owners, s) {
            Ok((owners, collection))
        } else {
            Err(CircuitError::NotAMember)
        },
    }
}

/// The committed output of a run, as plain values.
pub open spec fn outcome_view(r: Result<Journal, CircuitError>) -> Result<
    (Seq<Seq<u8>>, Seq<u8>),
    CircuitError,
> {
    match r {
        Ok(j) => Ok(j@),
        Err(e) => Err(e),
    }
}

/// A signer outside the holder list is refused: nothing is committed for it.
pub proof fn lemma_non_member_refused(owners: Seq<Seq<u8>>, collection: Seq<u8>, signer: Seq<u8>)
    requires
        !is_member(owners, signer),
    ensures
        circuit_spec(Some(signer), owners, collection) == Err::<(Seq<Seq<u8>>, Seq<u8>), CircuitError>(
            CircuitError::NotAMember,
        ),
{
}

/// A signer among the holders is admitted, and exactly the holder list and the
/// collection are committed.
pub proof fn lemma_member_commits(owners: Seq<Seq<u8>>, collection: Seq<u8>, signer: Seq<u8>)
    requires
        is_member(owners, signer),
    ensures
        circuit_spec(Some(signer), owners, collection) == Ok::<(Seq<Seq<u8>>, Seq<u8>), CircuitError>(
            (owners, collection),
        ),
{
}

/// Two different holders of the same collection get the same committed output,
/// so the output does not tell which holder signed.
pub proof fn lemma_output_hides_signer(
    owners: Seq<Seq<u8>>,
    collection: Seq<u8>,
    first: Seq<u8>,
    second: Seq<u8>,
)
    requires
        is_member(owners, first),
        is_member(owners, second),
    ensures
        circuit_spec(Some(first), owners, collection) == circuit_spec(
            Some(second),
            owners,
            collection,
        ),
{
}

/// Adding any address anywhere in the holder list keeps an admitted signer
/// admitted, and the new list is what gets committed.
pub proof fn lemma_added_holder_keeps_member(
    owners: Seq<Seq<u8>>,
    collection: Seq<u8>,
    signer: Seq<u8>,
    extra: Seq<u8>,
    pos: int,
)
    requires
        is_member(owners, signer),
        0 <= pos <= owners.len(),
    ensures
        circuit_spec(Some(signer), owners.insert(pos, extra), collection) == Ok::<
            (Seq<Seq<u8>>, Seq<u8>),
            CircuitError,
        >((owners.insert(pos, extra), collection)),
{
    let k = choose|k: int| 0 <= k < owners.len() && owners[k] == signer;
    if k < pos {
        assert(owners.insert(pos, extra)[k] == signer);
    } else {
        assert(owners.insert(pos, extra)[k + 1] == signer);
    }
}

/// Taking every copy of the signer out of the holder list gets it refused.
pub proof fn lemma_removed_signer_refused(owners: Seq<Seq<u8>>, collection: Seq<u8>, signer: Seq<u8>)
    ensures
        circuit_spec(Some(signer), owners.filter(|a: Seq<u8>| a != signer), collection) == Err::<
            (Seq<Seq<u8>>, Seq<u8>),
            CircuitError,
        >(CircuitError::NotAMember),
{
    let rest = owners.filter(|a: Seq<u8>| a != signer);
    if rest.contains(signer) {
        let k = choose|k: int| 0 <= k < rest.len() && rest[k] == signer;
        owners.filter_lemma(|a: Seq<u8>| a != signer);
        assert(rest[k] != signer);
    }
}

/// Tests whether `signer` occurs in `owners`.
pub fn contains_address(owners: &Vec<Address>, signer: &Address) -> (r: bool)
    ensures
        r == is_member(addresses_view(owners@), signer@),
{
    let mut i: usize = 0;
    while i < owners.len()
        invariant
            i <= owners.len(),
            forall|j: int| 0 <= j < i ==> owners@[j]@ != signer@,
        decreases owners.len() - i,
    {
        if same_address(&owners[i], signer) {
            assert(addresses_view(owners@)[i as int] == signer@);
            return true;
        }
        i = i + 1;
    }
    proof {
        if addresses_view(owners@).contains(signer@) {
            let k = choose|k: int|
                0 <= k < addresses_view(owners@).len() && addresses_view(owners@)[k] == signer@;
            assert(owners@[k]@ == signer@);
        }
    }
    false
}

/// Relies on ethers_core's `Signature::recover` with a prehashed message: the
/// signer's address, or an error for a signature that does not recover. The
/// outcome depends on the digest and the signature alone.
#[verifier::external_body]
pub(crate) fn recover_signer(digest: &Digest, sig: &Signature) -> (r: Option<Address>)
    ensures
        match r {
            Some(a) => signer_of(digest@, sig.r@, sig.s@, sig.v) == Some(a@),
            None => signer_of(digest@, sig.r@, sig.s@, sig.v) is None,
        },
{
    let theirs = ethers_core::types::Signature {
        r: U256::from_big_endian(&sig.r),
        s: U256::from_big_endian(&sig.s),
        v: sig.v,
    };
    match theirs.recover(H256(*digest)) {
        Ok(a) => Some(Address { bytes: a.0 }),
        Err(_) => None,
    }
}

/// The membership decision once the signer is known: commit the holders and
/// the collection, in that order, only for a signer among the holders.
pub fn commit_if_member(signer: Option<Address>, owners: Vec<Address>, collection: Address) -> (r:
    Result<Journal, CircuitError>)
    ensures
        outcome_view(r) == circuit_spec(
            match signer {
                Some(a) => Some(a@),
                None => None,
            },
            addresses_view(owners@),
            collection@,
        ),
{
    match signer {
        None => Err(CircuitError::RecoveryFailed),
        Some(s) => {
            if contains_address(&owners, &s) {
                Ok(Journal { owners, collection })
            } else {
                Err(CircuitError::NotAMember)
            }
        },
    }
}

/// The membership program: recover the signer of `digest`, require it to be one
/// of `owners`, and commit `owners` and `collection`.
pub fn run_circuit(digest: &Digest, sig: &Signature, owners: Vec<Address>, collection: Address) -> (r:
    Result<Journal, CircuitError>)
    ensures
        outcome_view(r) == circuit_spec(recovered(digest@, *sig), addresses_view(owners@), collection@),
{
    let signer = recover_signer(digest, sig);
    commit_if_member(signer, owners, collection)
}

} // verus!
