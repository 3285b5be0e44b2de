use vstd::prelude::*;

verus! {

/// A 20-byte account or contract address, compared byte for byte.
#[derive(Clone, Copy, Debug)]
pub struct Address {
    pub bytes: [u8; 20],
}

impl View for Address {
    type V = Seq<u8>;

    open spec fn view(&self) -> Seq<u8> {
        self.bytes@
    }
}

/// An ECDSA signature: the big-endian `r` and `s` scalars and the recovery value `v`.
#[derive(Clone, Copy, Debug)]
pub struct Signature {
    pub r: [u8; 32],
    pub s: [u8; 32],
    pub v: u64,
}

/// A 32-byte message digest.
pub type Digest = [u8; 32];

/// The image id of the membership program: a proof counts only if it was made
/// for this program.
#[derive(Clone, Copy, Debug)]
pub struct ProgramIdentity {
    pub words: [u32; 8],
}

/// The committed public output: the holder list and the collection address.
#[derive(Clone, Debug)]
pub struct Journal {
    pub owners: Vec<Address>,
    pub collection: Address,
}

/// The holder list as a sequence of byte strings.
pub open spec fn addresses_view(owners: Seq<Address>) -> Seq<Seq<u8>> {
    owners.map_values(|a: Address| a@)
}

impl View for Journal {
    type V = (Seq<Seq<u8>>, Seq<u8>);

    open spec fn view(&self) -> (Seq<Seq<u8>>, Seq<u8>) {
        (addresses_view(self.owners@), self.collection@)
    }
}

/// Why a request was refused.
#[derive(Clone, Debug)]
pub enum ErrorKind {
    /// Address text of the wrong length or with a non-hex digit.
    InvalidAddress,
    /// Signature text of the wrong shape.
    InvalidSignature,
    /// The proof could not be made; the text is a diagnostic only.
    ProofGenerationFailed(String),
    /// Artifact bytes or text that do not decode.
    MalformedArtifact,
    /// An artifact that does not verify against the expected program.
    VerificationFailed,
}

/// Tests two addresses for byte equality.
pub fn same_address(a: &Address, b: &Address) -> (r: bool)
    ensures
        r == (a@ == b@),
{
    let mut i: usize = 0;
    while i < 20
        invariant
            i <= 20,
            a@.len() == 20,
            b@.len() == 20,
            forall|j: int| 0 <= j < i ==> a@[j] == b@[j],
        decreases 20 - i,
    {
        if a.bytes[i] != b.bytes[i] {
            return false;
        }
        i = i + 1;
    }
    assert(a@ =~= b@);
    true
}

} // verus!
