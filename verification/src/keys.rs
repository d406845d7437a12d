//! Space-saving account keys: a deterministic 20-byte digest derived from an
//! account identifier, used as the ledger's lookup key.

use vstd::prelude::*;

verus! {

/// The SHA-256 digest of a byte string, named abstractly: it depends on the
/// input bytes alone, so repeated derivations agree by construction.
pub uninterp spec fn sha256_of(data: Seq<u8>) -> Seq<u8>;

/// Relies on `near_sdk::env::sha256`: the SHA-256 hash of the input bytes,
/// always 32 bytes long, a function of the input alone.
#[verifier::external_body]
fn sha256_digest(data: &Vec<u8>) -> (r: Vec<u8>)
    ensures
        r@ == sha256_of(data@),
        r@.len() == 32,
{
    near_sdk::env::sha256(data.as_slice())
}

/// The ledger key of an identifier: its digest truncated to 20 bytes.
pub open spec fn key_of(id: Seq<u8>) -> Seq<u8> {
    sha256_of(id).take(20)
}

/// A fixed-size, collision-prone digest of an account identifier; the
/// ledger is keyed by this value rather than the identifier itself.
#[derive(Clone, Copy)]
pub struct ShortAccountHash(pub [u8; 20]);

impl View for ShortAccountHash {
    type V = Seq<u8>;

    open spec fn view(&self) -> Seq<u8> {
        self.0@
    }
}

/// Derive the ledger key for an account identifier.
pub fn key_for(id: &Vec<u8>) -> (r: ShortAccountHash)
    ensures
        r@ == key_of(id@),
{
    let digest = sha256_digest(id);
    let mut buf: [u8; 20] = [0u8; 20];
    let mut i: usize = 0;
    while i < 20
        invariant
            i <= 20,
            digest@ == sha256_of(id@),
            digest@.len() == 32,
            buf@.len() == 20,
            forall|j: int| 0 <= j < i ==> buf@[j] == digest@[j],
        decreases 20 - i,
    {
        buf[i] = digest[i];
        i = i + 1;
    }
    proof {
        assert(buf@ =~= key_of(id@));
    }
    ShortAccountHash(buf)
}

/// Byte-wise equality of two ledger keys.
pub fn key_eq(a: &ShortAccountHash, b: &ShortAccountHash) -> (r: bool)
    ensures
        r <==> a@ == b@,
{
    let mut i: usize = 0;
    while i < 20
        invariant
            i <= 20,
            forall|j: int| 0 <= j < i ==> a@[j] == b@[j],
        decreases 20 - i,
    {
        if a.0[i] != b.0[i] {
            proof {
                assert(a@[i as int] != b@[i as int]);
            }
            return false;
        }
        i = i + 1;
    }
    proof {
        assert(a@ =~= b@);
    }
    true
}

/// The derived key is stable: two keys derived from the same identifier
/// are byte-for-byte equal, however often the derivation is repeated.
pub proof fn lemma_key_deterministic(id: Seq<u8>, k1: ShortAccountHash, k2: ShortAccountHash)
    requires
        k1@ == key_of(id),
        k2@ == key_of(id),
    ensures
        k1@ == k2@,
{
}

} // verus!
