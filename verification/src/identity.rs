//! The ownership verifier's final stage: byte-exact comparison of the
//! identity hash recovered by the external cryptographic primitive against
//! the expected identity hash from the script's configuration.

use vstd::prelude::*;

use crate::error::Error;

verus! {

/// Exact-match identity verification: equal byte sequences are accepted,
/// anything else is a wrong public key.
pub open spec fn spec_verify_identity(recovered: Seq<u8>, expected: Seq<u8>) -> Result<(), Error> {
    if recovered == expected {
        Ok(())
    } else {
        Err(Error::WrongPubkey)
    }
}

/// Compare the recovered identity hash with the expected one. Equality is
/// exact and total: any difference in length or in any byte rejects.
pub fn verify_identity(recovered: &[u8], expected: &[u8]) -> (r: Result<(), Error>)
    ensures
        r == spec_verify_identity(recovered@, expected@),
{
    if recovered.len() != expected.len() {
        return Err(Error::WrongPubkey);
    }
    let n = recovered.len();
    let mut i: usize = 0;
    while i < n
        invariant
            i <= n,
            n == recovered@.len() == expected@.len(),
            forall|j: int| 0 <= j < i ==> recovered@[j] == expected@[j],
        decreases n - i,
    {
        if recovered[i] != expected[i] {
            return Err(Error::WrongPubkey);
        }
        i = i + 1;
    }
    proof {
        assert(recovered@ =~= expected@);
    }
    Ok(())
}

/// Interpret the outcome of the external recovery primitive: a failed
/// recovery rejects the request; a recovered hash is then held to the
/// exact-match check.
pub fn verify_recovered_identity(recovered: &Option<Vec<u8>>, expected: &Vec<u8>) -> (r: Result<
    (),
    Error,
>)
    ensures
        recovered is None ==> r == Err::<(), Error>(Error::Secp256k1),
        recovered matches Some(h) ==> r == spec_verify_identity(h@, expected@),
{
    match recovered {
        None => Err(Error::Secp256k1),
        Some(h) => verify_identity(h.as_slice(), expected.as_slice()),
    }
}

/// Identity verification is exact-match only: two identity hashes that
/// differ at any single position are rejected.
pub proof fn lemma_identity_exact_match(a: Seq<u8>, b: Seq<u8>, i: int)
    requires
        0 <= i < a.len(),
        0 <= i < b.len(),
        a[i] != b[i],
    ensures
        spec_verify_identity(a, b) == Err::<(), Error>(Error::WrongPubkey),
{
}

} // verus!
