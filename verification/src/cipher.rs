//! The encryption capability used to relay plans.

use vstd::prelude::*;

verus! {

/// An encryption strategy. From the orchestration core's point of view the
/// transform is a pure function of the cipher, the secret and the key;
/// `spec_transform` names that function and `transform` computes it.
pub trait Cipher {
    spec fn spec_transform(&self, secret: Seq<char>, key: Seq<char>) -> Seq<char>;

    fn transform(&self, secret: &str, key: &str) -> (ciphertext: String)
        ensures
            ciphertext@ == self.spec_transform(secret@, key@),
    ;
}

} // verus!
