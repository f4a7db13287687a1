use vstd::prelude::*;

verus! {

/// Failure modes of the mixing engine.
///
/// Every operation either completes and commits its effects, or fails with
/// one of these and commits nothing.
#[derive(Clone, Copy, PartialEq, Eq, Structural, Debug)]
pub enum MixerError {
    /// The symmetric key was read before the contract was constructed.
    UninitializedKey,
    /// The batch length does not equal the recipient count times the fixed
    /// block width.
    MalformedInput,
    /// A block failed authenticated decryption (tampering, wrong key, or
    /// corruption).
    Authentication,
    /// The secure randomness source refused to yield the bytes an operation
    /// needed; no state was changed.
    RandomnessUnavailable,
}

} // verus!
