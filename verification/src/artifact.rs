//! The bytes that a successful compilation hands over.

use vstd::prelude::*;

verus! {

/// Contains the bytes for a successfully compiled artifact.
#[derive(Clone, Debug, PartialEq, Eq)]
pub struct CompiledArtifact(Vec<u8>);

impl View for CompiledArtifact {
    type V = Seq<u8>;

    /// The artifact as a sequence of bytes.
    closed spec fn view(&self) -> Seq<u8> {
        self.0@
    }
}

impl CompiledArtifact {
    /// Creates a `CompiledArtifact` that holds exactly `code`.
    pub fn new(code: Vec<u8>) -> (artifact: Self)
        ensures
            artifact@ == code@,
    {
        Self(code)
    }

    /// The bytes of the artifact, borrowed.
    pub fn as_ref(&self) -> (bytes: &[u8])
        ensures
            bytes@ == self@,
    {
        self.0.as_slice()
    }

    /// Gives the bytes back, ending the artifact.
    pub fn into_bytes(self) -> (bytes: Vec<u8>)
        ensures
            bytes@ == self@,
    {
        self.0
    }
}

impl AsRef<[u8]> for CompiledArtifact {
    /// The bytes of the artifact, borrowed, for whatever takes bytes.
    fn as_ref(&self) -> (bytes: &[u8])
        ensures
            bytes@ == self@,
    {
        self.0.as_slice()
    }
}

} // verus!
