use vstd::prelude::*;

verus! {

/// Why no pattern was built.
#[derive(PartialEq, Eq, Structural, Clone, Copy, Debug)]
pub enum BuildError {
    /// An example is not a string.
    TypeMismatch,
    /// No example is left to build from; the engine needs at least one.
    NoExamples,
    /// The minimum repetition count came out as zero, which the engine refuses.
    ZeroMinimumRepetitions,
    /// The minimum substring length came out as zero, which the engine refuses.
    ZeroMinimumSubstringLength,
}

} // verus!
