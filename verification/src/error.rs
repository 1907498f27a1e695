use vstd::prelude::*;

verus! {

/// The ways in which serializing a value can fail.
#[derive(Clone, Copy, Debug, PartialEq, Eq, Structural)]
pub enum ErrorKind {
    /// The encoded value would exceed the size limit of the options in use.
    SizeLimit,
    /// A sequence or map was serialized without announcing its length up front.
    SequenceMustHaveLength,
}

} // verus!
