use vstd::prelude::*;

verus! {

/// A typed conversion failure, surfaced to the caller of the builder that hit
/// it. A hard failure aborts that one record's conversion and never corrupts
/// or silently defaults another record's output.
#[derive(Debug)]
pub enum ParsingError {
    /// A context object that this conversion requires was not supplied.
    MissingDependency(&'static str),
    /// A record kind was encountered that this layer does not know how to
    /// convert.
    Unsupported(&'static str),
    /// A failure of the underlying reader while forcing a lazy parse.
    Reader(pdb::Error),
}

} // verus!
