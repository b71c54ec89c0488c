//! The two output streams that a styling context can be meant for.
use vstd::prelude::*;

verus! {

/// The stream that styled text is written to.
#[derive(Clone, Copy, Debug, PartialEq, Eq, Structural)]
pub enum Stream {
    Stdout,
    Stderr,
}

} // verus!
