//! Modes of textual content representation.

pub mod geometric;

use vstd::prelude::*;

verus! {

/// A particular mode of textual content representation.
#[derive(Clone, Copy, Debug, PartialEq, Eq, Structural)]
pub enum Mode {
    /// The default format used to represent English writing.
    Anglicized,
    /// A format used to represent mathematical writing.
    Algebraic,
    /// A format used to represent technical writing.
    Programming,
    /// A format used to represent drawings.
    Geometric,
    /// A format based on the markdown language.
    Markdown,
}

} // verus!
