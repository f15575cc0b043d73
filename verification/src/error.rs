//! The structured errors of the generator.

use vstd::prelude::*;

verus! {

/// Why nothing was generated. Places are byte offsets into the directive.
#[derive(Clone, Copy, Debug, PartialEq, Eq, Structural)]
pub enum Error {
    /// The directive does not follow the grammar; the offending piece stands
    /// at `start..end`.
    Syntax { start: usize, end: usize },
    /// The name at `start..end` is no capability.
    UnsupportedCapability { start: usize, end: usize },
    /// The layout directive at this position of the list has no argument list.
    InvalidDirective { index: usize },
    /// The type's shape cannot be handled: a unit record or a union.
    UnsupportedShape,
}

} // verus!
