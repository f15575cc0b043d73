//! The closed set of capabilities that can be generated for a type.

use vstd::prelude::*;
use vstd::string::StringSliceAdditionalSpecFns;
use crate::error::Error;
use crate::text::{bytes_eq, slice_range};

verus! {

/// Capability to implement.
#[derive(Clone, Copy, Debug, PartialEq, Eq, Structural)]
pub enum Trait {
    /// Duplication by value.
    Clone,
    /// Marker: duplication has no cost. Generates no method.
    Copy,
    /// Debug-style textual dump.
    Debug,
    /// Marker: equality is total. Generates no method.
    Eq,
    /// Contribution to a hash.
    Hash,
    /// Total order.
    Ord,
    /// Structural equality.
    PartialEq,
    /// Partial order.
    PartialOrd,
}

impl Trait {
    /// The capability that a name of the directive grammar stands for.
    pub open spec fn spec_from_name(name: Seq<u8>) -> Option<Trait> {
        if name == "Clone".spec_bytes() {
            Some(Trait::Clone)
        } else if name == "Copy".spec_bytes() {
            Some(Trait::Copy)
        } else if name == "Debug".spec_bytes() {
            Some(Trait::Debug)
        } else if name == "Eq".spec_bytes() {
            Some(Trait::Eq)
        } else if name == "Hash".spec_bytes() {
            Some(Trait::Hash)
        } else if name == "Ord".spec_bytes() {
            Some(Trait::Ord)
        } else if name == "PartialEq".spec_bytes() {
            Some(Trait::PartialEq)
        } else if name == "PartialOrd".spec_bytes() {
            Some(Trait::PartialOrd)
        } else {
            None
        }
    }

    /// What `parse` returns for the name that stands at `start..end` in `text`.
    pub open spec fn spec_parse(text: Seq<u8>, start: usize, end: usize) -> Result<Trait, Error> {
        match Trait::spec_from_name(text.subrange(start as int, end as int)) {
            Some(t) => Ok(t),
            None => Err(Error::UnsupportedCapability { start, end }),
        }
    }

    /// Reads the capability named at `start..end` of the directive `text`.
    /// Any name outside the closed set is refused, with its place.
    pub fn parse(text: &[u8], start: usize, end: usize) -> (r: Result<Trait, Error>)
        requires
            start <= end <= text.len(),
        ensures
            r == Trait::spec_parse(text@, start, end),
    {
        let ident = slice_range(text, start, end);
        let name = ident.as_slice();
        if bytes_eq(name, "Clone".as_bytes()) {
            Ok(Trait::Clone)
        } else if bytes_eq(name, "Copy".as_bytes()) {
            Ok(Trait::Copy)
        } else if bytes_eq(name, "Debug".as_bytes()) {
            Ok(Trait::Debug)
        } else if bytes_eq(name, "Eq".as_bytes()) {
            Ok(Trait::Eq)
        } else if bytes_eq(name, "Hash".as_bytes()) {
            Ok(Trait::Hash)
        } else if bytes_eq(name, "Ord".as_bytes()) {
            Ok(Trait::Ord)
        } else if bytes_eq(name, "PartialEq".as_bytes()) {
            Ok(Trait::PartialEq)
        } else if bytes_eq(name, "PartialOrd".as_bytes()) {
            Ok(Trait::PartialOrd)
        } else {
            Err(Error::UnsupportedCapability { start, end })
        }
    }

    /// The fully qualified path of the capability's behaviour.
    pub open spec fn spec_path(self) -> Seq<u8> {
        match self {
            Trait::Clone => "::core::clone::Clone".spec_bytes(),
            Trait::Copy => "::core::marker::Copy".spec_bytes(),
            Trait::Debug => "::core::fmt::Debug".spec_bytes(),
            Trait::Eq => "::core::cmp::Eq".spec_bytes(),
            Trait::Hash => "::core::hash::Hash".spec_bytes(),
            Trait::Ord => "::core::cmp::Ord".spec_bytes(),
            Trait::PartialEq => "::core::cmp::PartialEq".spec_bytes(),
            Trait::PartialOrd => "::core::cmp::PartialOrd".spec_bytes(),
        }
    }

    /// Returns the fully qualified path of the capability's behaviour.
    pub fn path(self) -> (r: Vec<u8>)
        ensures
            r@ == self.spec_path(),
    {
        let text = match self {
            Trait::Clone => "::core::clone::Clone",
            Trait::Copy => "::core::marker::Copy",
            Trait::Debug => "::core::fmt::Debug",
            Trait::Eq => "::core::cmp::Eq",
            Trait::Hash => "::core::hash::Hash",
            Trait::Ord => "::core::cmp::Ord",
            Trait::PartialEq => "::core::cmp::PartialEq",
            Trait::PartialOrd => "::core::cmp::PartialOrd",
        };
        let bytes = text.as_bytes();
        slice_range(bytes, 0, bytes.len())
    }

    /// Whether the capability is one of the two orderings.
    pub open spec fn spec_is_ordering(self) -> bool {
        self == Trait::Ord || self == Trait::PartialOrd
    }

    /// Whether the capability is a marker, for which no method is generated.
    pub open spec fn spec_is_marker(self) -> bool {
        self == Trait::Copy || self == Trait::Eq
    }

    /// Whether the capability is one of the two orderings.
    #[verifier::when_used_as_spec(spec_is_ordering)]
    pub fn is_ordering(self) -> (r: bool)
        ensures
            r == self.spec_is_ordering(),
    {
        match self {
            Trait::Ord => true,
            Trait::PartialOrd => true,
            _ => false,
        }
    }

    /// Whether the capability is a marker, for which no method is generated.
    #[verifier::when_used_as_spec(spec_is_marker)]
    pub fn is_marker(self) -> (r: bool)
        ensures
            r == self.spec_is_marker(),
    {
        match self {
            Trait::Copy => true,
            Trait::Eq => true,
            _ => false,
        }
    }
}

} // verus!
