//! The tag under which a registry knows an actor type.
use vstd::prelude::*;

verus! {

/// The compact tag of one actor type.
///
/// A registry hands out one tag per type and never changes it afterwards.
/// Nothing here interprets the number: a tag is compared, carried and printed.
#[derive(Copy, Clone, Hash)]
pub struct ShortTypeId(pub u16);

impl ShortTypeId {
    /// The tag with the given number.
    pub fn new(raw: u16) -> (tag: ShortTypeId)
        ensures
            tag.0 == raw,
    {
        ShortTypeId(raw)
    }
}

impl PartialEq for ShortTypeId {
    /// Whether the two tags hold the same number.
    fn eq(&self, other: &ShortTypeId) -> (same: bool) {
        self.0 == other.0
    }
}

impl Eq for ShortTypeId {}

impl vstd::std_specs::cmp::PartialEqSpecImpl for ShortTypeId {
    open spec fn obeys_eq_spec() -> bool {
        true
    }

    /// What `==` means between two tags.
    open spec fn eq_spec(&self, other: &ShortTypeId) -> bool {
        self.0 == other.0
    }
}

impl From<ShortTypeId> for u16 {
    /// The number that the tag holds.
    fn from(tag: ShortTypeId) -> (raw: u16) {
        tag.0
    }
}

impl vstd::std_specs::convert::FromSpecImpl<ShortTypeId> for u16 {
    open spec fn obeys_from_spec() -> bool {
        true
    }

    /// What `u16::from` returns for a tag.
    open spec fn from_spec(tag: ShortTypeId) -> u16 {
        tag.0
    }
}

} // verus!
