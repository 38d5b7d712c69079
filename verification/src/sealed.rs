//! The naming capability, kept in a private module so that only this
//! crate's types can implement it.

use vstd::prelude::*;

verus! {

/// A structure with a stable XML element name. The module holding this
/// trait is private, so outside crates cannot implement it.
pub trait NamedStructure {
    /// The element name, at specification level.
    spec fn spec_name() -> Seq<char>;

    /// The XML element name used for this structure on the wire.
    fn name() -> (r: &'static str)
        ensures
            r@ == Self::spec_name(),
    ;
}

} // verus!
