//! Equality of native paths: two paths are equal when they are read in the
//! same style and have the same components.

use crate::path::native::{same_components, NativePath};
use vstd::prelude::*;
use vstd::std_specs::cmp::PartialEqSpecImpl;

verus! {

impl PartialEq for NativePath {
    fn eq(&self, other: &NativePath) -> (same: bool) {
        self.style == other.style && same_components(&self.components(), &other.components())
    }
}

impl PartialEqSpecImpl for NativePath {
    open spec fn obeys_eq_spec() -> bool {
        true
    }

    open spec fn eq_spec(&self, other: &NativePath) -> bool {
        self.style == other.style && self.spec_components() == other.spec_components()
    }
}

} // verus!
