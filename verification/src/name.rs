//! Diagnostic names.
//!
//! Any reference-capable resource may carry an optional label, for
//! diagnostics only; a name never affects execution semantics. A resource
//! without a name is simply unnamed, never an error.

use vstd::prelude::*;

verus! {

/// The capability of reading a resource's diagnostic name.
pub trait GetName {
    /// The name this resource carries, if any.
    spec fn spec_name(&self) -> Option<Seq<char>>;

    /// Reads the diagnostic name, or `None` for an unnamed resource.
    fn get_name(&self) -> (r: Option<&str>)
        ensures
            r matches Some(s) ==> self.spec_name() == Some(s@),
            r is None ==> self.spec_name() is None,
    ;
}

/// The capability of labelling a resource with a diagnostic name.
pub trait SetName: GetName {
    /// Labels the resource. The name is recorded verbatim.
    fn set_name(&mut self, name: &str)
        ensures
            final(self).spec_name() == Some(name@),
    ;
}

} // verus!
