//! The descriptor of an installed module: identity, version and provenance.

use vstd::prelude::*;

verus! {

/// Descriptor of an installed module.
///
/// The `id` is the opaque identity a registry knows the module by, stable
/// across versions; `canonical` is the stable human-facing display name used
/// as the continuity key across reloads; `version` is an opaque string that
/// is only ever compared for equality, never ordered; `source` is the
/// provenance label; `private` modules are excluded from batch updates.
pub struct Module {
    pub id: String,
    pub canonical: String,
    pub version: String,
    pub description: String,
    pub source: String,
    pub private: bool,
}

impl Clone for Module {
    fn clone(&self) -> (r: Self)
        ensures
            r == *self,
    {
        Module {
            id: self.id.clone(),
            canonical: self.canonical.clone(),
            version: self.version.clone(),
            description: self.description.clone(),
            source: self.source.clone(),
            private: self.private,
        }
    }
}

impl Module {
    /// Whether this module is excluded from batch updates.
    pub fn is_private(&self) -> (r: bool)
        ensures
            r == self.private,
    {
        self.private
    }

    /// Exact match on the provenance label.
    pub fn source_equals(&self, source: &String) -> (r: bool)
        ensures
            r == (self.source@ == source@),
    {
        self.source == *source
    }
}

} // verus!
