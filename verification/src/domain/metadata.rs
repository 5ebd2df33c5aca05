use vstd::prelude::*;

verus! {

/// Site-wide metadata: the site's name, an optional description and the
/// comment line that opens every managed file.
#[derive(Debug, Clone, PartialEq, Eq)]
pub struct Metadata {
    pub name: String,
    pub description: Option<String>,
    pub managed_prefix: String,
}

} // verus!
