//! Variables that do not resolve.
use vstd::prelude::*;
use vstd::string::*;
use crate::text::cat3;

verus! {

/// A variable access that does not resolve.
pub enum VarResolveError {
    /// Nothing in scope is named like the call site's text.
    Unknown { call_site: String },
    /// A path that does not resolve, with the description the path layer gives it.
    PathResolveError { description: String },
}

impl VarResolveError {
    pub open spec fn spec_description(&self) -> Seq<char> {
        match self {
            VarResolveError::PathResolveError { description } => description@,
            VarResolveError::Unknown { call_site } => "no item '"@ + call_site@ + "' in scope"@,
        }
    }

    /// What does not resolve.
    pub fn description(&self) -> (r: String)
        ensures
            r@ == self.spec_description(),
    {
        match self {
            VarResolveError::PathResolveError { description } => description.clone(),
            VarResolveError::Unknown { call_site } => cat3("no item '", call_site.as_str(), "' in scope"),
        }
    }
}

} // verus!
