//! Paths that do not resolve, by where resolution stopped.
use vstd::prelude::*;
use crate::diag::Span;
use crate::hir::Named;

verus! {

/// Why a path does not resolve: the path expression (by its span) and,
/// where it matters, the type (a declaration) resolution stopped at.
pub enum PathResolveError {
    /// Nothing in the scope (by its id) is named like the path.
    NoItemInScope { expr: Span, scope: u64 },
    /// The type has no field of that name.
    UnknownField { ty: Named, expr: Span },
    /// An index where the type takes none.
    UnexpectedIndex { ty: Named, expr: Span },
    /// An index into a type that is not an array.
    NotAnArray { ty: Named, expr: Span },
    /// A dereference of a type that is not a reference.
    NotAReference { ty: Named, expr: Span },
}

} // verus!
