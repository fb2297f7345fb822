//! What an error knows of the program it was found in, held resolved: the
//! text of names and the spans and files of the declarations they point at.
use vstd::prelude::*;
use crate::diag::{Diagnostic, DiagnosticView, FileId, Related, RelatedView, Span};

verus! {

/// A named program element (a variable, a POU, an identifier as written),
/// resolved: its name, where it stands, where its name stands, and the file
/// that declares it.
#[derive(Clone, Debug)]
pub struct Named {
    pub name: String,
    pub span: Span,
    pub name_span: Span,
    pub file: FileId,
}

/// The mathematical value of a [`Named`].
pub struct NamedView {
    pub name: Seq<char>,
    pub span: Span,
    pub name_span: Span,
    pub file: FileId,
}

impl View for Named {
    type V = NamedView;

    open spec fn view(&self) -> NamedView {
        NamedView { name: self.name@, span: self.span, name_span: self.name_span, file: self.file }
    }
}

impl Named {
    /// A copy of this element.
    pub fn copy(&self) -> (r: Named)
        ensures
            r@ == self@,
    {
        Named { name: self.name.clone(), span: self.span, name_span: self.name_span, file: self.file }
    }
}

/// An identifier as written, with its span.
#[derive(Clone, Debug)]
pub struct SpanIdent {
    pub text: String,
    pub span: Span,
}

/// The section a variable is declared in.
#[derive(Clone, Copy, Debug, PartialEq, Eq, Structural)]
pub enum VariableKind {
    Var,
    Input,
    Output,
    InOut,
    External,
    Global,
    Access,
    Temp,
    Config,
}

/// A variable declaration: the declaration itself, its section, and the span
/// of its type specification.
pub struct Var {
    pub decl: Named,
    pub kind: VariableKind,
    pub spec_span: Span,
}

/// A POU, and whether it is a CLASS (otherwise a FUNCTION_BLOCK, where the
/// distinction matters).
pub struct PouRef {
    pub decl: Named,
    pub is_class: bool,
}

/// A method, and the span of its return type if it declares one.
pub struct MethodRef {
    pub decl: Named,
    pub return_span: Option<Span>,
}

/// A type as an error refers to it, resolved: its name as written in
/// messages, whether it is void, and the related location its declaration
/// contributes to a diagnostic (none for an elementary type).
#[derive(Debug)]
pub struct TypeRef {
    pub name: String,
    pub is_void: bool,
    pub location: Option<Related>,
}

/// The mathematical value of a [`TypeRef`].
pub struct TypeRefView {
    pub name: Seq<char>,
    pub is_void: bool,
    pub location: Option<RelatedView>,
}

impl View for TypeRef {
    type V = TypeRefView;

    open spec fn view(&self) -> TypeRefView {
        TypeRefView {
            name: self.name@,
            is_void: self.is_void,
            location: match self.location {
                Some(r) => Some(r@),
                None => None,
            },
        }
    }
}

/// `d` with the location the type's declaration contributes, if any.
pub open spec fn located(d: DiagnosticView, t: TypeRefView) -> DiagnosticView {
    match t.location {
        Some(r) => d.rel_view(r),
        None => d,
    }
}

/// Appends the location the type's declaration contributes, if any.
pub fn with_location(d: &mut Diagnostic, t: &TypeRef)
    ensures
        final(d)@ == located(old(d)@, t@),
{
    match &t.location {
        Some(r) => d.with_related(r.copy()),
        None => {},
    }
}

} // verus!
