//! Every error of the checker's second catalogue in one type, rendered by the
//! family it belongs to: `E0xx` syntax, `E1xx` duplicates, `E2xx`
//! resolution, `E3xx` types, `E4xx` visibility, `E5xx` inheritance, `E6xx`
//! arrays, `E7xx` enumerations, `E8xx` subranges, `E9xx` recursion and
//! `E10xx` control flow; and the position errors of the editor's document
//! layer, which never reach a diagnostic.
use vstd::prelude::*;
use crate::diag::{Diagnostic, DiagnosticView, FileId, Point, Span};
use crate::e0_syntax::SyntaxError;
use crate::e1_duplicates::DuplicateError;
use crate::e2_resolve::ResolveError;
use crate::e3_type::TypeError;
use crate::e4_visibility::VisibilityError;
use crate::e5_inheritance::InheritanceError;
use crate::e6_array::ArrayError;
use crate::e7_enum::EnumError;
use crate::e8_subrange::SubRangeError;
use crate::e9_recursion::RecursionError;
use crate::e10_control_flow::ControlFlowError;

verus! {

/// The document layer's error for an offset, range or text it cannot map.
#[verifier::external_type_specification]
#[verifier::external_body]
pub struct ExPositionError(auto_lsp::core::errors::PositionError);

/// An error of the analysis, by family.
pub enum AnalysisError {
    /// A position the document layer could not map: a fault of the
    /// analysis itself, not of the source.
    AutoLspError(auto_lsp::core::errors::PositionError),
    Syntax(SyntaxError),
    Duplicate(DuplicateError),
    Resolve(ResolveError),
    Type(TypeError),
    Visibility(VisibilityError),
    Inheritance(InheritanceError),
    Array(ArrayError),
    Enum(EnumError),
    SubRange(SubRangeError),
    Recursion(RecursionError),
    ControlFlow(ControlFlowError),
}

/// A position error is an analysis error of its own kind.
impl From<auto_lsp::core::errors::PositionError> for AnalysisError {
    fn from(err: auto_lsp::core::errors::PositionError) -> (r: AnalysisError) {
        AnalysisError::AutoLspError(err)
    }
}

impl vstd::std_specs::convert::FromSpecImpl<auto_lsp::core::errors::PositionError> for AnalysisError {
    open spec fn obeys_from_spec() -> bool {
        true
    }

    open spec fn from_spec(err: auto_lsp::core::errors::PositionError) -> AnalysisError {
        AnalysisError::AutoLspError(err)
    }
}

impl AnalysisError {
    /// Whether the error can be rendered: it is one of the checker's, and
    /// what its family needs to render it holds.
    pub open spec fn renderable(&self) -> bool {
        match self {
            AnalysisError::AutoLspError(_) => false,
            AnalysisError::Syntax(e) => e.fixes_fit(),
            AnalysisError::Array(e) => e.dimension_fits(),
            _ => true,
        }
    }

    /// The diagnostic of the error: that of its family, `file` being the
    /// file it was found in.
    pub open spec fn spec_to_diagnostic(&self, file: FileId) -> DiagnosticView
        recommends
            self.renderable(),
    {
        match self {
            AnalysisError::AutoLspError(_) => arbitrary(),
            AnalysisError::Syntax(e) => e.spec_to_diagnostic(),
            AnalysisError::Duplicate(e) => e.spec_to_diagnostic(),
            AnalysisError::Resolve(e) => e.spec_to_diagnostic(),
            AnalysisError::Type(e) => e.spec_to_diagnostic(),
            AnalysisError::Visibility(e) => e.spec_to_diagnostic(),
            AnalysisError::Inheritance(e) => e.spec_to_diagnostic(file),
            AnalysisError::Array(e) => e.spec_to_diagnostic(),
            AnalysisError::Enum(e) => e.spec_to_diagnostic(),
            AnalysisError::SubRange(e) => e.spec_to_diagnostic(),
            AnalysisError::Recursion(e) => e.spec_to_diagnostic(),
            AnalysisError::ControlFlow(e) => e.spec_to_diagnostic(),
        }
    }

    /// Renders the error through its family. A position error has no
    /// diagnostic: it is left out by the precondition.
    pub fn to_diagnostic(&self, file: FileId) -> (d: Diagnostic)
        requires
            self.renderable(),
        ensures
            d@ == self.spec_to_diagnostic(file),
    {
        match self {
            AnalysisError::AutoLspError(_) => {
                proof {
                    assert(false);
                }
                let origin = Point { row: 0, column: 0 };
                Diagnostic::plain(
                    String::new(),
                    None,
                    Span { start_byte: 0, end_byte: 0, start_point: origin, end_point: origin },
                )
            },
            AnalysisError::Syntax(e) => e.to_diagnostic(),
            AnalysisError::Duplicate(e) => e.to_diagnostic(),
            AnalysisError::Resolve(e) => e.to_diagnostic(),
            AnalysisError::Type(e) => e.to_diagnostic(),
            AnalysisError::Visibility(e) => e.to_diagnostic(),
            AnalysisError::Inheritance(e) => e.to_diagnostic(file),
            AnalysisError::Array(e) => e.to_diagnostic(),
            AnalysisError::Enum(e) => e.to_diagnostic(),
            AnalysisError::SubRange(e) => e.to_diagnostic(),
            AnalysisError::Recursion(e) => e.to_diagnostic(),
            AnalysisError::ControlFlow(e) => e.to_diagnostic(),
        }
    }
}

/// An analysis error renders exactly as the error of its family does; the
/// file it was found in reaches only the families that use it.
pub proof fn law_analysis_error_renders_as_its_family(this: AnalysisError, file: FileId)
    ensures
        match this {
            AnalysisError::AutoLspError(_) => true,
            AnalysisError::Syntax(e) => this.spec_to_diagnostic(file) == e.spec_to_diagnostic(),
            AnalysisError::Duplicate(e) => this.spec_to_diagnostic(file) == e.spec_to_diagnostic(),
            AnalysisError::Resolve(e) => this.spec_to_diagnostic(file) == e.spec_to_diagnostic(),
            AnalysisError::Type(e) => this.spec_to_diagnostic(file) == e.spec_to_diagnostic(),
            AnalysisError::Visibility(e) => this.spec_to_diagnostic(file) == e.spec_to_diagnostic(),
            AnalysisError::Inheritance(e) => this.spec_to_diagnostic(file) == e.spec_to_diagnostic(file),
            AnalysisError::Array(e) => this.spec_to_diagnostic(file) == e.spec_to_diagnostic(),
            AnalysisError::Enum(e) => this.spec_to_diagnostic(file) == e.spec_to_diagnostic(),
            AnalysisError::SubRange(e) => this.spec_to_diagnostic(file) == e.spec_to_diagnostic(),
            AnalysisError::Recursion(e) => this.spec_to_diagnostic(file) == e.spec_to_diagnostic(),
            AnalysisError::ControlFlow(e) => this.spec_to_diagnostic(file) == e.spec_to_diagnostic(),
        },
{
}

} // verus!
