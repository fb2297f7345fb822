//! E15xx: pragma errors (`{extern}`, `{test}`, `{export}`, `{wasm}`).
use vstd::prelude::*;
use vstd::string::*;
use crate::diag::{Diagnostic, DiagnosticView, Span};
use crate::hir::Named;
use crate::text::{cat2, cat3, cat4, cat5, cat6};

use crate::diag::RelatedView;
use crate::diag::Severity;

use crate::diag::Tag;
use crate::diag::FixView;

verus! {

/// Which declaration section an `{extern}` FUNCTION cannot carry, and why.
#[derive(Clone, Copy, Debug, PartialEq, Eq, Structural)]
pub enum ExternForbiddenKind {
    /// `VAR_IN_OUT` hands the host a pointer into caller storage.
    InOut,
    /// A struct/array/STRING `VAR_OUTPUT` has no WASM result type to ride.
    AggregateOutput,
}

impl ExternForbiddenKind {
    pub open spec fn spec_section(self) -> Seq<char> {
        match self {
            ExternForbiddenKind::InOut => "VAR_IN_OUT"@,
            ExternForbiddenKind::AggregateOutput => "VAR_OUTPUT"@,
        }
    }

    /// The keyword of the section.
    pub fn section(self) -> (r: &'static str)
        ensures
            r@ == self.spec_section(),
    {
        match self {
            ExternForbiddenKind::InOut => "VAR_IN_OUT",
            ExternForbiddenKind::AggregateOutput => "VAR_OUTPUT",
        }
    }

    pub open spec fn spec_message(self) -> Seq<char> {
        match self {
            ExternForbiddenKind::InOut => "cannot cross a WASM import: an extern takes copies, not references"@,
            ExternForbiddenKind::AggregateOutput => "cannot be a WASM result: only scalar outputs cross an import"@,
        }
    }

    /// Why the section cannot cross the import.
    pub fn message(self) -> (r: &'static str)
        ensures
            r@ == self.spec_message(),
    {
        match self {
            ExternForbiddenKind::InOut => "cannot cross a WASM import: an extern takes copies, not references",
            ExternForbiddenKind::AggregateOutput => "cannot be a WASM result: only scalar outputs cross an import",
        }
    }

    pub open spec fn spec_note(self) -> Seq<char> {
        match self {
            ExternForbiddenKind::InOut =>
                "an extern FUNCTION receives VAR_INPUT copies and returns scalar VAR_OUTPUT results (the return value last)"@,
            ExternForbiddenKind::AggregateOutput => "return scalars, or split the aggregate into scalar outputs"@,
        }
    }

    /// What an extern FUNCTION may declare instead.
    pub fn note(self) -> (r: &'static str)
        ensures
            r@ == self.spec_note(),
    {
        match self {
            ExternForbiddenKind::InOut => "an extern FUNCTION receives VAR_INPUT copies and returns scalar VAR_OUTPUT results (the return value last)",
            ExternForbiddenKind::AggregateOutput => "return scalars, or split the aggregate into scalar outputs",
        }
    }
}

/// Why an `{export}` FUNCTION has no export to give.
#[derive(Clone, Copy, Debug, PartialEq, Eq, Structural)]
pub enum ExportForbiddenKind {
    /// An `{extern}` FUNCTION is an import.
    Extern,
    /// A `{test}` FUNCTION is exported for the runner.
    Test,
    /// One copy per implementation it is called with.
    InterfaceParam,
    /// One copy per arity it is called with.
    Variadic,
    /// The symbol carries the signature.
    Overloaded,
}

impl ExportForbiddenKind {
    pub open spec fn spec_message(self) -> Seq<char> {
        match self {
            ExportForbiddenKind::Extern => "is an {extern} FUNCTION"@,
            ExportForbiddenKind::Test => "is a {test} FUNCTION"@,
            ExportForbiddenKind::InterfaceParam => "takes an interface"@,
            ExportForbiddenKind::Variadic => "is variadic"@,
            ExportForbiddenKind::Overloaded => "is overloaded"@,
        }
    }

    /// What the FUNCTION is that keeps it from being exported.
    pub fn message(self) -> (r: &'static str)
        ensures
            r@ == self.spec_message(),
    {
        match self {
            ExportForbiddenKind::Extern => "is an {extern} FUNCTION",
            ExportForbiddenKind::Test => "is a {test} FUNCTION",
            ExportForbiddenKind::InterfaceParam => "takes an interface",
            ExportForbiddenKind::Variadic => "is variadic",
            ExportForbiddenKind::Overloaded => "is overloaded",
        }
    }

    pub open spec fn spec_note(self) -> Seq<char> {
        match self {
            ExportForbiddenKind::Extern => "an {extern} FUNCTION is an import, it has no body to export"@,
            ExportForbiddenKind::Test =>
                "a {test} FUNCTION is already exported for `rk test`, and left out of a release build"@,
            ExportForbiddenKind::InterfaceParam =>
                "it is compiled once per implementation it is called with, so there is no single function to export"@,
            ExportForbiddenKind::Variadic =>
                "it is compiled once per number of arguments it is called with, so there is no single function to export"@,
            ExportForbiddenKind::Overloaded =>
                "an export is found by its name, and this name belongs to several FUNCTIONs"@,
        }
    }

    /// Why that rules the export out.
    pub fn note(self) -> (r: &'static str)
        ensures
            r@ == self.spec_note(),
    {
        match self {
            ExportForbiddenKind::Extern => "an {extern} FUNCTION is an import, it has no body to export",
            ExportForbiddenKind::Test => "a {test} FUNCTION is already exported for `rk test`, and left out of a release build",
            ExportForbiddenKind::InterfaceParam => "it is compiled once per implementation it is called with, so there is no single function to export",
            ExportForbiddenKind::Variadic => "it is compiled once per number of arguments it is called with, so there is no single function to export",
            ExportForbiddenKind::Overloaded => "an export is found by its name, and this name belongs to several FUNCTIONs",
        }
    }
}

/// A pragma error.
pub enum PragmaError {
    /// `{extern}` on something other than a FUNCTION.
    ExternOutsideFunction { anchor: Named, pou_kind: String },
    /// What an `{extern}` FUNCTION declared that a WASM import cannot carry.
    ExternForbiddenSection { var: Named, kind: ExternForbiddenKind },
    /// An `{extern}` FUNCTION returning something no WASM result can carry.
    ExternNonScalarReturn { func: Named, ret: Span },
    /// An `{extern}` FUNCTION with statements.
    ExternWithBody { site: Span },
    /// `{test}` on something other than a FUNCTION.
    TestOutsideFunction { anchor: Named, pou_kind: String },
    /// `{export}` on something other than a FUNCTION.
    ExportOutsideFunction { anchor: Named, pou_kind: String },
    /// `{export}` on a FUNCTION that has no single export to give.
    ExportForbidden { anchor: Named, func: Named, kind: ExportForbiddenKind },
    /// A `{wasm}` pragma outside a FUNCTION body.
    WasmPragmaOutsideFunction { span: Span },
    /// A `{wasm}` pragma names an instruction the emitter has no arm for.
    UnknownWasmInstruction { name: String, span: Span },
    /// A `{wasm}` operand that is not a parameter, a local or the return.
    UnknownWasmOperand { name: String, span: Span },
    /// A `{wasm}` pragma whose operands do not fit its instruction.
    WasmSignatureMismatch { instruction: String, expected: String, actual: String, span: Span },
}

impl PragmaError {
    pub open spec fn spec_code(&self) -> Seq<char> {
        match self {
            PragmaError::ExternOutsideFunction { .. } => "E1501"@,
            PragmaError::ExternForbiddenSection { .. } => "E1502"@,
            PragmaError::ExternNonScalarReturn { .. } => "E1502"@,
            PragmaError::ExternWithBody { .. } => "E1502"@,
            PragmaError::TestOutsideFunction { .. } => "E1503"@,
            PragmaError::WasmPragmaOutsideFunction { .. } => "E1504"@,
            PragmaError::UnknownWasmInstruction { .. } => "E1505"@,
            PragmaError::UnknownWasmOperand { .. } => "E1506"@,
            PragmaError::WasmSignatureMismatch { .. } => "E1507"@,
            PragmaError::ExportOutsideFunction { .. } => "E1508"@,
            PragmaError::ExportForbidden { .. } => "E1509"@,
        }
    }

    /// The stable code of the error.
    pub fn code(&self) -> (r: &'static str)
        ensures
            r@ == self.spec_code(),
    {
        match self {
            PragmaError::ExternOutsideFunction { .. } => "E1501",
            PragmaError::ExternForbiddenSection { .. } => "E1502",
            PragmaError::ExternNonScalarReturn { .. } => "E1502",
            PragmaError::ExternWithBody { .. } => "E1502",
            PragmaError::TestOutsideFunction { .. } => "E1503",
            PragmaError::WasmPragmaOutsideFunction { .. } => "E1504",
            PragmaError::UnknownWasmInstruction { .. } => "E1505",
            PragmaError::UnknownWasmOperand { .. } => "E1506",
            PragmaError::WasmSignatureMismatch { .. } => "E1507",
            PragmaError::ExportOutsideFunction { .. } => "E1508",
            PragmaError::ExportForbidden { .. } => "E1509",
        }
    }

    pub open spec fn spec_description(&self) -> Seq<char> {
        match self {
            PragmaError::ExternOutsideFunction { .. } => "extern pragma outside a FUNCTION"@,
            PragmaError::ExternForbiddenSection { .. } => "not representable on an extern FUNCTION"@,
            PragmaError::ExternNonScalarReturn { .. } => "not representable on an extern FUNCTION"@,
            PragmaError::ExternWithBody { .. } => "not representable on an extern FUNCTION"@,
            PragmaError::TestOutsideFunction { .. } => "test pragma outside a FUNCTION"@,
            PragmaError::WasmPragmaOutsideFunction { .. } => "invalid wasm pragma"@,
            PragmaError::UnknownWasmInstruction { .. } => "invalid wasm pragma"@,
            PragmaError::UnknownWasmOperand { .. } => "invalid wasm pragma"@,
            PragmaError::WasmSignatureMismatch { .. } => "invalid wasm pragma"@,
            PragmaError::ExportOutsideFunction { .. } => "export pragma outside a FUNCTION"@,
            PragmaError::ExportForbidden { .. } => "this FUNCTION cannot be exported"@,
        }
    }

    /// The short description of the error's kind.
    pub fn description(&self) -> (r: &'static str)
        ensures
            r@ == self.spec_description(),
    {
        match self {
            PragmaError::ExternOutsideFunction { .. } => "extern pragma outside a FUNCTION",
            PragmaError::ExternForbiddenSection { .. } => "not representable on an extern FUNCTION",
            PragmaError::ExternNonScalarReturn { .. } => "not representable on an extern FUNCTION",
            PragmaError::ExternWithBody { .. } => "not representable on an extern FUNCTION",
            PragmaError::TestOutsideFunction { .. } => "test pragma outside a FUNCTION",
            PragmaError::WasmPragmaOutsideFunction { .. } => "invalid wasm pragma",
            PragmaError::UnknownWasmInstruction { .. } => "invalid wasm pragma",
            PragmaError::UnknownWasmOperand { .. } => "invalid wasm pragma",
            PragmaError::WasmSignatureMismatch { .. } => "invalid wasm pragma",
            PragmaError::ExportOutsideFunction { .. } => "export pragma outside a FUNCTION",
            PragmaError::ExportForbidden { .. } => "this FUNCTION cannot be exported",
        }
    }

    /// An error diagnostic of this error at `span`.
    pub open spec fn err(&self, message: Seq<char>, span: Span) -> DiagnosticView {
        DiagnosticView::error(message, self.spec_code(), self.spec_description(), span)
    }

    /// The diagnostic this error renders to.
    pub open spec fn spec_to_diagnostic(&self) -> DiagnosticView {
        match self {
            PragmaError::ExternOutsideFunction { anchor, pou_kind } =>
                self.err("an {extern} pragma cannot be placed on a "@ + pou_kind@, anchor.span)
                    .note("{extern} pragmas can ony be used with FUNCTION"@),
            PragmaError::ExternForbiddenSection { var, kind } =>
                self.err(kind.spec_section() + " '"@ + var.name@ + "' "@ + kind.spec_message(), var.span)
                    .note(kind.spec_note()),
            PragmaError::ExternNonScalarReturn { func, ret } =>
                self.err("the return type of '"@ + func.name@ + "' can only be a scalar"@, *ret),
            PragmaError::ExternWithBody { site } =>
                self.err("an extern FUNCTION has no statements"@, *site)
                    .note("FUNCTIONs marked with {extern} act as external calls, they can not have a body"@),
            PragmaError::TestOutsideFunction { anchor, pou_kind } =>
                self.err("a {test} pragma cannot be placed on a "@ + pou_kind@, anchor.span),
            PragmaError::ExportOutsideFunction { anchor, pou_kind } =>
                self.err("an {export} pragma cannot be placed on a "@ + pou_kind@, anchor.span)
                    .note("{export} pragmas can only be used with FUNCTION"@),
            PragmaError::ExportForbidden { anchor, func, kind } =>
                self.err("'"@ + func.name@ + "' cannot be exported: it "@ + kind.spec_message(), anchor.span)
                    .note(kind.spec_note()),
            PragmaError::WasmPragmaOutsideFunction { span } => self.err(
                "a {wasm} body is only available on a FUNCTION; here the pragma would be silently dropped"@,
                *span,
            ),
            PragmaError::UnknownWasmInstruction { name, span } =>
                self.err("'"@ + name@ + "' is not a wasm instruction this compiler emits"@, *span),
            PragmaError::UnknownWasmOperand { name, span } =>
                self.err("'"@ + name@ + "' is not a parameter, a local or the return of this FUNCTION"@, *span),
            PragmaError::WasmSignatureMismatch { instruction, expected, actual, span } => self.err(
                "'"@ + instruction@ + "' takes "@ + expected@ + "; this pragma gives it "@ + actual@,
                *span,
            ),
        }
    }

    fn error_at(&self, message: String, span: Span) -> (d: Diagnostic)
        ensures
            d@ == self.err(message@, span),
    {
        Diagnostic::error(message, self.code(), self.description(), span)
    }

    /// Renders the error as a diagnostic.
    pub fn to_diagnostic(&self) -> (d: Diagnostic)
        ensures
            d@ == self.spec_to_diagnostic(),
    {
        match self {
            PragmaError::ExternOutsideFunction { anchor, pou_kind } => {
                let mut d = self.error_at(cat2("an {extern} pragma cannot be placed on a ", pou_kind.as_str()), anchor.span);
                d.with_note(String::from_str("{extern} pragmas can ony be used with FUNCTION"));
                d
            },
            PragmaError::ExternForbiddenSection { var, kind } => {
                let mut d = self.error_at(
                    cat5(kind.section(), " '", var.name.as_str(), "' ", kind.message()),
                    var.span,
                );
                d.with_note(String::from_str(kind.note()));
                d
            },
            PragmaError::ExternNonScalarReturn { func, ret } =>
                self.error_at(cat3("the return type of '", func.name.as_str(), "' can only be a scalar"), *ret),
            PragmaError::ExternWithBody { site } => {
                let mut d = self.error_at(String::from_str("an extern FUNCTION has no statements"), *site);
                d.with_note(String::from_str("FUNCTIONs marked with {extern} act as external calls, they can not have a body"));
                d
            },
            PragmaError::TestOutsideFunction { anchor, pou_kind } =>
                self.error_at(cat2("a {test} pragma cannot be placed on a ", pou_kind.as_str()), anchor.span),
            PragmaError::ExportOutsideFunction { anchor, pou_kind } => {
                let mut d = self.error_at(cat2("an {export} pragma cannot be placed on a ", pou_kind.as_str()), anchor.span);
                d.with_note(String::from_str("{export} pragmas can only be used with FUNCTION"));
                d
            },
            PragmaError::ExportForbidden { anchor, func, kind } => {
                let mut d = self.error_at(
                    cat4("'", func.name.as_str(), "' cannot be exported: it ", kind.message()),
                    anchor.span,
                );
                d.with_note(String::from_str(kind.note()));
                d
            },
            PragmaError::WasmPragmaOutsideFunction { span } => self.error_at(
                String::from_str("a {wasm} body is only available on a FUNCTION; here the pragma would be silently dropped"),
                *span,
            ),
            PragmaError::UnknownWasmInstruction { name, span } =>
                self.error_at(cat3("'", name.as_str(), "' is not a wasm instruction this compiler emits"), *span),
            PragmaError::UnknownWasmOperand { name, span } => self.error_at(
                cat3("'", name.as_str(), "' is not a parameter, a local or the return of this FUNCTION"),
                *span,
            ),
            PragmaError::WasmSignatureMismatch { instruction, expected, actual, span } => self.error_at(
                cat6("'", instruction.as_str(), "' takes ", expected.as_str(), "; this pragma gives it ", actual.as_str()),
                *span,
            ),
        }
    }
}

/// Each kind of `PragmaError` is reported at the span of what it concerns, with
/// its message and severity, whatever names, spans and texts it holds; a
/// kind whose diagnostic is built directly also carries exactly the
/// related locations, notes, tags, source and quick fixes listed.
pub proof fn law_pragma_error_rendering(this: PragmaError)
    ensures
        match this {
            PragmaError::ExternOutsideFunction { anchor, pou_kind } => {
                let d = this.spec_to_diagnostic();
                &&& d.message == "an {extern} pragma cannot be placed on a "@ + pou_kind@
                &&& d.span == anchor.span
                &&& d.severity == Some(Severity::Error)
                &&& d.related == Seq::<RelatedView>::empty()
                &&& d.notes == Seq::<Seq<char>>::empty().push("{extern} pragmas can ony be used with FUNCTION"@)
                &&& d.tags == Seq::<Tag>::empty()
                &&& d.source == None::<Seq<char>>
                &&& d.fixes == Seq::<FixView>::empty()
            },
            PragmaError::ExternForbiddenSection { var, kind } => {
                let d = this.spec_to_diagnostic();
                &&& d.message == kind.spec_section() + " '"@ + var.name@ + "' "@ + kind.spec_message()
                &&& d.span == var.span
                &&& d.severity == Some(Severity::Error)
                &&& d.related == Seq::<RelatedView>::empty()
                &&& d.notes == Seq::<Seq<char>>::empty().push(kind.spec_note())
                &&& d.tags == Seq::<Tag>::empty()
                &&& d.source == None::<Seq<char>>
                &&& d.fixes == Seq::<FixView>::empty()
            },
            PragmaError::ExternNonScalarReturn { func, ret } => {
                let d = this.spec_to_diagnostic();
                &&& d.message == "the return type of '"@ + func.name@ + "' can only be a scalar"@
                &&& d.span == ret
                &&& d.severity == Some(Severity::Error)
                &&& d.related == Seq::<RelatedView>::empty()
                &&& d.notes == Seq::<Seq<char>>::empty()
                &&& d.tags == Seq::<Tag>::empty()
                &&& d.source == None::<Seq<char>>
                &&& d.fixes == Seq::<FixView>::empty()
            },
            PragmaError::ExternWithBody { site } => {
                let d = this.spec_to_diagnostic();
                &&& d.message == "an extern FUNCTION has no statements"@
                &&& d.span == site
                &&& d.severity == Some(Severity::Error)
                &&& d.related == Seq::<RelatedView>::empty()
                &&& d.notes == Seq::<Seq<char>>::empty().push("FUNCTIONs marked with {extern} act as external calls, they can not have a body"@)
                &&& d.tags == Seq::<Tag>::empty()
                &&& d.source == None::<Seq<char>>
                &&& d.fixes == Seq::<FixView>::empty()
            },
            PragmaError::TestOutsideFunction { anchor, pou_kind } => {
                let d = this.spec_to_diagnostic();
                &&& d.message == "a {test} pragma cannot be placed on a "@ + pou_kind@
                &&& d.span == anchor.span
                &&& d.severity == Some(Severity::Error)
                &&& d.related == Seq::<RelatedView>::empty()
                &&& d.notes == Seq::<Seq<char>>::empty()
                &&& d.tags == Seq::<Tag>::empty()
                &&& d.source == None::<Seq<char>>
                &&& d.fixes == Seq::<FixView>::empty()
            },
            PragmaError::ExportOutsideFunction { anchor, pou_kind } => {
                let d = this.spec_to_diagnostic();
                &&& d.message == "an {export} pragma cannot be placed on a "@ + pou_kind@
                &&& d.span == anchor.span
                &&& d.severity == Some(Severity::Error)
                &&& d.related == Seq::<RelatedView>::empty()
                &&& d.notes == Seq::<Seq<char>>::empty().push("{export} pragmas can only be used with FUNCTION"@)
                &&& d.tags == Seq::<Tag>::empty()
                &&& d.source == None::<Seq<char>>
                &&& d.fixes == Seq::<FixView>::empty()
            },
            PragmaError::ExportForbidden { anchor, func, kind } => {
                let d = this.spec_to_diagnostic();
                &&& d.message == "'"@ + func.name@ + "' cannot be exported: it "@ + kind.spec_message()
                &&& d.span == anchor.span
                &&& d.severity == Some(Severity::Error)
                &&& d.related == Seq::<RelatedView>::empty()
                &&& d.notes == Seq::<Seq<char>>::empty().push(kind.spec_note())
                &&& d.tags == Seq::<Tag>::empty()
                &&& d.source == None::<Seq<char>>
                &&& d.fixes == Seq::<FixView>::empty()
            },
            PragmaError::WasmPragmaOutsideFunction { span } => {
                let d = this.spec_to_diagnostic();
                &&& d.message == "a {wasm} body is only available on a FUNCTION; here the pragma would be silently dropped"@
                &&& d.span == span
                &&& d.severity == Some(Severity::Error)
                &&& d.related == Seq::<RelatedView>::empty()
                &&& d.notes == Seq::<Seq<char>>::empty()
                &&& d.tags == Seq::<Tag>::empty()
                &&& d.source == None::<Seq<char>>
                &&& d.fixes == Seq::<FixView>::empty()
            },
            PragmaError::UnknownWasmInstruction { name, span } => {
                let d = this.spec_to_diagnostic();
                &&& d.message == "'"@ + name@ + "' is not a wasm instruction this compiler emits"@
                &&& d.span == span
                &&& d.severity == Some(Severity::Error)
                &&& d.related == Seq::<RelatedView>::empty()
                &&& d.notes == Seq::<Seq<char>>::empty()
                &&& d.tags == Seq::<Tag>::empty()
                &&& d.source == None::<Seq<char>>
                &&& d.fixes == Seq::<FixView>::empty()
            },
            PragmaError::UnknownWasmOperand { name, span } => {
                let d = this.spec_to_diagnostic();
                &&& d.message == "'"@ + name@ + "' is not a parameter, a local or the return of this FUNCTION"@
                &&& d.span == span
                &&& d.severity == Some(Severity::Error)
                &&& d.related == Seq::<RelatedView>::empty()
                &&& d.notes == Seq::<Seq<char>>::empty()
                &&& d.tags == Seq::<Tag>::empty()
                &&& d.source == None::<Seq<char>>
                &&& d.fixes == Seq::<FixView>::empty()
            },
            PragmaError::WasmSignatureMismatch { instruction, expected, actual, span } => {
                let d = this.spec_to_diagnostic();
                &&& d.message == "'"@ + instruction@ + "' takes "@ + expected@ + "; this pragma gives it "@ + actual@
                &&& d.span == span
                &&& d.severity == Some(Severity::Error)
                &&& d.related == Seq::<RelatedView>::empty()
                &&& d.notes == Seq::<Seq<char>>::empty()
                &&& d.tags == Seq::<Tag>::empty()
                &&& d.source == None::<Seq<char>>
                &&& d.fixes == Seq::<FixView>::empty()
            },
        },
{
}

} // verus!
