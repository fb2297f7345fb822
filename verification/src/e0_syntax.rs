//! E00xx (earlier numbering): syntax errors, as the parser reports them and
//! as the checker finds them in the parsed tree.
use vstd::prelude::*;
use vstd::string::*;
use vstd::utf8::encode_utf8;
use crate::diag::{Diagnostic, DiagnosticView, FileId, Fix, FixView, Point, Span, TextEditView};
use crate::e00_syntax::{prefix_fits, prefix_span, readable, start_of, syntax_message, ParseProblem};
use crate::source::{clause_items, clause_items_of, span_text, span_text_of};
use crate::std_text::{str_trim, trimmed, utf8_lossy};
use crate::text::{cat2, cat3, cat5};

use crate::diag::RelatedView;
use crate::diag::Severity;

use crate::diag::Tag;

verus! {

fn prefix_span_of(s: Span, width: usize) -> (r: Span)
    requires
        prefix_fits(s, width),
    ensures
        r == prefix_span(s, width),
{
    Span {
        start_byte: s.start_byte,
        end_byte: s.start_byte + width,
        start_point: s.start_point,
        end_point: Point { row: s.start_point.row, column: s.start_point.column + width },
    }
}

fn start_of_span(s: Span) -> (r: Span)
    ensures
        r == start_of(s),
{
    Span { start_byte: s.start_byte, end_byte: s.start_byte, start_point: s.start_point, end_point: s.start_point }
}

/// A syntax error.
pub enum SyntaxError {
    /// A second EXTENDS clause; `source` is the text of `file`.
    MultipleExtends { location: Span, first_extend_span: Span, file: FileId, source: String },
    /// A second IMPLEMENTS clause; `source` is the text of `file`.
    MultipleImplements { location: Span, first_implements_span: Span, file: FileId, source: String },
    /// An IMPLEMENTS clause before the EXTENDS clause; `source` is the text of `file`.
    ImplementsBeforeExtends { implements_span: Span, extends_span: Span, file: FileId, source: String },
    /// Variables declared after the first METHOD (`method_span`).
    ClassVariablesAfterMethod { var_span: Span, method_span: Span, file: FileId },
    /// Variables declared after the first METHOD (`method_span`).
    FbVariablesAfterMethod { var_span: Span, method_span: Span, file: FileId },
    MissingVarType(Span),
    UnexpectedVarInit(Span),
    IncompleteEdgeQualifier(Span),
    UnexpectedThis(Span),
    UnexpectedSuper(Span),
    AssignToFunctionCall(Span),
    CommaIndexAccess(Span),
    EmptyRightHandSide(Span),
    MissingDotInAssignment { file: FileId, span: Span },
    MissingEqualInAssignment { file: FileId, span: Span },
    MissingDotInForList { file: FileId, span: Span },
    MissingEqualInForList { file: FileId, span: Span },
    FunctionCallInInitExpression(Span),
    OutputAssignInAssignment { file: FileId, span: Span },
    OutputAssignInForList { file: FileId, span: Span },
    ProgramNotAllowedInNamespace(Span),
    ConfigNotAllowedInNamespace(Span),
    /// A node the grammar requires is missing; `grammar_name` is its symbol in the grammar.
    MissingNode { file: FileId, span: Span, err: String, grammar_name: String },
    VarInOutNotAllowed(Span),
    VarTempNotAllowed(Span),
    VarAccessNotAllowed(Span),
    VarConfigNotAllowed(Span),
    VarLocatedNotAllowed(Span),
    VarExternalNotAllowed(Span),
    VarGlobalNotAllowed(Span),
    VarNotAllowed(Span),
    SingleAfterInterval(Span),
    IntervalAfterPriority(Span),
    SingleAfterPriority(Span),
    MissingPriority(Span),
    ArrayConformandNotSupported(Span),
    AccessSpecNotAllowedInMethodPrototype(Span),
    MethodDeclInBody(Span),
    /// A syntax error the parser reports, with its message.
    SyntaxError { span: Span, err: String },
}

impl SyntaxError {
    pub open spec fn spec_code(&self) -> Seq<char> {
        match self {
            SyntaxError::MultipleExtends { .. } => "E0001"@,
            SyntaxError::MultipleImplements { .. } => "E0002"@,
            SyntaxError::ImplementsBeforeExtends { .. } => "E0003"@,
            SyntaxError::ClassVariablesAfterMethod { .. } => "E0004"@,
            SyntaxError::FbVariablesAfterMethod { .. } => "E0005"@,
            SyntaxError::MissingVarType(..) => "E0006"@,
            SyntaxError::UnexpectedVarInit(..) => "E0007"@,
            SyntaxError::IncompleteEdgeQualifier(..) => "E0008"@,
            SyntaxError::UnexpectedThis(..) => "E0009"@,
            SyntaxError::UnexpectedSuper(..) => "E0010"@,
            SyntaxError::AssignToFunctionCall(..) => "E0011"@,
            SyntaxError::CommaIndexAccess(..) => "E0018"@,
            SyntaxError::EmptyRightHandSide(..) => "E0012"@,
            SyntaxError::MissingDotInAssignment { .. } => "E0013"@,
            SyntaxError::MissingEqualInAssignment { .. } => "E0014"@,
            SyntaxError::MissingDotInForList { .. } => "E0015"@,
            SyntaxError::MissingEqualInForList { .. } => "E0016"@,
            SyntaxError::FunctionCallInInitExpression(..) => "E0017"@,
            SyntaxError::OutputAssignInAssignment { .. } => "E0020"@,
            SyntaxError::OutputAssignInForList { .. } => "E0021"@,
            SyntaxError::ProgramNotAllowedInNamespace(..) => "E0022"@,
            SyntaxError::ConfigNotAllowedInNamespace(..) => "E0023"@,
            SyntaxError::MissingNode { .. } => "E0019"@,
            SyntaxError::VarInOutNotAllowed(..) => "E0024"@,
            SyntaxError::VarTempNotAllowed(..) => "E0025"@,
            SyntaxError::VarAccessNotAllowed(..) => "E0026"@,
            SyntaxError::VarConfigNotAllowed(..) => "E0027"@,
            SyntaxError::VarLocatedNotAllowed(..) => "E0028"@,
            SyntaxError::VarExternalNotAllowed(..) => "E0029"@,
            SyntaxError::VarGlobalNotAllowed(..) => "E0030"@,
            SyntaxError::VarNotAllowed(..) => "E0031"@,
            SyntaxError::SingleAfterInterval(..) => "E0032"@,
            SyntaxError::IntervalAfterPriority(..) => "E0033"@,
            SyntaxError::SingleAfterPriority(..) => "E0034"@,
            SyntaxError::MissingPriority(..) => "E0035"@,
            SyntaxError::ArrayConformandNotSupported(..) => "E0036"@,
            SyntaxError::AccessSpecNotAllowedInMethodPrototype(..) => "E0037"@,
            SyntaxError::MethodDeclInBody(..) => "E0038"@,
            SyntaxError::SyntaxError { .. } => "E0050"@,
        }
    }

    /// The stable code of the error.
    pub fn code(&self) -> (r: &'static str)
        ensures
            r@ == self.spec_code(),
    {
        match self {
            SyntaxError::MultipleExtends { .. } => "E0001",
            SyntaxError::MultipleImplements { .. } => "E0002",
            SyntaxError::ImplementsBeforeExtends { .. } => "E0003",
            SyntaxError::ClassVariablesAfterMethod { .. } => "E0004",
            SyntaxError::FbVariablesAfterMethod { .. } => "E0005",
            SyntaxError::MissingVarType(..) => "E0006",
            SyntaxError::UnexpectedVarInit(..) => "E0007",
            SyntaxError::IncompleteEdgeQualifier(..) => "E0008",
            SyntaxError::UnexpectedThis(..) => "E0009",
            SyntaxError::UnexpectedSuper(..) => "E0010",
            SyntaxError::AssignToFunctionCall(..) => "E0011",
            SyntaxError::CommaIndexAccess(..) => "E0018",
            SyntaxError::EmptyRightHandSide(..) => "E0012",
            SyntaxError::MissingDotInAssignment { .. } => "E0013",
            SyntaxError::MissingEqualInAssignment { .. } => "E0014",
            SyntaxError::MissingDotInForList { .. } => "E0015",
            SyntaxError::MissingEqualInForList { .. } => "E0016",
            SyntaxError::FunctionCallInInitExpression(..) => "E0017",
            SyntaxError::OutputAssignInAssignment { .. } => "E0020",
            SyntaxError::OutputAssignInForList { .. } => "E0021",
            SyntaxError::ProgramNotAllowedInNamespace(..) => "E0022",
            SyntaxError::ConfigNotAllowedInNamespace(..) => "E0023",
            SyntaxError::MissingNode { .. } => "E0019",
            SyntaxError::VarInOutNotAllowed(..) => "E0024",
            SyntaxError::VarTempNotAllowed(..) => "E0025",
            SyntaxError::VarAccessNotAllowed(..) => "E0026",
            SyntaxError::VarConfigNotAllowed(..) => "E0027",
            SyntaxError::VarLocatedNotAllowed(..) => "E0028",
            SyntaxError::VarExternalNotAllowed(..) => "E0029",
            SyntaxError::VarGlobalNotAllowed(..) => "E0030",
            SyntaxError::VarNotAllowed(..) => "E0031",
            SyntaxError::SingleAfterInterval(..) => "E0032",
            SyntaxError::IntervalAfterPriority(..) => "E0033",
            SyntaxError::SingleAfterPriority(..) => "E0034",
            SyntaxError::MissingPriority(..) => "E0035",
            SyntaxError::ArrayConformandNotSupported(..) => "E0036",
            SyntaxError::AccessSpecNotAllowedInMethodPrototype(..) => "E0037",
            SyntaxError::MethodDeclInBody(..) => "E0038",
            SyntaxError::SyntaxError { .. } => "E0050",
        }
    }

    pub open spec fn spec_description(&self) -> Seq<char> {
        match self {
            SyntaxError::MultipleExtends { .. } => "syntax"@,
            SyntaxError::MultipleImplements { .. } => "syntax"@,
            SyntaxError::ImplementsBeforeExtends { .. } => "syntax"@,
            SyntaxError::ClassVariablesAfterMethod { .. } => "syntax"@,
            SyntaxError::FbVariablesAfterMethod { .. } => "syntax"@,
            SyntaxError::MissingVarType(..) => "syntax"@,
            SyntaxError::UnexpectedVarInit(..) => "syntax"@,
            SyntaxError::IncompleteEdgeQualifier(..) => "syntax"@,
            SyntaxError::UnexpectedThis(..) => "syntax"@,
            SyntaxError::UnexpectedSuper(..) => "syntax"@,
            SyntaxError::AssignToFunctionCall(..) => "syntax"@,
            SyntaxError::CommaIndexAccess(..) => "syntax"@,
            SyntaxError::EmptyRightHandSide(..) => "syntax"@,
            SyntaxError::MissingDotInAssignment { .. } => "syntax"@,
            SyntaxError::MissingEqualInAssignment { .. } => "syntax"@,
            SyntaxError::MissingDotInForList { .. } => "syntax"@,
            SyntaxError::MissingEqualInForList { .. } => "syntax"@,
            SyntaxError::FunctionCallInInitExpression(..) => "syntax"@,
            SyntaxError::OutputAssignInAssignment { .. } => "syntax"@,
            SyntaxError::OutputAssignInForList { .. } => "syntax"@,
            SyntaxError::ProgramNotAllowedInNamespace(..) => "syntax"@,
            SyntaxError::ConfigNotAllowedInNamespace(..) => "syntax"@,
            SyntaxError::MissingNode { .. } => "syntax"@,
            SyntaxError::VarInOutNotAllowed(..) => "syntax"@,
            SyntaxError::VarTempNotAllowed(..) => "syntax"@,
            SyntaxError::VarAccessNotAllowed(..) => "syntax"@,
            SyntaxError::VarConfigNotAllowed(..) => "syntax"@,
            SyntaxError::VarLocatedNotAllowed(..) => "syntax"@,
            SyntaxError::VarExternalNotAllowed(..) => "syntax"@,
            SyntaxError::VarGlobalNotAllowed(..) => "syntax"@,
            SyntaxError::VarNotAllowed(..) => "syntax"@,
            SyntaxError::SingleAfterInterval(..) => "syntax"@,
            SyntaxError::IntervalAfterPriority(..) => "syntax"@,
            SyntaxError::SingleAfterPriority(..) => "syntax"@,
            SyntaxError::MissingPriority(..) => "syntax"@,
            SyntaxError::ArrayConformandNotSupported(..) => "syntax"@,
            SyntaxError::AccessSpecNotAllowedInMethodPrototype(..) => "syntax"@,
            SyntaxError::MethodDeclInBody(..) => "syntax"@,
            SyntaxError::SyntaxError { .. } => "syntax"@,
        }
    }

    /// The short description of the error's kind.
    pub fn description(&self) -> (r: &'static str)
        ensures
            r@ == self.spec_description(),
    {
        match self {
            SyntaxError::MultipleExtends { .. } => "syntax",
            SyntaxError::MultipleImplements { .. } => "syntax",
            SyntaxError::ImplementsBeforeExtends { .. } => "syntax",
            SyntaxError::ClassVariablesAfterMethod { .. } => "syntax",
            SyntaxError::FbVariablesAfterMethod { .. } => "syntax",
            SyntaxError::MissingVarType(..) => "syntax",
            SyntaxError::UnexpectedVarInit(..) => "syntax",
            SyntaxError::IncompleteEdgeQualifier(..) => "syntax",
            SyntaxError::UnexpectedThis(..) => "syntax",
            SyntaxError::UnexpectedSuper(..) => "syntax",
            SyntaxError::AssignToFunctionCall(..) => "syntax",
            SyntaxError::CommaIndexAccess(..) => "syntax",
            SyntaxError::EmptyRightHandSide(..) => "syntax",
            SyntaxError::MissingDotInAssignment { .. } => "syntax",
            SyntaxError::MissingEqualInAssignment { .. } => "syntax",
            SyntaxError::MissingDotInForList { .. } => "syntax",
            SyntaxError::MissingEqualInForList { .. } => "syntax",
            SyntaxError::FunctionCallInInitExpression(..) => "syntax",
            SyntaxError::OutputAssignInAssignment { .. } => "syntax",
            SyntaxError::OutputAssignInForList { .. } => "syntax",
            SyntaxError::ProgramNotAllowedInNamespace(..) => "syntax",
            SyntaxError::ConfigNotAllowedInNamespace(..) => "syntax",
            SyntaxError::MissingNode { .. } => "syntax",
            SyntaxError::VarInOutNotAllowed(..) => "syntax",
            SyntaxError::VarTempNotAllowed(..) => "syntax",
            SyntaxError::VarAccessNotAllowed(..) => "syntax",
            SyntaxError::VarConfigNotAllowed(..) => "syntax",
            SyntaxError::VarLocatedNotAllowed(..) => "syntax",
            SyntaxError::VarExternalNotAllowed(..) => "syntax",
            SyntaxError::VarGlobalNotAllowed(..) => "syntax",
            SyntaxError::VarNotAllowed(..) => "syntax",
            SyntaxError::SingleAfterInterval(..) => "syntax",
            SyntaxError::IntervalAfterPriority(..) => "syntax",
            SyntaxError::SingleAfterPriority(..) => "syntax",
            SyntaxError::MissingPriority(..) => "syntax",
            SyntaxError::ArrayConformandNotSupported(..) => "syntax",
            SyntaxError::AccessSpecNotAllowedInMethodPrototype(..) => "syntax",
            SyntaxError::MethodDeclInBody(..) => "syntax",
            SyntaxError::SyntaxError { .. } => "syntax",
        }
    }

    /// An error diagnostic of this error at `span`.
    pub open spec fn err(&self, message: Seq<char>, span: Span) -> DiagnosticView {
        DiagnosticView::error(message, self.spec_code(), self.spec_description(), span)
    }

    fn error_at(&self, message: String, span: Span) -> (d: Diagnostic)
        ensures
            d@ == self.err(message@, span),
    {
        Diagnostic::error(message, self.code(), self.description(), span)
    }

    /// The diagnostic this error renders to.
    pub open spec fn spec_to_diagnostic(&self) -> DiagnosticView {
        match self {
            SyntaxError::MultipleExtends { location, first_extend_span, file, source } =>
                self.err("multiple EXTENDS declarations are not allowed"@, *location).rel(
                    "merge into single clause: 'EXTENDS "@ + clause_items(source@, *first_extend_span, "EXTENDS "@)
                        + ", "@ + clause_items(source@, *location, "EXTENDS "@) + "'"@,
                    *file,
                    *first_extend_span,
                ),
            SyntaxError::MultipleImplements { location, first_implements_span, file, source } =>
                self.err("multiple IMPLEMENTS declarations are not allowed"@, *location).rel(
                    "merge into single clause: 'IMPLEMENTS "@ + clause_items(source@, *first_implements_span, "IMPLEMENTS "@)
                        + ", "@ + clause_items(source@, *location, "IMPLEMENTS "@) + "'"@,
                    *file,
                    *first_implements_span,
                ),
            SyntaxError::ImplementsBeforeExtends { implements_span, extends_span, file, source } =>
                self.err("IMPLEMENTS must be declared after EXTENDS"@, *implements_span).rel(
                    "move '"@ + trimmed(span_text(source@, *implements_span)) + "' here"@,
                    *file,
                    *extends_span,
                ),
            SyntaxError::ClassVariablesAfterMethod { var_span, method_span, file } =>
                self.err("CLASS variable declarations must appear before methods"@, *var_span)
                .rel("move variables before methods here"@, *file, start_of(*method_span)),
            SyntaxError::FbVariablesAfterMethod { var_span, method_span, file } =>
                self.err("FB variable declarations must appear before methods"@, *var_span)
                .rel("move variables before methods here"@, *file, start_of(*method_span)),
            SyntaxError::MissingVarType(span) =>
                self.err("variable type is missing"@, *span),
            SyntaxError::UnexpectedVarInit(span) =>
                self.err("unexpected variable initialization"@, *span),
            SyntaxError::IncompleteEdgeQualifier(span) =>
                self.err("incomplete edge qualifier"@, *span),
            SyntaxError::UnexpectedThis(span) =>
                self.err("'THIS' is not valid in this context"@, *span),
            SyntaxError::UnexpectedSuper(span) =>
                self.err("'SUPER' is not valid in this context"@, *span),
            SyntaxError::AssignToFunctionCall(span) =>
                self.err("assignment to function call is not allowed"@, *span),
            SyntaxError::CommaIndexAccess(span) =>
                self.err("comma-separated indices are not allowed in array access; use chained subscripts, e.g. `a[i][j]`"@, *span),
            SyntaxError::EmptyRightHandSide(span) =>
                self.err("right-hand side of assignment cannot be empty"@, *span),
            SyntaxError::MissingDotInAssignment { file, span } =>
                self.err("'=' is not a valid assignment sign"@, *span).fix(FixView {
                    title: "replace '=' with ':='"@,
                    edit: Some(TextEditView { file: *file, span: prefix_span(*span, 1), new_text: ":="@ }),
                    is_preferred: true,
                }),
            SyntaxError::MissingEqualInAssignment { file, span } =>
                self.err("':' is not a valid assignment sign"@, *span).fix(FixView {
                    title: "replace ':' with ':='"@,
                    edit: Some(TextEditView { file: *file, span: prefix_span(*span, 1), new_text: ":="@ }),
                    is_preferred: true,
                }),
            SyntaxError::MissingDotInForList { file, span } =>
                self.err("'=' is not a valid assignment sign"@, *span).fix(FixView {
                    title: "replace '=' with ':='"@,
                    edit: Some(TextEditView { file: *file, span: prefix_span(*span, 1), new_text: ":="@ }),
                    is_preferred: true,
                }),
            SyntaxError::MissingEqualInForList { file, span } =>
                self.err("':' is not a valid assignment sign"@, *span).fix(FixView {
                    title: "replace ':' with ':='"@,
                    edit: Some(TextEditView { file: *file, span: prefix_span(*span, 1), new_text: ":="@ }),
                    is_preferred: true,
                }),
            SyntaxError::FunctionCallInInitExpression(span) =>
                self.err("function call in initialization expression is not allowed"@, *span),
            SyntaxError::OutputAssignInAssignment { file, span } =>
                self.err("'=>' is not a valid assignment sign"@, *span).fix(FixView {
                    title: "replace '=>' with ':='"@,
                    edit: Some(TextEditView { file: *file, span: prefix_span(*span, 2), new_text: ":="@ }),
                    is_preferred: true,
                }),
            SyntaxError::OutputAssignInForList { file, span } =>
                self.err("'=>' is not a valid assignment sign"@, *span).fix(FixView {
                    title: "replace '=>' with ':='"@,
                    edit: Some(TextEditView { file: *file, span: prefix_span(*span, 2), new_text: ":="@ }),
                    is_preferred: true,
                }),
            SyntaxError::ProgramNotAllowedInNamespace(span) =>
                self.err("programs are not allowed in namespaces"@, *span),
            SyntaxError::ConfigNotAllowedInNamespace(span) =>
                self.err("configs are not allowed in namespaces"@, *span),
            SyntaxError::MissingNode { file, span, err, grammar_name } =>
                {
                    let d = self.err(err@, *span).sourced("IEC"@).rel("add missing "@ + grammar_name@ + " here"@, *file, *span);
                    if encode_utf8(grammar_name@).len() as usize == 1 {
                        d.fix(FixView {
                            title: "insert missing '"@ + grammar_name@ + "'"@,
                            edit: Some(TextEditView { file: *file, span: *span, new_text: " "@ + grammar_name@ }),
                            is_preferred: true,
                        })
                    } else {
                        d
                    }
                },
            SyntaxError::VarInOutNotAllowed(span) =>
                self.err("VAR_IN_OUT is not allowed in this context"@, *span)
                .note("VAR_IN_OUT can only be used inside FUNCTION, FUNCTION_BLOCK"@),
            SyntaxError::VarTempNotAllowed(span) =>
                self.err("VAR_TEMP is not allowed in this context"@, *span)
                .note("VAR_TEMP can only be used inside FUNCTION, FUNCTION_BLOCK"@),
            SyntaxError::VarAccessNotAllowed(span) =>
                self.err("VAR_ACCESS is not allowed in this context"@, *span)
                .note("VAR_ACCESS can only be used inside PROGRAM"@),
            SyntaxError::VarConfigNotAllowed(span) =>
                self.err("VAR_CONFIG is not allowed in this context"@, *span)
                .note("VAR_CONFIG can only be used inside CONFIGURATION"@),
            SyntaxError::VarLocatedNotAllowed(span) =>
                self.err("VAR_LOCATED is not allowed in this context"@, *span)
                .note("VAR_LOCATED can only be used inside PROGRAM"@),
            SyntaxError::VarExternalNotAllowed(span) =>
                self.err("VAR_EXTERNAL is not allowed in this context"@, *span)
                .note("VAR_EXTERNAL can only be used inside PROGRAM, FUNCTION_BLOCK, FUNCTION"@),
            SyntaxError::VarGlobalNotAllowed(span) =>
                self.err("VAR_GLOBAL is not allowed in this context"@, *span)
                .note("VAR_GLOBAL can only be used inside PROGRAM, CONFIGURATION"@),
            SyntaxError::VarNotAllowed(span) =>
                self.err("VAR is not allowed in this context"@, *span)
                .note("VAR can only be used inside FUNCTION, FUNCTION_BLOCK, PROGRAM"@),
            SyntaxError::SingleAfterInterval(span) =>
                self.err("SINGLE cannot be declared after INTERVAL"@, *span),
            SyntaxError::IntervalAfterPriority(span) =>
                self.err("INTERVAL cannot be declared after PRIORITY"@, *span),
            SyntaxError::SingleAfterPriority(span) =>
                self.err("SINGLE cannot be declared after PRIORITY"@, *span),
            SyntaxError::MissingPriority(span) =>
                self.err("PRIORITY is required in TASK configuration"@, *span),
            SyntaxError::ArrayConformandNotSupported(span) =>
                self.err("array conformands (ARRAY[*]) are not supported"@, *span),
            SyntaxError::AccessSpecNotAllowedInMethodPrototype(span) =>
                self.err("access specifiers are not allowed on interface method prototypes"@, *span)
                .note("interface methods are implicitly PUBLIC"@),
            SyntaxError::MethodDeclInBody(span) =>
                self.err("method declarations are not allowed inside a body"@, *span),
            SyntaxError::SyntaxError { span, err } =>
                self.err(err@, *span),
        }
    }

    /// Renders the error as a diagnostic.
    #[verifier::rlimit(60)]
    pub fn to_diagnostic(&self) -> (d: Diagnostic)
        requires
            self.fixes_fit(),
        ensures
            d@ == self.spec_to_diagnostic(),
    {
        match self {
            SyntaxError::MultipleExtends { location, first_extend_span, file, source } => {
                proof {
                    reveal_strlit("EXTENDS ");
                }
                let second = clause_items_of(source.as_str(), *location, "EXTENDS ");
                let first = clause_items_of(source.as_str(), *first_extend_span, "EXTENDS ");
                let mut d = self.error_at(String::from_str("multiple EXTENDS declarations are not allowed"), *location);
                d.with_related_at(
                    cat5("merge into single clause: 'EXTENDS ", first.as_str(), ", ", second.as_str(), "'"),
                    *file,
                    *first_extend_span,
                );
                d
            },
            SyntaxError::MultipleImplements { location, first_implements_span, file, source } => {
                proof {
                    reveal_strlit("IMPLEMENTS ");
                }
                let second = clause_items_of(source.as_str(), *location, "IMPLEMENTS ");
                let first = clause_items_of(source.as_str(), *first_implements_span, "IMPLEMENTS ");
                let mut d = self.error_at(String::from_str("multiple IMPLEMENTS declarations are not allowed"), *location);
                d.with_related_at(
                    cat5("merge into single clause: 'IMPLEMENTS ", first.as_str(), ", ", second.as_str(), "'"),
                    *file,
                    *first_implements_span,
                );
                d
            },
            SyntaxError::ImplementsBeforeExtends { implements_span, extends_span, file, source } => {
                let implements_text = str_trim(span_text_of(source.as_str(), *implements_span));
                let mut d = self.error_at(String::from_str("IMPLEMENTS must be declared after EXTENDS"), *implements_span);
                d.with_related_at(cat3("move '", implements_text.as_str(), "' here"), *file, *extends_span);
                d
            },
            SyntaxError::ClassVariablesAfterMethod { var_span, method_span, file } => {
                let mut d = self.error_at(String::from_str("CLASS variable declarations must appear before methods"), *var_span);
                d.with_related_at(String::from_str("move variables before methods here"), *file, start_of_span(*method_span));
                d
            },
            SyntaxError::FbVariablesAfterMethod { var_span, method_span, file } => {
                let mut d = self.error_at(String::from_str("FB variable declarations must appear before methods"), *var_span);
                d.with_related_at(String::from_str("move variables before methods here"), *file, start_of_span(*method_span));
                d
            },
            SyntaxError::MissingVarType(span) => {
                self.error_at(String::from_str("variable type is missing"), *span)
            },
            SyntaxError::UnexpectedVarInit(span) => {
                self.error_at(String::from_str("unexpected variable initialization"), *span)
            },
            SyntaxError::IncompleteEdgeQualifier(span) => {
                self.error_at(String::from_str("incomplete edge qualifier"), *span)
            },
            SyntaxError::UnexpectedThis(span) => {
                self.error_at(String::from_str("'THIS' is not valid in this context"), *span)
            },
            SyntaxError::UnexpectedSuper(span) => {
                self.error_at(String::from_str("'SUPER' is not valid in this context"), *span)
            },
            SyntaxError::AssignToFunctionCall(span) => {
                self.error_at(String::from_str("assignment to function call is not allowed"), *span)
            },
            SyntaxError::CommaIndexAccess(span) => {
                self.error_at(String::from_str("comma-separated indices are not allowed in array access; use chained subscripts, e.g. `a[i][j]`"), *span)
            },
            SyntaxError::EmptyRightHandSide(span) => {
                self.error_at(String::from_str("right-hand side of assignment cannot be empty"), *span)
            },
            SyntaxError::MissingDotInAssignment { file, span } => {
                let mut d = self.error_at(String::from_str("'=' is not a valid assignment sign"), *span);
                d.with_fix(Fix::replace(
                    String::from_str("replace '=' with ':='"),
                    *file,
                    prefix_span_of(*span, 1),
                    String::from_str(":="),
                ));
                d
            },
            SyntaxError::MissingEqualInAssignment { file, span } => {
                let mut d = self.error_at(String::from_str("':' is not a valid assignment sign"), *span);
                d.with_fix(Fix::replace(
                    String::from_str("replace ':' with ':='"),
                    *file,
                    prefix_span_of(*span, 1),
                    String::from_str(":="),
                ));
                d
            },
            SyntaxError::MissingDotInForList { file, span } => {
                let mut d = self.error_at(String::from_str("'=' is not a valid assignment sign"), *span);
                d.with_fix(Fix::replace(
                    String::from_str("replace '=' with ':='"),
                    *file,
                    prefix_span_of(*span, 1),
                    String::from_str(":="),
                ));
                d
            },
            SyntaxError::MissingEqualInForList { file, span } => {
                let mut d = self.error_at(String::from_str("':' is not a valid assignment sign"), *span);
                d.with_fix(Fix::replace(
                    String::from_str("replace ':' with ':='"),
                    *file,
                    prefix_span_of(*span, 1),
                    String::from_str(":="),
                ));
                d
            },
            SyntaxError::FunctionCallInInitExpression(span) => {
                self.error_at(String::from_str("function call in initialization expression is not allowed"), *span)
            },
            SyntaxError::OutputAssignInAssignment { file, span } => {
                let mut d = self.error_at(String::from_str("'=>' is not a valid assignment sign"), *span);
                d.with_fix(Fix::replace(
                    String::from_str("replace '=>' with ':='"),
                    *file,
                    prefix_span_of(*span, 2),
                    String::from_str(":="),
                ));
                d
            },
            SyntaxError::OutputAssignInForList { file, span } => {
                let mut d = self.error_at(String::from_str("'=>' is not a valid assignment sign"), *span);
                d.with_fix(Fix::replace(
                    String::from_str("replace '=>' with ':='"),
                    *file,
                    prefix_span_of(*span, 2),
                    String::from_str(":="),
                ));
                d
            },
            SyntaxError::ProgramNotAllowedInNamespace(span) => {
                self.error_at(String::from_str("programs are not allowed in namespaces"), *span)
            },
            SyntaxError::ConfigNotAllowedInNamespace(span) => {
                self.error_at(String::from_str("configs are not allowed in namespaces"), *span)
            },
            SyntaxError::MissingNode { file, span, err, grammar_name } => {
                let mut d = self.error_at(err.clone(), *span);
                d.with_source(String::from_str("IEC"));
                d.with_related_at(cat3("add missing ", grammar_name.as_str(), " here"), *file, *span);
                if grammar_name.as_str().len() == 1 {
                    d.with_fix(Fix::replace(
                        cat3("insert missing '", grammar_name.as_str(), "'"),
                        *file,
                        *span,
                        cat2(" ", grammar_name.as_str()),
                    ));
                }
                d
            },
            SyntaxError::VarInOutNotAllowed(span) => {
                let mut d = self.error_at(String::from_str("VAR_IN_OUT is not allowed in this context"), *span);
                d.with_note(String::from_str("VAR_IN_OUT can only be used inside FUNCTION, FUNCTION_BLOCK"));
                d
            },
            SyntaxError::VarTempNotAllowed(span) => {
                let mut d = self.error_at(String::from_str("VAR_TEMP is not allowed in this context"), *span);
                d.with_note(String::from_str("VAR_TEMP can only be used inside FUNCTION, FUNCTION_BLOCK"));
                d
            },
            SyntaxError::VarAccessNotAllowed(span) => {
                let mut d = self.error_at(String::from_str("VAR_ACCESS is not allowed in this context"), *span);
                d.with_note(String::from_str("VAR_ACCESS can only be used inside PROGRAM"));
                d
            },
            SyntaxError::VarConfigNotAllowed(span) => {
                let mut d = self.error_at(String::from_str("VAR_CONFIG is not allowed in this context"), *span);
                d.with_note(String::from_str("VAR_CONFIG can only be used inside CONFIGURATION"));
                d
            },
            SyntaxError::VarLocatedNotAllowed(span) => {
                let mut d = self.error_at(String::from_str("VAR_LOCATED is not allowed in this context"), *span);
                d.with_note(String::from_str("VAR_LOCATED can only be used inside PROGRAM"));
                d
            },
            SyntaxError::VarExternalNotAllowed(span) => {
                let mut d = self.error_at(String::from_str("VAR_EXTERNAL is not allowed in this context"), *span);
                d.with_note(String::from_str("VAR_EXTERNAL can only be used inside PROGRAM, FUNCTION_BLOCK, FUNCTION"));
                d
            },
            SyntaxError::VarGlobalNotAllowed(span) => {
                let mut d = self.error_at(String::from_str("VAR_GLOBAL is not allowed in this context"), *span);
                d.with_note(String::from_str("VAR_GLOBAL can only be used inside PROGRAM, CONFIGURATION"));
                d
            },
            SyntaxError::VarNotAllowed(span) => {
                let mut d = self.error_at(String::from_str("VAR is not allowed in this context"), *span);
                d.with_note(String::from_str("VAR can only be used inside FUNCTION, FUNCTION_BLOCK, PROGRAM"));
                d
            },
            SyntaxError::SingleAfterInterval(span) => {
                self.error_at(String::from_str("SINGLE cannot be declared after INTERVAL"), *span)
            },
            SyntaxError::IntervalAfterPriority(span) => {
                self.error_at(String::from_str("INTERVAL cannot be declared after PRIORITY"), *span)
            },
            SyntaxError::SingleAfterPriority(span) => {
                self.error_at(String::from_str("SINGLE cannot be declared after PRIORITY"), *span)
            },
            SyntaxError::MissingPriority(span) => {
                self.error_at(String::from_str("PRIORITY is required in TASK configuration"), *span)
            },
            SyntaxError::ArrayConformandNotSupported(span) => {
                self.error_at(String::from_str("array conformands (ARRAY[*]) are not supported"), *span)
            },
            SyntaxError::AccessSpecNotAllowedInMethodPrototype(span) => {
                let mut d = self.error_at(String::from_str("access specifiers are not allowed on interface method prototypes"), *span);
                d.with_note(String::from_str("interface methods are implicitly PUBLIC"));
                d
            },
            SyntaxError::MethodDeclInBody(span) => {
                self.error_at(String::from_str("method declarations are not allowed inside a body"), *span)
            },
            SyntaxError::SyntaxError { span, err } => {
                self.error_at(String::from_str(err.as_str()), *span)
            },
        }
    }
    /// Whether the spans the quick fixes of this error address can be addressed.
    pub open spec fn fixes_fit(&self) -> bool {
        match self {
            SyntaxError::MissingDotInAssignment { span, .. } => prefix_fits(*span, 1),
            SyntaxError::MissingEqualInAssignment { span, .. } => prefix_fits(*span, 1),
            SyntaxError::OutputAssignInAssignment { span, .. } => prefix_fits(*span, 2),
            SyntaxError::MissingDotInForList { span, .. } => prefix_fits(*span, 1),
            SyntaxError::MissingEqualInForList { span, .. } => prefix_fits(*span, 1),
            SyntaxError::OutputAssignInForList { span, .. } => prefix_fits(*span, 2),
            _ => true,
        }
    }

}

impl SyntaxError {
    /// The syntax error of a problem the lexer reports in `file`, whose text
    /// is `document`. The typed tree's problems are not lexer problems, and
    /// are not taken.
    pub fn from_parse_error(problem: &ParseProblem, file: FileId, document: &str) -> (r: SyntaxError)
        requires
            !(*problem is Ast),
            readable(*problem, document@),
        ensures
            match *problem {
                ParseProblem::Missing { range, error, grammar_name } => r matches SyntaxError::MissingNode {
                    file: f,
                    span,
                    err,
                    grammar_name: g,
                } && f == file && span == range && err@ == error@ && g@ == grammar_name@,
                ParseProblem::Syntax { range, error, affected } => r matches SyntaxError::SyntaxError { span, err }
                    && span == range && err@ == syntax_message(range, error@, affected@, document@),
                ParseProblem::Ast { .. } => false,
            },
    {
        match problem {
            ParseProblem::Missing { range, error, grammar_name } => SyntaxError::MissingNode {
                file,
                span: *range,
                err: error.clone(),
                grammar_name: grammar_name.clone(),
            },
            ParseProblem::Syntax { range, error, affected } => {
                let doc = document.as_bytes();
                let err = if affected.as_str().is_empty() && range.end_byte <= doc.len() {
                    let bytes = vstd::slice::slice_subrange(doc, range.start_byte, range.end_byte);
                    let text = utf8_lossy(bytes);
                    let t = str_trim(text.as_str());
                    cat3("Unexpected token(s): '", t.as_str(), "'")
                } else {
                    error.clone()
                };
                SyntaxError::SyntaxError { span: *range, err }
            },
            ParseProblem::Ast { span, .. } => {
                proof {
                    assert(false);
                }
                SyntaxError::SyntaxError { span: *span, err: String::new() }
            },
        }
    }
}

/// Each kind of `SyntaxError` is reported at the span of what it concerns, with
/// its message and severity, whatever names, spans and texts it holds; a
/// kind whose diagnostic is built directly also carries exactly the
/// related locations, notes, tags, source and quick fixes listed.
pub proof fn law_syntax_error_rendering(this: SyntaxError)
    ensures
        match this {
            SyntaxError::MultipleExtends { location, first_extend_span, file, source } => {
                let d = this.spec_to_diagnostic();
                &&& d.message == "multiple EXTENDS declarations are not allowed"@
                &&& d.span == location
                &&& d.severity == Some(Severity::Error)
                &&& d.related == Seq::<RelatedView>::empty().push(RelatedView { message: "merge into single clause: 'EXTENDS "@ + clause_items(source@, first_extend_span, "EXTENDS "@) + ", "@ + clause_items(source@, location, "EXTENDS "@) + "'"@, file: file, span: first_extend_span })
                &&& d.notes == Seq::<Seq<char>>::empty()
                &&& d.tags == Seq::<Tag>::empty()
                &&& d.source == None::<Seq<char>>
                &&& d.fixes == Seq::<FixView>::empty()
            },
            SyntaxError::MultipleImplements { location, first_implements_span, file, source } => {
                let d = this.spec_to_diagnostic();
                &&& d.message == "multiple IMPLEMENTS declarations are not allowed"@
                &&& d.span == location
                &&& d.severity == Some(Severity::Error)
                &&& d.related == Seq::<RelatedView>::empty().push(RelatedView { message: "merge into single clause: 'IMPLEMENTS "@ + clause_items(source@, first_implements_span, "IMPLEMENTS "@) + ", "@ + clause_items(source@, location, "IMPLEMENTS "@) + "'"@, file: file, span: first_implements_span })
                &&& d.notes == Seq::<Seq<char>>::empty()
                &&& d.tags == Seq::<Tag>::empty()
                &&& d.source == None::<Seq<char>>
                &&& d.fixes == Seq::<FixView>::empty()
            },
            SyntaxError::ImplementsBeforeExtends { implements_span, extends_span, file, source } => {
                let d = this.spec_to_diagnostic();
                &&& d.message == "IMPLEMENTS must be declared after EXTENDS"@
                &&& d.span == implements_span
                &&& d.severity == Some(Severity::Error)
                &&& d.related == Seq::<RelatedView>::empty().push(RelatedView { message: "move '"@ + trimmed(span_text(source@, implements_span)) + "' here"@, file: file, span: extends_span })
                &&& d.notes == Seq::<Seq<char>>::empty()
                &&& d.tags == Seq::<Tag>::empty()
                &&& d.source == None::<Seq<char>>
                &&& d.fixes == Seq::<FixView>::empty()
            },
            SyntaxError::ClassVariablesAfterMethod { var_span, method_span, file } => {
                let d = this.spec_to_diagnostic();
                &&& d.message == "CLASS variable declarations must appear before methods"@
                &&& d.span == var_span
                &&& d.severity == Some(Severity::Error)
                &&& d.related == Seq::<RelatedView>::empty().push(RelatedView { message: "move variables before methods here"@, file: file, span: start_of(method_span) })
                &&& d.notes == Seq::<Seq<char>>::empty()
                &&& d.tags == Seq::<Tag>::empty()
                &&& d.source == None::<Seq<char>>
                &&& d.fixes == Seq::<FixView>::empty()
            },
            SyntaxError::FbVariablesAfterMethod { var_span, method_span, file } => {
                let d = this.spec_to_diagnostic();
                &&& d.message == "FB variable declarations must appear before methods"@
                &&& d.span == var_span
                &&& d.severity == Some(Severity::Error)
                &&& d.related == Seq::<RelatedView>::empty().push(RelatedView { message: "move variables before methods here"@, file: file, span: start_of(method_span) })
                &&& d.notes == Seq::<Seq<char>>::empty()
                &&& d.tags == Seq::<Tag>::empty()
                &&& d.source == None::<Seq<char>>
                &&& d.fixes == Seq::<FixView>::empty()
            },
            SyntaxError::MissingVarType(span) => {
                let d = this.spec_to_diagnostic();
                &&& d.message == "variable type is missing"@
                &&& d.span == span
                &&& d.severity == Some(Severity::Error)
                &&& d.related == Seq::<RelatedView>::empty()
                &&& d.notes == Seq::<Seq<char>>::empty()
                &&& d.tags == Seq::<Tag>::empty()
                &&& d.source == None::<Seq<char>>
                &&& d.fixes == Seq::<FixView>::empty()
            },
            SyntaxError::UnexpectedVarInit(span) => {
                let d = this.spec_to_diagnostic();
                &&& d.message == "unexpected variable initialization"@
                &&& d.span == span
                &&& d.severity == Some(Severity::Error)
                &&& d.related == Seq::<RelatedView>::empty()
                &&& d.notes == Seq::<Seq<char>>::empty()
                &&& d.tags == Seq::<Tag>::empty()
                &&& d.source == None::<Seq<char>>
                &&& d.fixes == Seq::<FixView>::empty()
            },
            SyntaxError::IncompleteEdgeQualifier(span) => {
                let d = this.spec_to_diagnostic();
                &&& d.message == "incomplete edge qualifier"@
                &&& d.span == span
                &&& d.severity == Some(Severity::Error)
                &&& d.related == Seq::<RelatedView>::empty()
                &&& d.notes == Seq::<Seq<char>>::empty()
                &&& d.tags == Seq::<Tag>::empty()
                &&& d.source == None::<Seq<char>>
                &&& d.fixes == Seq::<FixView>::empty()
            },
            SyntaxError::UnexpectedThis(span) => {
                let d = this.spec_to_diagnostic();
                &&& d.message == "'THIS' is not valid in this context"@
                &&& d.span == span
                &&& d.severity == Some(Severity::Error)
                &&& d.related == Seq::<RelatedView>::empty()
                &&& d.notes == Seq::<Seq<char>>::empty()
                &&& d.tags == Seq::<Tag>::empty()
                &&& d.source == None::<Seq<char>>
                &&& d.fixes == Seq::<FixView>::empty()
            },
            SyntaxError::UnexpectedSuper(span) => {
                let d = this.spec_to_diagnostic();
                &&& d.message == "'SUPER' is not valid in this context"@
                &&& d.span == span
                &&& d.severity == Some(Severity::Error)
                &&& d.related == Seq::<RelatedView>::empty()
                &&& d.notes == Seq::<Seq<char>>::empty()
                &&& d.tags == Seq::<Tag>::empty()
                &&& d.source == None::<Seq<char>>
                &&& d.fixes == Seq::<FixView>::empty()
            },
            SyntaxError::AssignToFunctionCall(span) => {
                let d = this.spec_to_diagnostic();
                &&& d.message == "assignment to function call is not allowed"@
                &&& d.span == span
                &&& d.severity == Some(Severity::Error)
                &&& d.related == Seq::<RelatedView>::empty()
                &&& d.notes == Seq::<Seq<char>>::empty()
                &&& d.tags == Seq::<Tag>::empty()
                &&& d.source == None::<Seq<char>>
                &&& d.fixes == Seq::<FixView>::empty()
            },
            SyntaxError::CommaIndexAccess(span) => {
                let d = this.spec_to_diagnostic();
                &&& d.message == "comma-separated indices are not allowed in array access; use chained subscripts, e.g. `a[i][j]`"@
                &&& d.span == span
                &&& d.severity == Some(Severity::Error)
                &&& d.related == Seq::<RelatedView>::empty()
                &&& d.notes == Seq::<Seq<char>>::empty()
                &&& d.tags == Seq::<Tag>::empty()
                &&& d.source == None::<Seq<char>>
                &&& d.fixes == Seq::<FixView>::empty()
            },
            SyntaxError::EmptyRightHandSide(span) => {
                let d = this.spec_to_diagnostic();
                &&& d.message == "right-hand side of assignment cannot be empty"@
                &&& d.span == span
                &&& d.severity == Some(Severity::Error)
                &&& d.related == Seq::<RelatedView>::empty()
                &&& d.notes == Seq::<Seq<char>>::empty()
                &&& d.tags == Seq::<Tag>::empty()
                &&& d.source == None::<Seq<char>>
                &&& d.fixes == Seq::<FixView>::empty()
            },
            SyntaxError::MissingDotInAssignment { file, span } => {
                let d = this.spec_to_diagnostic();
                &&& d.message == "'=' is not a valid assignment sign"@
                &&& d.span == span
                &&& d.severity == Some(Severity::Error)
                &&& d.related == Seq::<RelatedView>::empty()
                &&& d.notes == Seq::<Seq<char>>::empty()
                &&& d.tags == Seq::<Tag>::empty()
                &&& d.source == None::<Seq<char>>
                &&& d.fixes == seq![FixView { title: "replace '=' with ':='"@, edit: Some(TextEditView { file: file, span: prefix_span(span, 1), new_text: ":="@ }), is_preferred: true, }]
            },
            SyntaxError::MissingEqualInAssignment { file, span } => {
                let d = this.spec_to_diagnostic();
                &&& d.message == "':' is not a valid assignment sign"@
                &&& d.span == span
                &&& d.severity == Some(Severity::Error)
                &&& d.related == Seq::<RelatedView>::empty()
                &&& d.notes == Seq::<Seq<char>>::empty()
                &&& d.tags == Seq::<Tag>::empty()
                &&& d.source == None::<Seq<char>>
                &&& d.fixes == seq![FixView { title: "replace ':' with ':='"@, edit: Some(TextEditView { file: file, span: prefix_span(span, 1), new_text: ":="@ }), is_preferred: true, }]
            },
            SyntaxError::MissingDotInForList { file, span } => {
                let d = this.spec_to_diagnostic();
                &&& d.message == "'=' is not a valid assignment sign"@
                &&& d.span == span
                &&& d.severity == Some(Severity::Error)
                &&& d.related == Seq::<RelatedView>::empty()
                &&& d.notes == Seq::<Seq<char>>::empty()
                &&& d.tags == Seq::<Tag>::empty()
                &&& d.source == None::<Seq<char>>
                &&& d.fixes == seq![FixView { title: "replace '=' with ':='"@, edit: Some(TextEditView { file: file, span: prefix_span(span, 1), new_text: ":="@ }), is_preferred: true, }]
            },
            SyntaxError::MissingEqualInForList { file, span } => {
                let d = this.spec_to_diagnostic();
                &&& d.message == "':' is not a valid assignment sign"@
                &&& d.span == span
                &&& d.severity == Some(Severity::Error)
                &&& d.related == Seq::<RelatedView>::empty()
                &&& d.notes == Seq::<Seq<char>>::empty()
                &&& d.tags == Seq::<Tag>::empty()
                &&& d.source == None::<Seq<char>>
                &&& d.fixes == seq![FixView { title: "replace ':' with ':='"@, edit: Some(TextEditView { file: file, span: prefix_span(span, 1), new_text: ":="@ }), is_preferred: true, }]
            },
            SyntaxError::FunctionCallInInitExpression(span) => {
                let d = this.spec_to_diagnostic();
                &&& d.message == "function call in initialization expression is not allowed"@
                &&& d.span == span
                &&& d.severity == Some(Severity::Error)
                &&& d.related == Seq::<RelatedView>::empty()
                &&& d.notes == Seq::<Seq<char>>::empty()
                &&& d.tags == Seq::<Tag>::empty()
                &&& d.source == None::<Seq<char>>
                &&& d.fixes == Seq::<FixView>::empty()
            },
            SyntaxError::OutputAssignInAssignment { file, span } => {
                let d = this.spec_to_diagnostic();
                &&& d.message == "'=>' is not a valid assignment sign"@
                &&& d.span == span
                &&& d.severity == Some(Severity::Error)
                &&& d.related == Seq::<RelatedView>::empty()
                &&& d.notes == Seq::<Seq<char>>::empty()
                &&& d.tags == Seq::<Tag>::empty()
                &&& d.source == None::<Seq<char>>
                &&& d.fixes == seq![FixView { title: "replace '=>' with ':='"@, edit: Some(TextEditView { file: file, span: prefix_span(span, 2), new_text: ":="@ }), is_preferred: true, }]
            },
            SyntaxError::OutputAssignInForList { file, span } => {
                let d = this.spec_to_diagnostic();
                &&& d.message == "'=>' is not a valid assignment sign"@
                &&& d.span == span
                &&& d.severity == Some(Severity::Error)
                &&& d.related == Seq::<RelatedView>::empty()
                &&& d.notes == Seq::<Seq<char>>::empty()
                &&& d.tags == Seq::<Tag>::empty()
                &&& d.source == None::<Seq<char>>
                &&& d.fixes == seq![FixView { title: "replace '=>' with ':='"@, edit: Some(TextEditView { file: file, span: prefix_span(span, 2), new_text: ":="@ }), is_preferred: true, }]
            },
            SyntaxError::ProgramNotAllowedInNamespace(span) => {
                let d = this.spec_to_diagnostic();
                &&& d.message == "programs are not allowed in namespaces"@
                &&& d.span == span
                &&& d.severity == Some(Severity::Error)
                &&& d.related == Seq::<RelatedView>::empty()
                &&& d.notes == Seq::<Seq<char>>::empty()
                &&& d.tags == Seq::<Tag>::empty()
                &&& d.source == None::<Seq<char>>
                &&& d.fixes == Seq::<FixView>::empty()
            },
            SyntaxError::ConfigNotAllowedInNamespace(span) => {
                let d = this.spec_to_diagnostic();
                &&& d.message == "configs are not allowed in namespaces"@
                &&& d.span == span
                &&& d.severity == Some(Severity::Error)
                &&& d.related == Seq::<RelatedView>::empty()
                &&& d.notes == Seq::<Seq<char>>::empty()
                &&& d.tags == Seq::<Tag>::empty()
                &&& d.source == None::<Seq<char>>
                &&& d.fixes == Seq::<FixView>::empty()
            },
            SyntaxError::MissingNode { file, span, err, grammar_name } => {
                let d = this.spec_to_diagnostic();
                &&& d.message == err@
                &&& d.span == span
                &&& d.severity == Some(Severity::Error)
            },
            SyntaxError::VarInOutNotAllowed(span) => {
                let d = this.spec_to_diagnostic();
                &&& d.message == "VAR_IN_OUT is not allowed in this context"@
                &&& d.span == span
                &&& d.severity == Some(Severity::Error)
                &&& d.related == Seq::<RelatedView>::empty()
                &&& d.notes == Seq::<Seq<char>>::empty().push("VAR_IN_OUT can only be used inside FUNCTION, FUNCTION_BLOCK"@)
                &&& d.tags == Seq::<Tag>::empty()
                &&& d.source == None::<Seq<char>>
                &&& d.fixes == Seq::<FixView>::empty()
            },
            SyntaxError::VarTempNotAllowed(span) => {
                let d = this.spec_to_diagnostic();
                &&& d.message == "VAR_TEMP is not allowed in this context"@
                &&& d.span == span
                &&& d.severity == Some(Severity::Error)
                &&& d.related == Seq::<RelatedView>::empty()
                &&& d.notes == Seq::<Seq<char>>::empty().push("VAR_TEMP can only be used inside FUNCTION, FUNCTION_BLOCK"@)
                &&& d.tags == Seq::<Tag>::empty()
                &&& d.source == None::<Seq<char>>
                &&& d.fixes == Seq::<FixView>::empty()
            },
            SyntaxError::VarAccessNotAllowed(span) => {
                let d = this.spec_to_diagnostic();
                &&& d.message == "VAR_ACCESS is not allowed in this context"@
                &&& d.span == span
                &&& d.severity == Some(Severity::Error)
                &&& d.related == Seq::<RelatedView>::empty()
                &&& d.notes == Seq::<Seq<char>>::empty().push("VAR_ACCESS can only be used inside PROGRAM"@)
                &&& d.tags == Seq::<Tag>::empty()
                &&& d.source == None::<Seq<char>>
                &&& d.fixes == Seq::<FixView>::empty()
            },
            SyntaxError::VarConfigNotAllowed(span) => {
                let d = this.spec_to_diagnostic();
                &&& d.message == "VAR_CONFIG is not allowed in this context"@
                &&& d.span == span
                &&& d.severity == Some(Severity::Error)
                &&& d.related == Seq::<RelatedView>::empty()
                &&& d.notes == Seq::<Seq<char>>::empty().push("VAR_CONFIG can only be used inside CONFIGURATION"@)
                &&& d.tags == Seq::<Tag>::empty()
                &&& d.source == None::<Seq<char>>
                &&& d.fixes == Seq::<FixView>::empty()
            },
            SyntaxError::VarLocatedNotAllowed(span) => {
                let d = this.spec_to_diagnostic();
                &&& d.message == "VAR_LOCATED is not allowed in this context"@
                &&& d.span == span
                &&& d.severity == Some(Severity::Error)
                &&& d.related == Seq::<RelatedView>::empty()
                &&& d.notes == Seq::<Seq<char>>::empty().push("VAR_LOCATED can only be used inside PROGRAM"@)
                &&& d.tags == Seq::<Tag>::empty()
                &&& d.source == None::<Seq<char>>
                &&& d.fixes == Seq::<FixView>::empty()
            },
            SyntaxError::VarExternalNotAllowed(span) => {
                let d = this.spec_to_diagnostic();
                &&& d.message == "VAR_EXTERNAL is not allowed in this context"@
                &&& d.span == span
                &&& d.severity == Some(Severity::Error)
                &&& d.related == Seq::<RelatedView>::empty()
                &&& d.notes == Seq::<Seq<char>>::empty().push("VAR_EXTERNAL can only be used inside PROGRAM, FUNCTION_BLOCK, FUNCTION"@)
                &&& d.tags == Seq::<Tag>::empty()
                &&& d.source == None::<Seq<char>>
                &&& d.fixes == Seq::<FixView>::empty()
            },
            SyntaxError::VarGlobalNotAllowed(span) => {
                let d = this.spec_to_diagnostic();
                &&& d.message == "VAR_GLOBAL is not allowed in this context"@
                &&& d.span == span
                &&& d.severity == Some(Severity::Error)
                &&& d.related == Seq::<RelatedView>::empty()
                &&& d.notes == Seq::<Seq<char>>::empty().push("VAR_GLOBAL can only be used inside PROGRAM, CONFIGURATION"@)
                &&& d.tags == Seq::<Tag>::empty()
                &&& d.source == None::<Seq<char>>
                &&& d.fixes == Seq::<FixView>::empty()
            },
            SyntaxError::VarNotAllowed(span) => {
                let d = this.spec_to_diagnostic();
                &&& d.message == "VAR is not allowed in this context"@
                &&& d.span == span
                &&& d.severity == Some(Severity::Error)
                &&& d.related == Seq::<RelatedView>::empty()
                &&& d.notes == Seq::<Seq<char>>::empty().push("VAR can only be used inside FUNCTION, FUNCTION_BLOCK, PROGRAM"@)
                &&& d.tags == Seq::<Tag>::empty()
                &&& d.source == None::<Seq<char>>
                &&& d.fixes == Seq::<FixView>::empty()
            },
            SyntaxError::SingleAfterInterval(span) => {
                let d = this.spec_to_diagnostic();
                &&& d.message == "SINGLE cannot be declared after INTERVAL"@
                &&& d.span == span
                &&& d.severity == Some(Severity::Error)
                &&& d.related == Seq::<RelatedView>::empty()
                &&& d.notes == Seq::<Seq<char>>::empty()
                &&& d.tags == Seq::<Tag>::empty()
                &&& d.source == None::<Seq<char>>
                &&& d.fixes == Seq::<FixView>::empty()
            },
            SyntaxError::IntervalAfterPriority(span) => {
                let d = this.spec_to_diagnostic();
                &&& d.message == "INTERVAL cannot be declared after PRIORITY"@
                &&& d.span == span
                &&& d.severity == Some(Severity::Error)
                &&& d.related == Seq::<RelatedView>::empty()
                &&& d.notes == Seq::<Seq<char>>::empty()
                &&& d.tags == Seq::<Tag>::empty()
                &&& d.source == None::<Seq<char>>
                &&& d.fixes == Seq::<FixView>::empty()
            },
            SyntaxError::SingleAfterPriority(span) => {
                let d = this.spec_to_diagnostic();
                &&& d.message == "SINGLE cannot be declared after PRIORITY"@
                &&& d.span == span
                &&& d.severity == Some(Severity::Error)
                &&& d.related == Seq::<RelatedView>::empty()
                &&& d.notes == Seq::<Seq<char>>::empty()
                &&& d.tags == Seq::<Tag>::empty()
                &&& d.source == None::<Seq<char>>
                &&& d.fixes == Seq::<FixView>::empty()
            },
            SyntaxError::MissingPriority(span) => {
                let d = this.spec_to_diagnostic();
                &&& d.message == "PRIORITY is required in TASK configuration"@
                &&& d.span == span
                &&& d.severity == Some(Severity::Error)
                &&& d.related == Seq::<RelatedView>::empty()
                &&& d.notes == Seq::<Seq<char>>::empty()
                &&& d.tags == Seq::<Tag>::empty()
                &&& d.source == None::<Seq<char>>
                &&& d.fixes == Seq::<FixView>::empty()
            },
            SyntaxError::ArrayConformandNotSupported(span) => {
                let d = this.spec_to_diagnostic();
                &&& d.message == "array conformands (ARRAY[*]) are not supported"@
                &&& d.span == span
                &&& d.severity == Some(Severity::Error)
                &&& d.related == Seq::<RelatedView>::empty()
                &&& d.notes == Seq::<Seq<char>>::empty()
                &&& d.tags == Seq::<Tag>::empty()
                &&& d.source == None::<Seq<char>>
                &&& d.fixes == Seq::<FixView>::empty()
            },
            SyntaxError::AccessSpecNotAllowedInMethodPrototype(span) => {
                let d = this.spec_to_diagnostic();
                &&& d.message == "access specifiers are not allowed on interface method prototypes"@
                &&& d.span == span
                &&& d.severity == Some(Severity::Error)
                &&& d.related == Seq::<RelatedView>::empty()
                &&& d.notes == Seq::<Seq<char>>::empty().push("interface methods are implicitly PUBLIC"@)
                &&& d.tags == Seq::<Tag>::empty()
                &&& d.source == None::<Seq<char>>
                &&& d.fixes == Seq::<FixView>::empty()
            },
            SyntaxError::MethodDeclInBody(span) => {
                let d = this.spec_to_diagnostic();
                &&& d.message == "method declarations are not allowed inside a body"@
                &&& d.span == span
                &&& d.severity == Some(Severity::Error)
                &&& d.related == Seq::<RelatedView>::empty()
                &&& d.notes == Seq::<Seq<char>>::empty()
                &&& d.tags == Seq::<Tag>::empty()
                &&& d.source == None::<Seq<char>>
                &&& d.fixes == Seq::<FixView>::empty()
            },
            SyntaxError::SyntaxError { span, err } => {
                let d = this.spec_to_diagnostic();
                &&& d.message == err@
                &&& d.span == span
                &&& d.severity == Some(Severity::Error)
                &&& d.related == Seq::<RelatedView>::empty()
                &&& d.notes == Seq::<Seq<char>>::empty()
                &&& d.tags == Seq::<Tag>::empty()
                &&& d.source == None::<Seq<char>>
                &&& d.fixes == Seq::<FixView>::empty()
            },
        },
{
}

} // verus!
