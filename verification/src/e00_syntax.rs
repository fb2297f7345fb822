//! E00xx: syntax errors, as the parser reports them and as the checker
//! finds them in the parsed tree.
use vstd::prelude::*;
use vstd::string::*;
use vstd::utf8::encode_utf8;
use crate::diag::{Diagnostic, DiagnosticView, FileId, Fix, FixView, Point, Span, TextEditView};
use crate::std_text::{lossy_text, str_trim, trimmed, utf8_lossy};
use crate::text::{cat2, cat3};

use crate::diag::RelatedView;
use crate::diag::Severity;

use crate::diag::Tag;

verus! {

/// The first `width` bytes of a span, on its first line.
pub open spec fn prefix_span(s: Span, width: usize) -> Span {
    Span {
        start_byte: s.start_byte,
        end_byte: (s.start_byte + width) as usize,
        start_point: s.start_point,
        end_point: Point { row: s.start_point.row, column: (s.start_point.column + width) as usize },
    }
}

/// Whether the first `width` bytes of a span can be addressed.
pub open spec fn prefix_fits(s: Span, width: usize) -> bool {
    s.start_byte + width <= usize::MAX && s.start_point.column + width <= usize::MAX
}

fn prefix_span_of(s: Span, width: usize) -> (r: Span)
    requires
        prefix_fits(s, width),
    ensures
        r == prefix_span(s, width),
{
    Span {
        start_byte: s.start_byte,
        end_byte: s.start_byte + width,
        start_point: s.start_point,
        end_point: Point { row: s.start_point.row, column: s.start_point.column + width },
    }
}

/// The empty span at the start of a span.
pub open spec fn start_of(s: Span) -> Span {
    Span { start_byte: s.start_byte, end_byte: s.start_byte, start_point: s.start_point, end_point: s.start_point }
}

fn start_of_span(s: Span) -> (r: Span)
    ensures
        r == start_of(s),
{
    Span { start_byte: s.start_byte, end_byte: s.start_byte, start_point: s.start_point, end_point: s.start_point }
}

/// A syntax error.
pub enum SyntaxError {
    /// A syntax error the parser reports, with its message.
    SyntaxError { span: Span, err: String },
    /// A node the grammar requires is missing; `grammar_name` is its symbol in the grammar.
    MissingNode { file: FileId, span: Span, err: String, grammar_name: String },
    MissingVarType(Span),
    UnexpectedVarInit(Span),
    EmptyRightHandSide(Span),
    MissingDotInAssignment { file: FileId, span: Span },
    MissingEqualInAssignment { file: FileId, span: Span },
    OutputAssignInAssignment { file: FileId, span: Span },
    MissingDotInForList { file: FileId, span: Span },
    MissingEqualInForList { file: FileId, span: Span },
    OutputAssignInForList { file: FileId, span: Span },
    /// `:=` in a condition; `sign` is the `:=` and the space around it.
    AssignInCondition { file: FileId, span: Span, sign: Span },
    AssignToFunctionCall(Span),
    IncompleteEdgeQualifier(Span),
    UnexpectedThis(Span),
    UnexpectedSuper(Span),
    VarNotAllowed(Span),
    VarInOutNotAllowed(Span),
    VarTempNotAllowed(Span),
    VarExternalNotAllowed(Span),
    VarGlobalNotAllowed(Span),
    VarAccessNotAllowed(Span),
    VarConfigNotAllowed(Span),
    ProgramNotAllowedInNamespace(Span),
    ConfigNotAllowedInNamespace(Span),
    /// Variables declared after the first METHOD (`method_span`).
    FbVariablesAfterMethod { var_span: Span, method_span: Span, file: FileId },
    /// Variables declared after the first METHOD (`method_span`).
    ClassVariablesAfterMethod { var_span: Span, method_span: Span, file: FileId },
    MethodDeclInBody(Span),
}

impl SyntaxError {
    pub open spec fn spec_code(&self) -> Seq<char> {
        match self {
            SyntaxError::SyntaxError { .. } => "E0001"@,
            SyntaxError::MissingNode { .. } => "E0002"@,
            SyntaxError::MissingVarType(..) => "E0003"@,
            SyntaxError::UnexpectedVarInit(..) => "E0004"@,
            SyntaxError::EmptyRightHandSide(..) => "E0005"@,
            SyntaxError::MissingDotInAssignment { .. } => "E0006"@,
            SyntaxError::MissingEqualInAssignment { .. } => "E0007"@,
            SyntaxError::OutputAssignInAssignment { .. } => "E0008"@,
            SyntaxError::MissingDotInForList { .. } => "E0009"@,
            SyntaxError::MissingEqualInForList { .. } => "E0010"@,
            SyntaxError::OutputAssignInForList { .. } => "E0011"@,
            SyntaxError::AssignInCondition { .. } => "E0012"@,
            SyntaxError::AssignToFunctionCall(..) => "E0013"@,
            SyntaxError::IncompleteEdgeQualifier(..) => "E0014"@,
            SyntaxError::UnexpectedThis(..) => "E0015"@,
            SyntaxError::UnexpectedSuper(..) => "E0016"@,
            SyntaxError::VarNotAllowed(..) => "E0017"@,
            SyntaxError::VarInOutNotAllowed(..) => "E0018"@,
            SyntaxError::VarTempNotAllowed(..) => "E0019"@,
            SyntaxError::VarExternalNotAllowed(..) => "E0020"@,
            SyntaxError::VarGlobalNotAllowed(..) => "E0021"@,
            SyntaxError::VarAccessNotAllowed(..) => "E0022"@,
            SyntaxError::VarConfigNotAllowed(..) => "E0023"@,
            SyntaxError::ProgramNotAllowedInNamespace(..) => "E0024"@,
            SyntaxError::ConfigNotAllowedInNamespace(..) => "E0025"@,
            SyntaxError::FbVariablesAfterMethod { .. } => "E0026"@,
            SyntaxError::ClassVariablesAfterMethod { .. } => "E0027"@,
            SyntaxError::MethodDeclInBody(..) => "E0028"@,
        }
    }

    /// The stable code of the error.
    pub fn code(&self) -> (r: &'static str)
        ensures
            r@ == self.spec_code(),
    {
        match self {
            SyntaxError::SyntaxError { .. } => "E0001",
            SyntaxError::MissingNode { .. } => "E0002",
            SyntaxError::MissingVarType(..) => "E0003",
            SyntaxError::UnexpectedVarInit(..) => "E0004",
            SyntaxError::EmptyRightHandSide(..) => "E0005",
            SyntaxError::MissingDotInAssignment { .. } => "E0006",
            SyntaxError::MissingEqualInAssignment { .. } => "E0007",
            SyntaxError::OutputAssignInAssignment { .. } => "E0008",
            SyntaxError::MissingDotInForList { .. } => "E0009",
            SyntaxError::MissingEqualInForList { .. } => "E0010",
            SyntaxError::OutputAssignInForList { .. } => "E0011",
            SyntaxError::AssignInCondition { .. } => "E0012",
            SyntaxError::AssignToFunctionCall(..) => "E0013",
            SyntaxError::IncompleteEdgeQualifier(..) => "E0014",
            SyntaxError::UnexpectedThis(..) => "E0015",
            SyntaxError::UnexpectedSuper(..) => "E0016",
            SyntaxError::VarNotAllowed(..) => "E0017",
            SyntaxError::VarInOutNotAllowed(..) => "E0018",
            SyntaxError::VarTempNotAllowed(..) => "E0019",
            SyntaxError::VarExternalNotAllowed(..) => "E0020",
            SyntaxError::VarGlobalNotAllowed(..) => "E0021",
            SyntaxError::VarAccessNotAllowed(..) => "E0022",
            SyntaxError::VarConfigNotAllowed(..) => "E0023",
            SyntaxError::ProgramNotAllowedInNamespace(..) => "E0024",
            SyntaxError::ConfigNotAllowedInNamespace(..) => "E0025",
            SyntaxError::FbVariablesAfterMethod { .. } => "E0026",
            SyntaxError::ClassVariablesAfterMethod { .. } => "E0027",
            SyntaxError::MethodDeclInBody(..) => "E0028",
        }
    }

    pub open spec fn spec_description(&self) -> Seq<char> {
        match self {
            SyntaxError::SyntaxError { .. } => "syntax"@,
            SyntaxError::MissingNode { .. } => "syntax"@,
            SyntaxError::MissingVarType(..) => "syntax"@,
            SyntaxError::UnexpectedVarInit(..) => "syntax"@,
            SyntaxError::EmptyRightHandSide(..) => "syntax"@,
            SyntaxError::MissingDotInAssignment { .. } => "syntax"@,
            SyntaxError::MissingEqualInAssignment { .. } => "syntax"@,
            SyntaxError::OutputAssignInAssignment { .. } => "syntax"@,
            SyntaxError::MissingDotInForList { .. } => "syntax"@,
            SyntaxError::MissingEqualInForList { .. } => "syntax"@,
            SyntaxError::OutputAssignInForList { .. } => "syntax"@,
            SyntaxError::AssignInCondition { .. } => "syntax"@,
            SyntaxError::AssignToFunctionCall(..) => "syntax"@,
            SyntaxError::IncompleteEdgeQualifier(..) => "syntax"@,
            SyntaxError::UnexpectedThis(..) => "syntax"@,
            SyntaxError::UnexpectedSuper(..) => "syntax"@,
            SyntaxError::VarNotAllowed(..) => "syntax"@,
            SyntaxError::VarInOutNotAllowed(..) => "syntax"@,
            SyntaxError::VarTempNotAllowed(..) => "syntax"@,
            SyntaxError::VarExternalNotAllowed(..) => "syntax"@,
            SyntaxError::VarGlobalNotAllowed(..) => "syntax"@,
            SyntaxError::VarAccessNotAllowed(..) => "syntax"@,
            SyntaxError::VarConfigNotAllowed(..) => "syntax"@,
            SyntaxError::ProgramNotAllowedInNamespace(..) => "syntax"@,
            SyntaxError::ConfigNotAllowedInNamespace(..) => "syntax"@,
            SyntaxError::FbVariablesAfterMethod { .. } => "syntax"@,
            SyntaxError::ClassVariablesAfterMethod { .. } => "syntax"@,
            SyntaxError::MethodDeclInBody(..) => "syntax"@,
        }
    }

    /// The short description of the error's kind.
    pub fn description(&self) -> (r: &'static str)
        ensures
            r@ == self.spec_description(),
    {
        match self {
            SyntaxError::SyntaxError { .. } => "syntax",
            SyntaxError::MissingNode { .. } => "syntax",
            SyntaxError::MissingVarType(..) => "syntax",
            SyntaxError::UnexpectedVarInit(..) => "syntax",
            SyntaxError::EmptyRightHandSide(..) => "syntax",
            SyntaxError::MissingDotInAssignment { .. } => "syntax",
            SyntaxError::MissingEqualInAssignment { .. } => "syntax",
            SyntaxError::OutputAssignInAssignment { .. } => "syntax",
            SyntaxError::MissingDotInForList { .. } => "syntax",
            SyntaxError::MissingEqualInForList { .. } => "syntax",
            SyntaxError::OutputAssignInForList { .. } => "syntax",
            SyntaxError::AssignInCondition { .. } => "syntax",
            SyntaxError::AssignToFunctionCall(..) => "syntax",
            SyntaxError::IncompleteEdgeQualifier(..) => "syntax",
            SyntaxError::UnexpectedThis(..) => "syntax",
            SyntaxError::UnexpectedSuper(..) => "syntax",
            SyntaxError::VarNotAllowed(..) => "syntax",
            SyntaxError::VarInOutNotAllowed(..) => "syntax",
            SyntaxError::VarTempNotAllowed(..) => "syntax",
            SyntaxError::VarExternalNotAllowed(..) => "syntax",
            SyntaxError::VarGlobalNotAllowed(..) => "syntax",
            SyntaxError::VarAccessNotAllowed(..) => "syntax",
            SyntaxError::VarConfigNotAllowed(..) => "syntax",
            SyntaxError::ProgramNotAllowedInNamespace(..) => "syntax",
            SyntaxError::ConfigNotAllowedInNamespace(..) => "syntax",
            SyntaxError::FbVariablesAfterMethod { .. } => "syntax",
            SyntaxError::ClassVariablesAfterMethod { .. } => "syntax",
            SyntaxError::MethodDeclInBody(..) => "syntax",
        }
    }

    /// An error diagnostic of this error at `span`.
    pub open spec fn err(&self, message: Seq<char>, span: Span) -> DiagnosticView {
        DiagnosticView::error(message, self.spec_code(), self.spec_description(), span)
    }

    fn error_at(&self, message: String, span: Span) -> (d: Diagnostic)
        ensures
            d@ == self.err(message@, span),
    {
        Diagnostic::error(message, self.code(), self.description(), span)
    }

    /// The diagnostic this error renders to.
    pub open spec fn spec_to_diagnostic(&self) -> DiagnosticView {
        match self {
            SyntaxError::SyntaxError { span, err } =>
                self.err(err@, *span),
            SyntaxError::MissingNode { file, span, err, grammar_name } =>
                {
                    let d = self.err(err@, *span).sourced("IEC"@).rel("add missing "@ + grammar_name@ + " here"@, *file, *span);
                    if encode_utf8(grammar_name@).len() as usize == 1 {
                        d.fix(FixView {
                            title: "insert missing '"@ + grammar_name@ + "'"@,
                            edit: Some(TextEditView { file: *file, span: *span, new_text: " "@ + grammar_name@ }),
                            is_preferred: true,
                        })
                    } else {
                        d
                    }
                },
            SyntaxError::MissingVarType(span) =>
                self.err("variable type is missing"@, *span),
            SyntaxError::UnexpectedVarInit(span) =>
                self.err("unexpected variable initialization"@, *span),
            SyntaxError::EmptyRightHandSide(span) =>
                self.err("right-hand side of assignment cannot be empty"@, *span),
            SyntaxError::MissingDotInAssignment { file, span } =>
                self.err("'=' is not a valid assignment sign"@, *span).fix(FixView {
                    title: "replace '=' with ':='"@,
                    edit: Some(TextEditView { file: *file, span: prefix_span(*span, 1), new_text: ":="@ }),
                    is_preferred: true,
                }),
            SyntaxError::MissingEqualInAssignment { file, span } =>
                self.err("':' is not a valid assignment sign"@, *span).fix(FixView {
                    title: "replace ':' with ':='"@,
                    edit: Some(TextEditView { file: *file, span: prefix_span(*span, 1), new_text: ":="@ }),
                    is_preferred: true,
                }),
            SyntaxError::OutputAssignInAssignment { file, span } =>
                self.err("'=>' is not a valid assignment sign"@, *span).fix(FixView {
                    title: "replace '=>' with ':='"@,
                    edit: Some(TextEditView { file: *file, span: prefix_span(*span, 2), new_text: ":="@ }),
                    is_preferred: true,
                }),
            SyntaxError::MissingDotInForList { file, span } =>
                self.err("'=' is not a valid assignment sign"@, *span).fix(FixView {
                    title: "replace '=' with ':='"@,
                    edit: Some(TextEditView { file: *file, span: prefix_span(*span, 1), new_text: ":="@ }),
                    is_preferred: true,
                }),
            SyntaxError::MissingEqualInForList { file, span } =>
                self.err("':' is not a valid assignment sign"@, *span).fix(FixView {
                    title: "replace ':' with ':='"@,
                    edit: Some(TextEditView { file: *file, span: prefix_span(*span, 1), new_text: ":="@ }),
                    is_preferred: true,
                }),
            SyntaxError::OutputAssignInForList { file, span } =>
                self.err("'=>' is not a valid assignment sign"@, *span).fix(FixView {
                    title: "replace '=>' with ':='"@,
                    edit: Some(TextEditView { file: *file, span: prefix_span(*span, 2), new_text: ":="@ }),
                    is_preferred: true,
                }),
            SyntaxError::AssignInCondition { file, span, sign } =>
                self.err("':=' assigns, a condition compares with '='"@, *span).fix(FixView {
                    title: "replace ':=' with '='"@,
                    edit: Some(TextEditView { file: *file, span: *sign, new_text: " = "@ }),
                    is_preferred: true,
                }),
            SyntaxError::AssignToFunctionCall(span) =>
                self.err("assignment to function call is not allowed"@, *span),
            SyntaxError::IncompleteEdgeQualifier(span) =>
                self.err("incomplete edge qualifier"@, *span),
            SyntaxError::UnexpectedThis(span) =>
                self.err("'THIS' is not valid in this context"@, *span),
            SyntaxError::UnexpectedSuper(span) =>
                self.err("'SUPER' is not valid in this context"@, *span),
            SyntaxError::VarNotAllowed(span) =>
                self.err("VAR is not allowed in this context"@, *span)
                .note("VAR can only be used inside FUNCTION, FUNCTION_BLOCK, PROGRAM"@),
            SyntaxError::VarInOutNotAllowed(span) =>
                self.err("VAR_IN_OUT is not allowed in this context"@, *span)
                .note("VAR_IN_OUT can only be used inside FUNCTION, FUNCTION_BLOCK"@),
            SyntaxError::VarTempNotAllowed(span) =>
                self.err("VAR_TEMP is not allowed in this context"@, *span)
                .note("VAR_TEMP can only be used inside FUNCTION, FUNCTION_BLOCK"@),
            SyntaxError::VarExternalNotAllowed(span) =>
                self.err("VAR_EXTERNAL is not allowed in this context"@, *span)
                .note("VAR_EXTERNAL can only be used inside PROGRAM, FUNCTION_BLOCK, FUNCTION"@),
            SyntaxError::VarGlobalNotAllowed(span) =>
                self.err("VAR_GLOBAL is not allowed in this context"@, *span)
                .note("VAR_GLOBAL can only be used inside CONFIGURATION"@),
            SyntaxError::VarAccessNotAllowed(span) =>
                self.err("VAR_ACCESS is not allowed in this context"@, *span)
                .note("VAR_ACCESS can only be used inside PROGRAM"@),
            SyntaxError::VarConfigNotAllowed(span) =>
                self.err("VAR_CONFIG is not allowed in this context"@, *span)
                .note("VAR_CONFIG can only be used inside CONFIGURATION"@),
            SyntaxError::ProgramNotAllowedInNamespace(span) =>
                self.err("programs are not allowed in namespaces"@, *span),
            SyntaxError::ConfigNotAllowedInNamespace(span) =>
                self.err("configs are not allowed in namespaces"@, *span),
            SyntaxError::FbVariablesAfterMethod { var_span, method_span, file } =>
                self.err("FB variable declarations must appear before methods"@, *var_span)
                .rel("move variables before methods here"@, *file, start_of(*method_span)),
            SyntaxError::ClassVariablesAfterMethod { var_span, method_span, file } =>
                self.err("CLASS variable declarations must appear before methods"@, *var_span)
                .rel("move variables before methods here"@, *file, start_of(*method_span)),
            SyntaxError::MethodDeclInBody(span) =>
                self.err("method declarations are not allowed inside a body"@, *span),
        }
    }

    /// Renders the error as a diagnostic.
    #[verifier::rlimit(60)]
    pub fn to_diagnostic(&self) -> (d: Diagnostic)
        requires
            self.fixes_fit(),
        ensures
            d@ == self.spec_to_diagnostic(),
    {
        match self {
            SyntaxError::SyntaxError { span, err } => {
                self.error_at(String::from_str(err.as_str()), *span)
            },
            SyntaxError::MissingNode { file, span, err, grammar_name } => {
                let mut d = self.error_at(err.clone(), *span);
                d.with_source(String::from_str("IEC"));
                d.with_related_at(cat3("add missing ", grammar_name.as_str(), " here"), *file, *span);
                if grammar_name.as_str().len() == 1 {
                    d.with_fix(Fix::replace(
                        cat3("insert missing '", grammar_name.as_str(), "'"),
                        *file,
                        *span,
                        cat2(" ", grammar_name.as_str()),
                    ));
                }
                d
            },
            SyntaxError::MissingVarType(span) => {
                self.error_at(String::from_str("variable type is missing"), *span)
            },
            SyntaxError::UnexpectedVarInit(span) => {
                self.error_at(String::from_str("unexpected variable initialization"), *span)
            },
            SyntaxError::EmptyRightHandSide(span) => {
                self.error_at(String::from_str("right-hand side of assignment cannot be empty"), *span)
            },
            SyntaxError::MissingDotInAssignment { file, span } => {
                let mut d = self.error_at(String::from_str("'=' is not a valid assignment sign"), *span);
                d.with_fix(Fix::replace(
                    String::from_str("replace '=' with ':='"),
                    *file,
                    prefix_span_of(*span, 1),
                    String::from_str(":="),
                ));
                d
            },
            SyntaxError::MissingEqualInAssignment { file, span } => {
                let mut d = self.error_at(String::from_str("':' is not a valid assignment sign"), *span);
                d.with_fix(Fix::replace(
                    String::from_str("replace ':' with ':='"),
                    *file,
                    prefix_span_of(*span, 1),
                    String::from_str(":="),
                ));
                d
            },
            SyntaxError::OutputAssignInAssignment { file, span } => {
                let mut d = self.error_at(String::from_str("'=>' is not a valid assignment sign"), *span);
                d.with_fix(Fix::replace(
                    String::from_str("replace '=>' with ':='"),
                    *file,
                    prefix_span_of(*span, 2),
                    String::from_str(":="),
                ));
                d
            },
            SyntaxError::MissingDotInForList { file, span } => {
                let mut d = self.error_at(String::from_str("'=' is not a valid assignment sign"), *span);
                d.with_fix(Fix::replace(
                    String::from_str("replace '=' with ':='"),
                    *file,
                    prefix_span_of(*span, 1),
                    String::from_str(":="),
                ));
                d
            },
            SyntaxError::MissingEqualInForList { file, span } => {
                let mut d = self.error_at(String::from_str("':' is not a valid assignment sign"), *span);
                d.with_fix(Fix::replace(
                    String::from_str("replace ':' with ':='"),
                    *file,
                    prefix_span_of(*span, 1),
                    String::from_str(":="),
                ));
                d
            },
            SyntaxError::OutputAssignInForList { file, span } => {
                let mut d = self.error_at(String::from_str("'=>' is not a valid assignment sign"), *span);
                d.with_fix(Fix::replace(
                    String::from_str("replace '=>' with ':='"),
                    *file,
                    prefix_span_of(*span, 2),
                    String::from_str(":="),
                ));
                d
            },
            SyntaxError::AssignInCondition { file, span, sign } => {
                let mut d = self.error_at(String::from_str("':=' assigns, a condition compares with '='"), *span);
                d.with_fix(Fix::replace(String::from_str("replace ':=' with '='"), *file, *sign, String::from_str(" = ")));
                d
            },
            SyntaxError::AssignToFunctionCall(span) => {
                self.error_at(String::from_str("assignment to function call is not allowed"), *span)
            },
            SyntaxError::IncompleteEdgeQualifier(span) => {
                self.error_at(String::from_str("incomplete edge qualifier"), *span)
            },
            SyntaxError::UnexpectedThis(span) => {
                self.error_at(String::from_str("'THIS' is not valid in this context"), *span)
            },
            SyntaxError::UnexpectedSuper(span) => {
                self.error_at(String::from_str("'SUPER' is not valid in this context"), *span)
            },
            SyntaxError::VarNotAllowed(span) => {
                let mut d = self.error_at(String::from_str("VAR is not allowed in this context"), *span);
                d.with_note(String::from_str("VAR can only be used inside FUNCTION, FUNCTION_BLOCK, PROGRAM"));
                d
            },
            SyntaxError::VarInOutNotAllowed(span) => {
                let mut d = self.error_at(String::from_str("VAR_IN_OUT is not allowed in this context"), *span);
                d.with_note(String::from_str("VAR_IN_OUT can only be used inside FUNCTION, FUNCTION_BLOCK"));
                d
            },
            SyntaxError::VarTempNotAllowed(span) => {
                let mut d = self.error_at(String::from_str("VAR_TEMP is not allowed in this context"), *span);
                d.with_note(String::from_str("VAR_TEMP can only be used inside FUNCTION, FUNCTION_BLOCK"));
                d
            },
            SyntaxError::VarExternalNotAllowed(span) => {
                let mut d = self.error_at(String::from_str("VAR_EXTERNAL is not allowed in this context"), *span);
                d.with_note(String::from_str("VAR_EXTERNAL can only be used inside PROGRAM, FUNCTION_BLOCK, FUNCTION"));
                d
            },
            SyntaxError::VarGlobalNotAllowed(span) => {
                let mut d = self.error_at(String::from_str("VAR_GLOBAL is not allowed in this context"), *span);
                d.with_note(String::from_str("VAR_GLOBAL can only be used inside CONFIGURATION"));
                d
            },
            SyntaxError::VarAccessNotAllowed(span) => {
                let mut d = self.error_at(String::from_str("VAR_ACCESS is not allowed in this context"), *span);
                d.with_note(String::from_str("VAR_ACCESS can only be used inside PROGRAM"));
                d
            },
            SyntaxError::VarConfigNotAllowed(span) => {
                let mut d = self.error_at(String::from_str("VAR_CONFIG is not allowed in this context"), *span);
                d.with_note(String::from_str("VAR_CONFIG can only be used inside CONFIGURATION"));
                d
            },
            SyntaxError::ProgramNotAllowedInNamespace(span) => {
                self.error_at(String::from_str("programs are not allowed in namespaces"), *span)
            },
            SyntaxError::ConfigNotAllowedInNamespace(span) => {
                self.error_at(String::from_str("configs are not allowed in namespaces"), *span)
            },
            SyntaxError::FbVariablesAfterMethod { var_span, method_span, file } => {
                let mut d = self.error_at(String::from_str("FB variable declarations must appear before methods"), *var_span);
                d.with_related_at(String::from_str("move variables before methods here"), *file, start_of_span(*method_span));
                d
            },
            SyntaxError::ClassVariablesAfterMethod { var_span, method_span, file } => {
                let mut d = self.error_at(String::from_str("CLASS variable declarations must appear before methods"), *var_span);
                d.with_related_at(String::from_str("move variables before methods here"), *file, start_of_span(*method_span));
                d
            },
            SyntaxError::MethodDeclInBody(span) => {
                self.error_at(String::from_str("method declarations are not allowed inside a body"), *span)
            },
        }
    }
    /// Whether the spans the quick fixes of this error address can be addressed.
    pub open spec fn fixes_fit(&self) -> bool {
        match self {
            SyntaxError::MissingDotInAssignment { span, .. } => prefix_fits(*span, 1),
            SyntaxError::MissingEqualInAssignment { span, .. } => prefix_fits(*span, 1),
            SyntaxError::OutputAssignInAssignment { span, .. } => prefix_fits(*span, 2),
            SyntaxError::MissingDotInForList { span, .. } => prefix_fits(*span, 1),
            SyntaxError::MissingEqualInForList { span, .. } => prefix_fits(*span, 1),
            SyntaxError::OutputAssignInForList { span, .. } => prefix_fits(*span, 2),
            _ => true,
        }
    }

}

/// A problem the parser reports: a missing node, a syntax error (with the
/// text of the nodes it affects, empty when it could not name them), or a
/// construct the typed tree has no place for.
pub enum ParseProblem {
    Missing { range: Span, error: String, grammar_name: String },
    Syntax { range: Span, error: String, affected: String },
    Ast { span: Span, error: String },
}

/// The message of a syntax error the parser reports: its own, or, when it
/// could not name the nodes it affects, the source text it covers.
pub open spec fn syntax_message(range: Span, error: Seq<char>, affected: Seq<char>, document: Seq<char>) -> Seq<char> {
    let bytes = encode_utf8(document);
    if affected.len() == 0 && range.end_byte <= bytes.len() {
        "Unexpected token(s): '"@ + trimmed(lossy_text(bytes.subrange(range.start_byte as int, range.end_byte as int)))
            + "'"@
    } else {
        error
    }
}

/// Whether the source text a problem refers to can be read: a span read
/// from the document does not end before it starts.
pub open spec fn readable(problem: ParseProblem, document: Seq<char>) -> bool {
    match problem {
        ParseProblem::Syntax { range, affected, .. } =>
            affected@.len() == 0 && range.end_byte <= encode_utf8(document).len() ==> range.start_byte <= range.end_byte,
        _ => true,
    }
}

impl SyntaxError {
    /// The syntax error of a parse problem found in `file`, whose text is `document`.
    pub fn from_parse_error(problem: &ParseProblem, file: FileId, document: &str) -> (r: SyntaxError)
        requires
            readable(*problem, document@),
        ensures
            match *problem {
                ParseProblem::Missing { range, error, grammar_name } => r matches SyntaxError::MissingNode {
                    file: f,
                    span,
                    err,
                    grammar_name: g,
                } && f == file && span == range && err@ == error@ && g@ == grammar_name@,
                ParseProblem::Syntax { range, error, affected } => r matches SyntaxError::SyntaxError { span, err }
                    && span == range && err@ == syntax_message(range, error@, affected@, document@),
                ParseProblem::Ast { span, error } => r matches SyntaxError::SyntaxError { span: s, err } && s == span
                    && err@ == "the parser has no place for this construct ("@ + error@ + "); this is a compiler bug"@,
            },
    {
        match problem {
            ParseProblem::Missing { range, error, grammar_name } => SyntaxError::MissingNode {
                file,
                span: *range,
                err: error.clone(),
                grammar_name: grammar_name.clone(),
            },
            ParseProblem::Syntax { range, error, affected } => {
                let doc = document.as_bytes();
                let err = if affected.as_str().is_empty() && range.end_byte <= doc.len() {
                    let bytes = vstd::slice::slice_subrange(doc, range.start_byte, range.end_byte);
                    let text = utf8_lossy(bytes);
                    let t = str_trim(text.as_str());
                    cat3("Unexpected token(s): '", t.as_str(), "'")
                } else {
                    error.clone()
                };
                SyntaxError::SyntaxError { span: *range, err }
            },
            ParseProblem::Ast { span, error } => SyntaxError::SyntaxError {
                span: *span,
                err: cat3("the parser has no place for this construct (", error.as_str(), "); this is a compiler bug"),
            },
        }
    }
}

/// Each kind of `SyntaxError` is reported at the span of what it concerns, with
/// its message and severity, whatever names, spans and texts it holds; a
/// kind whose diagnostic is built directly also carries exactly the
/// related locations, notes, tags, source and quick fixes listed.
pub proof fn law_syntax_error_rendering(this: SyntaxError)
    ensures
        match this {
            SyntaxError::SyntaxError { span, err } => {
                let d = this.spec_to_diagnostic();
                &&& d.message == err@
                &&& d.span == span
                &&& d.severity == Some(Severity::Error)
                &&& d.related == Seq::<RelatedView>::empty()
                &&& d.notes == Seq::<Seq<char>>::empty()
                &&& d.tags == Seq::<Tag>::empty()
                &&& d.source == None::<Seq<char>>
                &&& d.fixes == Seq::<FixView>::empty()
            },
            SyntaxError::MissingNode { file, span, err, grammar_name } => {
                let d = this.spec_to_diagnostic();
                &&& d.message == err@
                &&& d.span == span
                &&& d.severity == Some(Severity::Error)
            },
            SyntaxError::MissingVarType(span) => {
                let d = this.spec_to_diagnostic();
                &&& d.message == "variable type is missing"@
                &&& d.span == span
                &&& d.severity == Some(Severity::Error)
                &&& d.related == Seq::<RelatedView>::empty()
                &&& d.notes == Seq::<Seq<char>>::empty()
                &&& d.tags == Seq::<Tag>::empty()
                &&& d.source == None::<Seq<char>>
                &&& d.fixes == Seq::<FixView>::empty()
            },
            SyntaxError::UnexpectedVarInit(span) => {
                let d = this.spec_to_diagnostic();
                &&& d.message == "unexpected variable initialization"@
                &&& d.span == span
                &&& d.severity == Some(Severity::Error)
                &&& d.related == Seq::<RelatedView>::empty()
                &&& d.notes == Seq::<Seq<char>>::empty()
                &&& d.tags == Seq::<Tag>::empty()
                &&& d.source == None::<Seq<char>>
                &&& d.fixes == Seq::<FixView>::empty()
            },
            SyntaxError::EmptyRightHandSide(span) => {
                let d = this.spec_to_diagnostic();
                &&& d.message == "right-hand side of assignment cannot be empty"@
                &&& d.span == span
                &&& d.severity == Some(Severity::Error)
                &&& d.related == Seq::<RelatedView>::empty()
                &&& d.notes == Seq::<Seq<char>>::empty()
                &&& d.tags == Seq::<Tag>::empty()
                &&& d.source == None::<Seq<char>>
                &&& d.fixes == Seq::<FixView>::empty()
            },
            SyntaxError::MissingDotInAssignment { file, span } => {
                let d = this.spec_to_diagnostic();
                &&& d.message == "'=' is not a valid assignment sign"@
                &&& d.span == span
                &&& d.severity == Some(Severity::Error)
                &&& d.related == Seq::<RelatedView>::empty()
                &&& d.notes == Seq::<Seq<char>>::empty()
                &&& d.tags == Seq::<Tag>::empty()
                &&& d.source == None::<Seq<char>>
                &&& d.fixes == seq![FixView { title: "replace '=' with ':='"@, edit: Some(TextEditView { file: file, span: prefix_span(span, 1), new_text: ":="@ }), is_preferred: true, }]
            },
            SyntaxError::MissingEqualInAssignment { file, span } => {
                let d = this.spec_to_diagnostic();
                &&& d.message == "':' is not a valid assignment sign"@
                &&& d.span == span
                &&& d.severity == Some(Severity::Error)
                &&& d.related == Seq::<RelatedView>::empty()
                &&& d.notes == Seq::<Seq<char>>::empty()
                &&& d.tags == Seq::<Tag>::empty()
                &&& d.source == None::<Seq<char>>
                &&& d.fixes == seq![FixView { title: "replace ':' with ':='"@, edit: Some(TextEditView { file: file, span: prefix_span(span, 1), new_text: ":="@ }), is_preferred: true, }]
            },
            SyntaxError::OutputAssignInAssignment { file, span } => {
                let d = this.spec_to_diagnostic();
                &&& d.message == "'=>' is not a valid assignment sign"@
                &&& d.span == span
                &&& d.severity == Some(Severity::Error)
                &&& d.related == Seq::<RelatedView>::empty()
                &&& d.notes == Seq::<Seq<char>>::empty()
                &&& d.tags == Seq::<Tag>::empty()
                &&& d.source == None::<Seq<char>>
                &&& d.fixes == seq![FixView { title: "replace '=>' with ':='"@, edit: Some(TextEditView { file: file, span: prefix_span(span, 2), new_text: ":="@ }), is_preferred: true, }]
            },
            SyntaxError::MissingDotInForList { file, span } => {
                let d = this.spec_to_diagnostic();
                &&& d.message == "'=' is not a valid assignment sign"@
                &&& d.span == span
                &&& d.severity == Some(Severity::Error)
                &&& d.related == Seq::<RelatedView>::empty()
                &&& d.notes == Seq::<Seq<char>>::empty()
                &&& d.tags == Seq::<Tag>::empty()
                &&& d.source == None::<Seq<char>>
                &&& d.fixes == seq![FixView { title: "replace '=' with ':='"@, edit: Some(TextEditView { file: file, span: prefix_span(span, 1), new_text: ":="@ }), is_preferred: true, }]
            },
            SyntaxError::MissingEqualInForList { file, span } => {
                let d = this.spec_to_diagnostic();
                &&& d.message == "':' is not a valid assignment sign"@
                &&& d.span == span
                &&& d.severity == Some(Severity::Error)
                &&& d.related == Seq::<RelatedView>::empty()
                &&& d.notes == Seq::<Seq<char>>::empty()
                &&& d.tags == Seq::<Tag>::empty()
                &&& d.source == None::<Seq<char>>
                &&& d.fixes == seq![FixView { title: "replace ':' with ':='"@, edit: Some(TextEditView { file: file, span: prefix_span(span, 1), new_text: ":="@ }), is_preferred: true, }]
            },
            SyntaxError::OutputAssignInForList { file, span } => {
                let d = this.spec_to_diagnostic();
                &&& d.message == "'=>' is not a valid assignment sign"@
                &&& d.span == span
                &&& d.severity == Some(Severity::Error)
                &&& d.related == Seq::<RelatedView>::empty()
                &&& d.notes == Seq::<Seq<char>>::empty()
                &&& d.tags == Seq::<Tag>::empty()
                &&& d.source == None::<Seq<char>>
                &&& d.fixes == seq![FixView { title: "replace '=>' with ':='"@, edit: Some(TextEditView { file: file, span: prefix_span(span, 2), new_text: ":="@ }), is_preferred: true, }]
            },
            SyntaxError::AssignInCondition { file, span, sign } => {
                let d = this.spec_to_diagnostic();
                &&& d.message == "':=' assigns, a condition compares with '='"@
                &&& d.span == span
                &&& d.severity == Some(Severity::Error)
                &&& d.related == Seq::<RelatedView>::empty()
                &&& d.notes == Seq::<Seq<char>>::empty()
                &&& d.tags == Seq::<Tag>::empty()
                &&& d.source == None::<Seq<char>>
                &&& d.fixes == seq![FixView { title: "replace ':=' with '='"@, edit: Some(TextEditView { file: file, span: sign, new_text: " = "@ }), is_preferred: true, }]
            },
            SyntaxError::AssignToFunctionCall(span) => {
                let d = this.spec_to_diagnostic();
                &&& d.message == "assignment to function call is not allowed"@
                &&& d.span == span
                &&& d.severity == Some(Severity::Error)
                &&& d.related == Seq::<RelatedView>::empty()
                &&& d.notes == Seq::<Seq<char>>::empty()
                &&& d.tags == Seq::<Tag>::empty()
                &&& d.source == None::<Seq<char>>
                &&& d.fixes == Seq::<FixView>::empty()
            },
            SyntaxError::IncompleteEdgeQualifier(span) => {
                let d = this.spec_to_diagnostic();
                &&& d.message == "incomplete edge qualifier"@
                &&& d.span == span
                &&& d.severity == Some(Severity::Error)
                &&& d.related == Seq::<RelatedView>::empty()
                &&& d.notes == Seq::<Seq<char>>::empty()
                &&& d.tags == Seq::<Tag>::empty()
                &&& d.source == None::<Seq<char>>
                &&& d.fixes == Seq::<FixView>::empty()
            },
            SyntaxError::UnexpectedThis(span) => {
                let d = this.spec_to_diagnostic();
                &&& d.message == "'THIS' is not valid in this context"@
                &&& d.span == span
                &&& d.severity == Some(Severity::Error)
                &&& d.related == Seq::<RelatedView>::empty()
                &&& d.notes == Seq::<Seq<char>>::empty()
                &&& d.tags == Seq::<Tag>::empty()
                &&& d.source == None::<Seq<char>>
                &&& d.fixes == Seq::<FixView>::empty()
            },
            SyntaxError::UnexpectedSuper(span) => {
                let d = this.spec_to_diagnostic();
                &&& d.message == "'SUPER' is not valid in this context"@
                &&& d.span == span
                &&& d.severity == Some(Severity::Error)
                &&& d.related == Seq::<RelatedView>::empty()
                &&& d.notes == Seq::<Seq<char>>::empty()
                &&& d.tags == Seq::<Tag>::empty()
                &&& d.source == None::<Seq<char>>
                &&& d.fixes == Seq::<FixView>::empty()
            },
            SyntaxError::VarNotAllowed(span) => {
                let d = this.spec_to_diagnostic();
                &&& d.message == "VAR is not allowed in this context"@
                &&& d.span == span
                &&& d.severity == Some(Severity::Error)
                &&& d.related == Seq::<RelatedView>::empty()
                &&& d.notes == Seq::<Seq<char>>::empty().push("VAR can only be used inside FUNCTION, FUNCTION_BLOCK, PROGRAM"@)
                &&& d.tags == Seq::<Tag>::empty()
                &&& d.source == None::<Seq<char>>
                &&& d.fixes == Seq::<FixView>::empty()
            },
            SyntaxError::VarInOutNotAllowed(span) => {
                let d = this.spec_to_diagnostic();
                &&& d.message == "VAR_IN_OUT is not allowed in this context"@
                &&& d.span == span
                &&& d.severity == Some(Severity::Error)
                &&& d.related == Seq::<RelatedView>::empty()
                &&& d.notes == Seq::<Seq<char>>::empty().push("VAR_IN_OUT can only be used inside FUNCTION, FUNCTION_BLOCK"@)
                &&& d.tags == Seq::<Tag>::empty()
                &&& d.source == None::<Seq<char>>
                &&& d.fixes == Seq::<FixView>::empty()
            },
            SyntaxError::VarTempNotAllowed(span) => {
                let d = this.spec_to_diagnostic();
                &&& d.message == "VAR_TEMP is not allowed in this context"@
                &&& d.span == span
                &&& d.severity == Some(Severity::Error)
                &&& d.related == Seq::<RelatedView>::empty()
                &&& d.notes == Seq::<Seq<char>>::empty().push("VAR_TEMP can only be used inside FUNCTION, FUNCTION_BLOCK"@)
                &&& d.tags == Seq::<Tag>::empty()
                &&& d.source == None::<Seq<char>>
                &&& d.fixes == Seq::<FixView>::empty()
            },
            SyntaxError::VarExternalNotAllowed(span) => {
                let d = this.spec_to_diagnostic();
                &&& d.message == "VAR_EXTERNAL is not allowed in this context"@
                &&& d.span == span
                &&& d.severity == Some(Severity::Error)
                &&& d.related == Seq::<RelatedView>::empty()
                &&& d.notes == Seq::<Seq<char>>::empty().push("VAR_EXTERNAL can only be used inside PROGRAM, FUNCTION_BLOCK, FUNCTION"@)
                &&& d.tags == Seq::<Tag>::empty()
                &&& d.source == None::<Seq<char>>
                &&& d.fixes == Seq::<FixView>::empty()
            },
            SyntaxError::VarGlobalNotAllowed(span) => {
                let d = this.spec_to_diagnostic();
                &&& d.message == "VAR_GLOBAL is not allowed in this context"@
                &&& d.span == span
                &&& d.severity == Some(Severity::Error)
                &&& d.related == Seq::<RelatedView>::empty()
                &&& d.notes == Seq::<Seq<char>>::empty().push("VAR_GLOBAL can only be used inside CONFIGURATION"@)
                &&& d.tags == Seq::<Tag>::empty()
                &&& d.source == None::<Seq<char>>
                &&& d.fixes == Seq::<FixView>::empty()
            },
            SyntaxError::VarAccessNotAllowed(span) => {
                let d = this.spec_to_diagnostic();
                &&& d.message == "VAR_ACCESS is not allowed in this context"@
                &&& d.span == span
                &&& d.severity == Some(Severity::Error)
                &&& d.related == Seq::<RelatedView>::empty()
                &&& d.notes == Seq::<Seq<char>>::empty().push("VAR_ACCESS can only be used inside PROGRAM"@)
                &&& d.tags == Seq::<Tag>::empty()
                &&& d.source == None::<Seq<char>>
                &&& d.fixes == Seq::<FixView>::empty()
            },
            SyntaxError::VarConfigNotAllowed(span) => {
                let d = this.spec_to_diagnostic();
                &&& d.message == "VAR_CONFIG is not allowed in this context"@
                &&& d.span == span
                &&& d.severity == Some(Severity::Error)
                &&& d.related == Seq::<RelatedView>::empty()
                &&& d.notes == Seq::<Seq<char>>::empty().push("VAR_CONFIG can only be used inside CONFIGURATION"@)
                &&& d.tags == Seq::<Tag>::empty()
                &&& d.source == None::<Seq<char>>
                &&& d.fixes == Seq::<FixView>::empty()
            },
            SyntaxError::ProgramNotAllowedInNamespace(span) => {
                let d = this.spec_to_diagnostic();
                &&& d.message == "programs are not allowed in namespaces"@
                &&& d.span == span
                &&& d.severity == Some(Severity::Error)
                &&& d.related == Seq::<RelatedView>::empty()
                &&& d.notes == Seq::<Seq<char>>::empty()
                &&& d.tags == Seq::<Tag>::empty()
                &&& d.source == None::<Seq<char>>
                &&& d.fixes == Seq::<FixView>::empty()
            },
            SyntaxError::ConfigNotAllowedInNamespace(span) => {
                let d = this.spec_to_diagnostic();
                &&& d.message == "configs are not allowed in namespaces"@
                &&& d.span == span
                &&& d.severity == Some(Severity::Error)
                &&& d.related == Seq::<RelatedView>::empty()
                &&& d.notes == Seq::<Seq<char>>::empty()
                &&& d.tags == Seq::<Tag>::empty()
                &&& d.source == None::<Seq<char>>
                &&& d.fixes == Seq::<FixView>::empty()
            },
            SyntaxError::FbVariablesAfterMethod { var_span, method_span, file } => {
                let d = this.spec_to_diagnostic();
                &&& d.message == "FB variable declarations must appear before methods"@
                &&& d.span == var_span
                &&& d.severity == Some(Severity::Error)
                &&& d.related == Seq::<RelatedView>::empty().push(RelatedView { message: "move variables before methods here"@, file: file, span: start_of(method_span) })
                &&& d.notes == Seq::<Seq<char>>::empty()
                &&& d.tags == Seq::<Tag>::empty()
                &&& d.source == None::<Seq<char>>
                &&& d.fixes == Seq::<FixView>::empty()
            },
            SyntaxError::ClassVariablesAfterMethod { var_span, method_span, file } => {
                let d = this.spec_to_diagnostic();
                &&& d.message == "CLASS variable declarations must appear before methods"@
                &&& d.span == var_span
                &&& d.severity == Some(Severity::Error)
                &&& d.related == Seq::<RelatedView>::empty().push(RelatedView { message: "move variables before methods here"@, file: file, span: start_of(method_span) })
                &&& d.notes == Seq::<Seq<char>>::empty()
                &&& d.tags == Seq::<Tag>::empty()
                &&& d.source == None::<Seq<char>>
                &&& d.fixes == Seq::<FixView>::empty()
            },
            SyntaxError::MethodDeclInBody(span) => {
                let d = this.spec_to_diagnostic();
                &&& d.message == "method declarations are not allowed inside a body"@
                &&& d.span == span
                &&& d.severity == Some(Severity::Error)
                &&& d.related == Seq::<RelatedView>::empty()
                &&& d.notes == Seq::<Seq<char>>::empty()
                &&& d.tags == Seq::<Tag>::empty()
                &&& d.source == None::<Seq<char>>
                &&& d.fixes == Seq::<FixView>::empty()
            },
        },
{
}

} // verus!
