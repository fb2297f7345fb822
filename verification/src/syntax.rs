//! Syntax errors, as reported without a code.
use vstd::prelude::*;
use vstd::string::*;
use vstd::utf8::encode_utf8;
use crate::diag::{Diagnostic, DiagnosticView, FileId, Fix, FixView, Point, Severity, Span, TextEditView};
use crate::e00_syntax::{prefix_fits, prefix_span};
use crate::text::{cat2, cat3};

use crate::diag::RelatedView;

use crate::diag::Tag;

verus! {

fn prefix_span_of(s: Span, width: usize) -> (r: Span)
    requires
        prefix_fits(s, width),
    ensures
        r == prefix_span(s, width),
{
    Span {
        start_byte: s.start_byte,
        end_byte: s.start_byte + width,
        start_point: s.start_point,
        end_point: Point { row: s.start_point.row, column: s.start_point.column + width },
    }
}

/// A syntax error.
pub enum SyntaxError {
    InvalidPouKeyword(Span),
    MultipleExtends(Span),
    MultipleImplements(Span),
    ImplementsBeforeExtends(Span),
    MissingVarType(Span),
    UnexpectedVarInit(Span),
    IncompleteEdgeQualifier(Span),
    InvocationInExpression(Span),
    UnexpectedThis(Span),
    AssignToFunctionCall(Span),
    EmptyRightHandSide(Span),
    MissingDotInAssignment { file: FileId, span: Span },
    MissingEqualInAssignment { file: FileId, span: Span },
    MissingDotInForList { file: FileId, span: Span },
    MissingEqualInForList { file: FileId, span: Span },
    FunctionCallInInitExpression(Span),
    /// A node the grammar requires is missing; `grammar_name` is its symbol in the grammar.
    MissingNode { file: FileId, span: Span, err: String, grammar_name: String },
    /// A syntax error the parser reports, with its message.
    SyntaxError { span: Span, err: String },
}

impl SyntaxError {
    /// An error diagnostic of this error at `span`, with no code.
    pub open spec fn err(&self, message: Seq<char>, span: Span) -> DiagnosticView {
        DiagnosticView::plain(message, Some(Severity::Error), span)
    }

    fn error_at(&self, message: String, span: Span) -> (d: Diagnostic)
        ensures
            d@ == self.err(message@, span),
    {
        Diagnostic::plain(message, Some(Severity::Error), span)
    }

    /// The diagnostic this error renders to.
    pub open spec fn spec_to_diagnostic(&self) -> DiagnosticView {
        match self {
            SyntaxError::InvalidPouKeyword(span) =>
                self.err("invalid POU keyword"@, *span),
            SyntaxError::MultipleExtends(span) =>
                self.err("multiple extends declarations"@, *span),
            SyntaxError::MultipleImplements(span) =>
                self.err("multiple implements declarations"@, *span),
            SyntaxError::ImplementsBeforeExtends(span) =>
                self.err("implements must be declared after extends"@, *span),
            SyntaxError::MissingVarType(span) =>
                self.err("variable type is missing"@, *span),
            SyntaxError::UnexpectedVarInit(span) =>
                self.err("unexpected variable initialization"@, *span),
            SyntaxError::IncompleteEdgeQualifier(span) =>
                self.err("incomplete edge qualifier"@, *span),
            SyntaxError::InvocationInExpression(span) =>
                self.err("invocation in expression is not allowed"@, *span),
            SyntaxError::UnexpectedThis(span) =>
                self.err("'this' is not valid in this context"@, *span),
            SyntaxError::AssignToFunctionCall(span) =>
                self.err("assignment to function call is not allowed"@, *span),
            SyntaxError::EmptyRightHandSide(span) =>
                self.err("right-hand side of assignment cannot be empty"@, *span),
            SyntaxError::MissingDotInAssignment { file, span } =>
                self.err("'=' is not a valid assignment sign"@, *span).fix(FixView {
                    title: "replace '=' with ':='"@,
                    edit: Some(TextEditView { file: *file, span: prefix_span(*span, 1), new_text: ":="@ }),
                    is_preferred: true,
                }),
            SyntaxError::MissingEqualInAssignment { file, span } =>
                self.err("':' is not a valid assignment sign"@, *span).fix(FixView {
                    title: "replace ':' with ':='"@,
                    edit: Some(TextEditView { file: *file, span: prefix_span(*span, 1), new_text: ":="@ }),
                    is_preferred: true,
                }),
            SyntaxError::MissingDotInForList { file, span } =>
                self.err("'=' is not a valid assignment sign"@, *span).fix(FixView {
                    title: "replace '=' with ':='"@,
                    edit: Some(TextEditView { file: *file, span: prefix_span(*span, 1), new_text: ":="@ }),
                    is_preferred: true,
                }),
            SyntaxError::MissingEqualInForList { file, span } =>
                self.err("':' is not a valid assignment sign"@, *span).fix(FixView {
                    title: "replace ':' with ':='"@,
                    edit: Some(TextEditView { file: *file, span: prefix_span(*span, 1), new_text: ":="@ }),
                    is_preferred: true,
                }),
            SyntaxError::FunctionCallInInitExpression(span) =>
                self.err("function call in initialization expression is not allowed"@, *span),
            SyntaxError::MissingNode { file, span, err, grammar_name } =>
                {
                    let d = self.err(err@, *span).sourced("IEC"@).rel("add missing "@ + grammar_name@ + " here"@, *file, *span);
                    if encode_utf8(grammar_name@).len() as usize == 1 {
                        d.fix(FixView {
                            title: "insert missing '"@ + grammar_name@ + "'"@,
                            edit: Some(TextEditView { file: *file, span: *span, new_text: " "@ + grammar_name@ }),
                            is_preferred: true,
                        })
                    } else {
                        d
                    }
                },
            SyntaxError::SyntaxError { span, err } =>
                self.err(err@, *span),
        }
    }

    /// Renders the error as a diagnostic.
    #[verifier::rlimit(60)]
    pub fn to_diagnostic(&self) -> (d: Diagnostic)
        requires
            self.fixes_fit(),
        ensures
            d@ == self.spec_to_diagnostic(),
    {
        match self {
            SyntaxError::InvalidPouKeyword(span) => {
                self.error_at(String::from_str("invalid POU keyword"), *span)
            },
            SyntaxError::MultipleExtends(span) => {
                self.error_at(String::from_str("multiple extends declarations"), *span)
            },
            SyntaxError::MultipleImplements(span) => {
                self.error_at(String::from_str("multiple implements declarations"), *span)
            },
            SyntaxError::ImplementsBeforeExtends(span) => {
                self.error_at(String::from_str("implements must be declared after extends"), *span)
            },
            SyntaxError::MissingVarType(span) => {
                self.error_at(String::from_str("variable type is missing"), *span)
            },
            SyntaxError::UnexpectedVarInit(span) => {
                self.error_at(String::from_str("unexpected variable initialization"), *span)
            },
            SyntaxError::IncompleteEdgeQualifier(span) => {
                self.error_at(String::from_str("incomplete edge qualifier"), *span)
            },
            SyntaxError::InvocationInExpression(span) => {
                self.error_at(String::from_str("invocation in expression is not allowed"), *span)
            },
            SyntaxError::UnexpectedThis(span) => {
                self.error_at(String::from_str("'this' is not valid in this context"), *span)
            },
            SyntaxError::AssignToFunctionCall(span) => {
                self.error_at(String::from_str("assignment to function call is not allowed"), *span)
            },
            SyntaxError::EmptyRightHandSide(span) => {
                self.error_at(String::from_str("right-hand side of assignment cannot be empty"), *span)
            },
            SyntaxError::MissingDotInAssignment { file, span } => {
                let mut d = self.error_at(String::from_str("'=' is not a valid assignment sign"), *span);
                d.with_fix(Fix::replace(
                    String::from_str("replace '=' with ':='"),
                    *file,
                    prefix_span_of(*span, 1),
                    String::from_str(":="),
                ));
                d
            },
            SyntaxError::MissingEqualInAssignment { file, span } => {
                let mut d = self.error_at(String::from_str("':' is not a valid assignment sign"), *span);
                d.with_fix(Fix::replace(
                    String::from_str("replace ':' with ':='"),
                    *file,
                    prefix_span_of(*span, 1),
                    String::from_str(":="),
                ));
                d
            },
            SyntaxError::MissingDotInForList { file, span } => {
                let mut d = self.error_at(String::from_str("'=' is not a valid assignment sign"), *span);
                d.with_fix(Fix::replace(
                    String::from_str("replace '=' with ':='"),
                    *file,
                    prefix_span_of(*span, 1),
                    String::from_str(":="),
                ));
                d
            },
            SyntaxError::MissingEqualInForList { file, span } => {
                let mut d = self.error_at(String::from_str("':' is not a valid assignment sign"), *span);
                d.with_fix(Fix::replace(
                    String::from_str("replace ':' with ':='"),
                    *file,
                    prefix_span_of(*span, 1),
                    String::from_str(":="),
                ));
                d
            },
            SyntaxError::FunctionCallInInitExpression(span) => {
                self.error_at(String::from_str("function call in initialization expression is not allowed"), *span)
            },
            SyntaxError::MissingNode { file, span, err, grammar_name } => {
                let mut d = self.error_at(err.clone(), *span);
                d.with_source(String::from_str("IEC"));
                d.with_related_at(cat3("add missing ", grammar_name.as_str(), " here"), *file, *span);
                if grammar_name.as_str().len() == 1 {
                    d.with_fix(Fix::replace(
                        cat3("insert missing '", grammar_name.as_str(), "'"),
                        *file,
                        *span,
                        cat2(" ", grammar_name.as_str()),
                    ));
                }
                d
            },
            SyntaxError::SyntaxError { span, err } => {
                self.error_at(String::from_str(err.as_str()), *span)
            },
        }
    }
    /// Whether the spans the quick fixes of this error address can be addressed.
    pub open spec fn fixes_fit(&self) -> bool {
        match self {
            SyntaxError::MissingDotInAssignment { span, .. } => prefix_fits(*span, 1),
            SyntaxError::MissingEqualInAssignment { span, .. } => prefix_fits(*span, 1),
            SyntaxError::MissingDotInForList { span, .. } => prefix_fits(*span, 1),
            SyntaxError::MissingEqualInForList { span, .. } => prefix_fits(*span, 1),
            _ => true,
        }
    }

}

/// Each kind of `SyntaxError` is reported at the span of what it concerns, with
/// its message and severity, whatever names, spans and texts it holds; a
/// kind whose diagnostic is built directly also carries exactly the
/// related locations, notes, tags, source and quick fixes listed.
pub proof fn law_syntax_error_rendering(this: SyntaxError)
    ensures
        match this {
            SyntaxError::InvalidPouKeyword(span) => {
                let d = this.spec_to_diagnostic();
                &&& d.message == "invalid POU keyword"@
                &&& d.span == span
                &&& d.severity == Some(Severity::Error)
                &&& d.related == Seq::<RelatedView>::empty()
                &&& d.notes == Seq::<Seq<char>>::empty()
                &&& d.tags == Seq::<Tag>::empty()
                &&& d.source == None::<Seq<char>>
                &&& d.fixes == Seq::<FixView>::empty()
            },
            SyntaxError::MultipleExtends(span) => {
                let d = this.spec_to_diagnostic();
                &&& d.message == "multiple extends declarations"@
                &&& d.span == span
                &&& d.severity == Some(Severity::Error)
                &&& d.related == Seq::<RelatedView>::empty()
                &&& d.notes == Seq::<Seq<char>>::empty()
                &&& d.tags == Seq::<Tag>::empty()
                &&& d.source == None::<Seq<char>>
                &&& d.fixes == Seq::<FixView>::empty()
            },
            SyntaxError::MultipleImplements(span) => {
                let d = this.spec_to_diagnostic();
                &&& d.message == "multiple implements declarations"@
                &&& d.span == span
                &&& d.severity == Some(Severity::Error)
                &&& d.related == Seq::<RelatedView>::empty()
                &&& d.notes == Seq::<Seq<char>>::empty()
                &&& d.tags == Seq::<Tag>::empty()
                &&& d.source == None::<Seq<char>>
                &&& d.fixes == Seq::<FixView>::empty()
            },
            SyntaxError::ImplementsBeforeExtends(span) => {
                let d = this.spec_to_diagnostic();
                &&& d.message == "implements must be declared after extends"@
                &&& d.span == span
                &&& d.severity == Some(Severity::Error)
                &&& d.related == Seq::<RelatedView>::empty()
                &&& d.notes == Seq::<Seq<char>>::empty()
                &&& d.tags == Seq::<Tag>::empty()
                &&& d.source == None::<Seq<char>>
                &&& d.fixes == Seq::<FixView>::empty()
            },
            SyntaxError::MissingVarType(span) => {
                let d = this.spec_to_diagnostic();
                &&& d.message == "variable type is missing"@
                &&& d.span == span
                &&& d.severity == Some(Severity::Error)
                &&& d.related == Seq::<RelatedView>::empty()
                &&& d.notes == Seq::<Seq<char>>::empty()
                &&& d.tags == Seq::<Tag>::empty()
                &&& d.source == None::<Seq<char>>
                &&& d.fixes == Seq::<FixView>::empty()
            },
            SyntaxError::UnexpectedVarInit(span) => {
                let d = this.spec_to_diagnostic();
                &&& d.message == "unexpected variable initialization"@
                &&& d.span == span
                &&& d.severity == Some(Severity::Error)
                &&& d.related == Seq::<RelatedView>::empty()
                &&& d.notes == Seq::<Seq<char>>::empty()
                &&& d.tags == Seq::<Tag>::empty()
                &&& d.source == None::<Seq<char>>
                &&& d.fixes == Seq::<FixView>::empty()
            },
            SyntaxError::IncompleteEdgeQualifier(span) => {
                let d = this.spec_to_diagnostic();
                &&& d.message == "incomplete edge qualifier"@
                &&& d.span == span
                &&& d.severity == Some(Severity::Error)
                &&& d.related == Seq::<RelatedView>::empty()
                &&& d.notes == Seq::<Seq<char>>::empty()
                &&& d.tags == Seq::<Tag>::empty()
                &&& d.source == None::<Seq<char>>
                &&& d.fixes == Seq::<FixView>::empty()
            },
            SyntaxError::InvocationInExpression(span) => {
                let d = this.spec_to_diagnostic();
                &&& d.message == "invocation in expression is not allowed"@
                &&& d.span == span
                &&& d.severity == Some(Severity::Error)
                &&& d.related == Seq::<RelatedView>::empty()
                &&& d.notes == Seq::<Seq<char>>::empty()
                &&& d.tags == Seq::<Tag>::empty()
                &&& d.source == None::<Seq<char>>
                &&& d.fixes == Seq::<FixView>::empty()
            },
            SyntaxError::UnexpectedThis(span) => {
                let d = this.spec_to_diagnostic();
                &&& d.message == "'this' is not valid in this context"@
                &&& d.span == span
                &&& d.severity == Some(Severity::Error)
                &&& d.related == Seq::<RelatedView>::empty()
                &&& d.notes == Seq::<Seq<char>>::empty()
                &&& d.tags == Seq::<Tag>::empty()
                &&& d.source == None::<Seq<char>>
                &&& d.fixes == Seq::<FixView>::empty()
            },
            SyntaxError::AssignToFunctionCall(span) => {
                let d = this.spec_to_diagnostic();
                &&& d.message == "assignment to function call is not allowed"@
                &&& d.span == span
                &&& d.severity == Some(Severity::Error)
                &&& d.related == Seq::<RelatedView>::empty()
                &&& d.notes == Seq::<Seq<char>>::empty()
                &&& d.tags == Seq::<Tag>::empty()
                &&& d.source == None::<Seq<char>>
                &&& d.fixes == Seq::<FixView>::empty()
            },
            SyntaxError::EmptyRightHandSide(span) => {
                let d = this.spec_to_diagnostic();
                &&& d.message == "right-hand side of assignment cannot be empty"@
                &&& d.span == span
                &&& d.severity == Some(Severity::Error)
                &&& d.related == Seq::<RelatedView>::empty()
                &&& d.notes == Seq::<Seq<char>>::empty()
                &&& d.tags == Seq::<Tag>::empty()
                &&& d.source == None::<Seq<char>>
                &&& d.fixes == Seq::<FixView>::empty()
            },
            SyntaxError::MissingDotInAssignment { file, span } => {
                let d = this.spec_to_diagnostic();
                &&& d.message == "'=' is not a valid assignment sign"@
                &&& d.span == span
                &&& d.severity == Some(Severity::Error)
                &&& d.related == Seq::<RelatedView>::empty()
                &&& d.notes == Seq::<Seq<char>>::empty()
                &&& d.tags == Seq::<Tag>::empty()
                &&& d.source == None::<Seq<char>>
                &&& d.fixes == seq![FixView { title: "replace '=' with ':='"@, edit: Some(TextEditView { file: file, span: prefix_span(span, 1), new_text: ":="@ }), is_preferred: true, }]
            },
            SyntaxError::MissingEqualInAssignment { file, span } => {
                let d = this.spec_to_diagnostic();
                &&& d.message == "':' is not a valid assignment sign"@
                &&& d.span == span
                &&& d.severity == Some(Severity::Error)
                &&& d.related == Seq::<RelatedView>::empty()
                &&& d.notes == Seq::<Seq<char>>::empty()
                &&& d.tags == Seq::<Tag>::empty()
                &&& d.source == None::<Seq<char>>
                &&& d.fixes == seq![FixView { title: "replace ':' with ':='"@, edit: Some(TextEditView { file: file, span: prefix_span(span, 1), new_text: ":="@ }), is_preferred: true, }]
            },
            SyntaxError::MissingDotInForList { file, span } => {
                let d = this.spec_to_diagnostic();
                &&& d.message == "'=' is not a valid assignment sign"@
                &&& d.span == span
                &&& d.severity == Some(Severity::Error)
                &&& d.related == Seq::<RelatedView>::empty()
                &&& d.notes == Seq::<Seq<char>>::empty()
                &&& d.tags == Seq::<Tag>::empty()
                &&& d.source == None::<Seq<char>>
                &&& d.fixes == seq![FixView { title: "replace '=' with ':='"@, edit: Some(TextEditView { file: file, span: prefix_span(span, 1), new_text: ":="@ }), is_preferred: true, }]
            },
            SyntaxError::MissingEqualInForList { file, span } => {
                let d = this.spec_to_diagnostic();
                &&& d.message == "':' is not a valid assignment sign"@
                &&& d.span == span
                &&& d.severity == Some(Severity::Error)
                &&& d.related == Seq::<RelatedView>::empty()
                &&& d.notes == Seq::<Seq<char>>::empty()
                &&& d.tags == Seq::<Tag>::empty()
                &&& d.source == None::<Seq<char>>
                &&& d.fixes == seq![FixView { title: "replace ':' with ':='"@, edit: Some(TextEditView { file: file, span: prefix_span(span, 1), new_text: ":="@ }), is_preferred: true, }]
            },
            SyntaxError::FunctionCallInInitExpression(span) => {
                let d = this.spec_to_diagnostic();
                &&& d.message == "function call in initialization expression is not allowed"@
                &&& d.span == span
                &&& d.severity == Some(Severity::Error)
                &&& d.related == Seq::<RelatedView>::empty()
                &&& d.notes == Seq::<Seq<char>>::empty()
                &&& d.tags == Seq::<Tag>::empty()
                &&& d.source == None::<Seq<char>>
                &&& d.fixes == Seq::<FixView>::empty()
            },
            SyntaxError::MissingNode { file, span, err, grammar_name } => {
                let d = this.spec_to_diagnostic();
                &&& d.message == err@
                &&& d.span == span
                &&& d.severity == Some(Severity::Error)
            },
            SyntaxError::SyntaxError { span, err } => {
                let d = this.spec_to_diagnostic();
                &&& d.message == err@
                &&& d.span == span
                &&& d.severity == Some(Severity::Error)
                &&& d.related == Seq::<RelatedView>::empty()
                &&& d.notes == Seq::<Seq<char>>::empty()
                &&& d.tags == Seq::<Tag>::empty()
                &&& d.source == None::<Seq<char>>
                &&& d.fixes == Seq::<FixView>::empty()
            },
        },
{
}

} // verus!
