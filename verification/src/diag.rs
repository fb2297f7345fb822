//! The IDE diagnostic that an error renders to, with its mathematical view.
use vstd::prelude::*;
use vstd::string::*;

verus! {

/// A position in a source file: zero-based row and column.
#[derive(Clone, Copy, Debug, PartialEq, Eq, Structural)]
pub struct Point {
    pub row: usize,
    pub column: usize,
}

/// A source span: byte offsets and the points they fall on.
#[derive(Clone, Copy, Debug, PartialEq, Eq, Structural)]
pub struct Span {
    pub start_byte: usize,
    pub end_byte: usize,
    pub start_point: Point,
    pub end_point: Point,
}

/// A source file of the workspace.
#[derive(Clone, Copy, Debug, PartialEq, Eq, Structural)]
pub struct FileId {
    pub id: u64,
}

/// How severe a diagnostic is.
#[derive(Clone, Copy, Debug, PartialEq, Eq, Structural)]
pub enum Severity {
    Error,
    Warning,
    Information,
    Hint,
}

/// A tag an editor renders a diagnostic with.
#[derive(Clone, Copy, Debug, PartialEq, Eq, Structural)]
pub enum Tag {
    Unnecessary,
    Deprecated,
}

/// A place elsewhere that explains the diagnostic.
#[derive(Clone, Debug)]
pub struct Related {
    pub message: String,
    pub file: FileId,
    pub span: Span,
}

/// The mathematical value of a [`Related`].
pub struct RelatedView {
    pub message: Seq<char>,
    pub file: FileId,
    pub span: Span,
}

impl View for Related {
    type V = RelatedView;

    open spec fn view(&self) -> RelatedView {
        RelatedView { message: self.message@, file: self.file, span: self.span }
    }
}

impl Related {
    /// A related location with its message.
    pub fn new(message: String, file: FileId, span: Span) -> (r: Related)
        ensures
            r@ == (RelatedView { message: message@, file, span }),
    {
        Related { message, file, span }
    }

    /// A copy of this location.
    pub fn copy(&self) -> (r: Related)
        ensures
            r@ == self@,
    {
        Related { message: self.message.clone(), file: self.file, span: self.span }
    }
}

/// A text replacement a quick fix applies.
#[derive(Clone, Debug)]
pub struct TextEdit {
    pub file: FileId,
    pub span: Span,
    pub new_text: String,
}

/// The mathematical value of a [`TextEdit`].
pub struct TextEditView {
    pub file: FileId,
    pub span: Span,
    pub new_text: Seq<char>,
}

/// A quick fix: its title and, when it changes text, the edit.
#[derive(Clone, Debug)]
pub struct Fix {
    pub title: String,
    pub edit: Option<TextEdit>,
    pub is_preferred: bool,
}

/// The mathematical value of a [`Fix`].
pub struct FixView {
    pub title: Seq<char>,
    pub edit: Option<TextEditView>,
    pub is_preferred: bool,
}

impl View for TextEdit {
    type V = TextEditView;

    open spec fn view(&self) -> TextEditView {
        TextEditView { file: self.file, span: self.span, new_text: self.new_text@ }
    }
}

impl View for Fix {
    type V = FixView;

    open spec fn view(&self) -> FixView {
        FixView {
            title: self.title@,
            edit: match self.edit {
                Some(e) => Some(e@),
                None => None,
            },
            is_preferred: self.is_preferred,
        }
    }
}

impl Fix {
    /// A preferred quick fix that replaces `span` of `file` by `new_text`.
    pub fn replace(title: String, file: FileId, span: Span, new_text: String) -> (f: Fix)
        ensures
            f@ == (FixView {
                title: title@,
                edit: Some(TextEditView { file, span, new_text: new_text@ }),
                is_preferred: true,
            }),
    {
        Fix { title, edit: Some(TextEdit { file, span, new_text }), is_preferred: true }
    }
}

/// A diagnostic as an editor shows it.
#[derive(Clone, Debug)]
pub struct Diagnostic {
    pub message: String,
    pub severity: Option<Severity>,
    /// The stable code of the error, when the error has one.
    pub code: Option<String>,
    /// The short description of the error's kind, when the error has one.
    pub description: Option<String>,
    /// The primary span, in the file the error was found in.
    pub span: Span,
    pub source: Option<String>,
    pub tags: Vec<Tag>,
    pub notes: Vec<String>,
    pub related: Vec<Related>,
    pub fixes: Vec<Fix>,
}

/// The mathematical value of a [`Diagnostic`].
pub struct DiagnosticView {
    pub message: Seq<char>,
    pub severity: Option<Severity>,
    pub code: Option<Seq<char>>,
    pub description: Option<Seq<char>>,
    pub span: Span,
    pub source: Option<Seq<char>>,
    pub tags: Seq<Tag>,
    pub notes: Seq<Seq<char>>,
    pub related: Seq<RelatedView>,
    pub fixes: Seq<FixView>,
}

impl View for Diagnostic {
    type V = DiagnosticView;

    open spec fn view(&self) -> DiagnosticView {
        DiagnosticView {
            message: self.message@,
            severity: self.severity,
            code: match self.code {
                Some(c) => Some(c@),
                None => None,
            },
            description: match self.description {
                Some(c) => Some(c@),
                None => None,
            },
            span: self.span,
            source: match self.source {
                Some(s) => Some(s@),
                None => None,
            },
            tags: self.tags@,
            notes: self.notes@.map_values(|n: String| n@),
            related: self.related@.map_values(|r: Related| r@),
            fixes: self.fixes@.map_values(|f: Fix| f@),
        }
    }
}

impl DiagnosticView {
    /// A diagnostic with no code, description, notes, related locations,
    /// tags or fixes.
    pub open spec fn plain(message: Seq<char>, severity: Option<Severity>, span: Span) -> DiagnosticView {
        DiagnosticView {
            message,
            severity,
            code: None,
            description: None,
            span,
            source: None,
            tags: seq![],
            notes: seq![],
            related: seq![],
            fixes: seq![],
        }
    }

    /// A diagnostic with no notes, related locations, tags or fixes.
    pub open spec fn base(
        message: Seq<char>,
        severity: Option<Severity>,
        code: Seq<char>,
        description: Seq<char>,
        span: Span,
    ) -> DiagnosticView {
        DiagnosticView {
            message,
            severity,
            code: Some(code),
            description: Some(description),
            span,
            source: None,
            tags: seq![],
            notes: seq![],
            related: seq![],
            fixes: seq![],
        }
    }

    /// An error-severity diagnostic with no notes, related locations, tags or fixes.
    pub open spec fn error(message: Seq<char>, code: Seq<char>, description: Seq<char>, span: Span) -> DiagnosticView {
        Self::base(message, Some(Severity::Error), code, description, span)
    }

    /// This diagnostic with `note` appended to its notes.
    pub open spec fn note(self, note: Seq<char>) -> DiagnosticView {
        DiagnosticView { notes: self.notes.push(note), ..self }
    }

    /// This diagnostic with a related location appended.
    pub open spec fn rel(self, message: Seq<char>, file: FileId, span: Span) -> DiagnosticView {
        DiagnosticView { related: self.related.push(RelatedView { message, file, span }), ..self }
    }

    /// This diagnostic with an already built related location appended.
    pub open spec fn rel_view(self, r: RelatedView) -> DiagnosticView {
        DiagnosticView { related: self.related.push(r), ..self }
    }

    /// This diagnostic with related locations appended, in order.
    pub open spec fn rels(self, rs: Seq<RelatedView>) -> DiagnosticView {
        DiagnosticView { related: self.related + rs, ..self }
    }

    /// This diagnostic with notes appended, in order.
    pub open spec fn notes_all(self, ns: Seq<Seq<char>>) -> DiagnosticView {
        DiagnosticView { notes: self.notes + ns, ..self }
    }

    /// This diagnostic with a quick fix appended.
    pub open spec fn fix(self, f: FixView) -> DiagnosticView {
        DiagnosticView { fixes: self.fixes.push(f), ..self }
    }

    /// This diagnostic with its tags replaced.
    pub open spec fn tagged(self, tags: Seq<Tag>) -> DiagnosticView {
        DiagnosticView { tags, ..self }
    }

    /// This diagnostic with its source set.
    pub open spec fn sourced(self, source: Seq<char>) -> DiagnosticView {
        DiagnosticView { source: Some(source), ..self }
    }
}

impl Diagnostic {
    /// A diagnostic with its message, severity, code, description and span,
    /// and nothing else.
    pub fn new(message: String, severity: Option<Severity>, code: &str, description: &str, span: Span) -> (d: Diagnostic)
        ensures
            d@ == DiagnosticView::base(message@, severity, code@, description@, span),
    {
        let d = Diagnostic {
            message,
            severity,
            code: Some(String::from_str(code)),
            description: Some(String::from_str(description)),
            span,
            source: None,
            tags: Vec::new(),
            notes: Vec::new(),
            related: Vec::new(),
            fixes: Vec::new(),
        };
        assert(d@.notes =~= Seq::<Seq<char>>::empty());
        assert(d@.related =~= Seq::<RelatedView>::empty());
        assert(d@.fixes =~= Seq::<FixView>::empty());
        assert(d@.tags =~= Seq::<Tag>::empty());
        d
    }

    /// A diagnostic with its message, severity and span, and nothing else.
    pub fn plain(message: String, severity: Option<Severity>, span: Span) -> (d: Diagnostic)
        ensures
            d@ == DiagnosticView::plain(message@, severity, span),
    {
        let d = Diagnostic {
            message,
            severity,
            code: None,
            description: None,
            span,
            source: None,
            tags: Vec::new(),
            notes: Vec::new(),
            related: Vec::new(),
            fixes: Vec::new(),
        };
        assert(d@.notes =~= Seq::<Seq<char>>::empty());
        assert(d@.related =~= Seq::<RelatedView>::empty());
        assert(d@.fixes =~= Seq::<FixView>::empty());
        assert(d@.tags =~= Seq::<Tag>::empty());
        d
    }

    /// An error-severity diagnostic with its message, code, description and span.
    pub fn error(message: String, code: &str, description: &str, span: Span) -> (d: Diagnostic)
        ensures
            d@ == DiagnosticView::error(message@, code@, description@, span),
    {
        Self::new(message, Some(Severity::Error), code, description, span)
    }

    /// Appends a note.
    pub fn with_note(&mut self, note: String)
        ensures
            final(self)@ == old(self)@.note(note@),
    {
        let ghost before = self.notes@;
        self.notes.push(note);
        assert(self.notes@.map_values(|n: String| n@) =~= before.map_values(|n: String| n@).push(note@));
    }

    /// Appends a related location.
    pub fn with_related(&mut self, r: Related)
        ensures
            final(self)@ == old(self)@.rel_view(r@),
    {
        let ghost before = self.related@;
        self.related.push(r);
        assert(self.related@.map_values(|x: Related| x@) =~= before.map_values(|x: Related| x@).push(r@));
    }

    /// Appends related locations, in order.
    pub fn with_related_all(&mut self, rs: Vec<Related>)
        ensures
            final(self)@ == old(self)@.rels(rs@.map_values(|r: Related| r@)),
    {
        let ghost before = self@;
        let mut i: usize = 0;
        while i < rs.len()
            invariant
                i <= rs.len(),
                self@ == before.rels(rs@.take(i as int).map_values(|r: Related| r@)),
            decreases rs.len() - i,
        {
            self.with_related(rs[i].copy());
            assert(rs@.take(i + 1).map_values(|r: Related| r@) =~= rs@.take(i as int).map_values(|r: Related| r@).push(
                rs@[i as int]@,
            ));
            i = i + 1;
        }
        assert(rs@.take(i as int) =~= rs@);
    }

    /// Appends notes, in order.
    pub fn with_notes(&mut self, ns: Vec<String>)
        ensures
            final(self)@ == old(self)@.notes_all(ns@.map_values(|n: String| n@)),
    {
        let ghost before = self@;
        let mut i: usize = 0;
        while i < ns.len()
            invariant
                i <= ns.len(),
                self@ == before.notes_all(ns@.take(i as int).map_values(|n: String| n@)),
            decreases ns.len() - i,
        {
            self.with_note(ns[i].clone());
            assert(ns@.take(i + 1).map_values(|n: String| n@) =~= ns@.take(i as int).map_values(|n: String| n@).push(
                ns@[i as int]@,
            ));
            i = i + 1;
        }
        assert(ns@.take(i as int) =~= ns@);
    }

    /// Appends a related location built from its parts.
    pub fn with_related_at(&mut self, message: String, file: FileId, span: Span)
        ensures
            final(self)@ == old(self)@.rel(message@, file, span),
    {
        self.with_related(Related::new(message, file, span));
    }

    /// Appends a quick fix.
    pub fn with_fix(&mut self, f: Fix)
        ensures
            final(self)@ == old(self)@.fix(f@),
    {
        let ghost before = self.fixes@;
        self.fixes.push(f);
        assert(self.fixes@.map_values(|x: Fix| x@) =~= before.map_values(|x: Fix| x@).push(f@));
    }

    /// Replaces the tags.
    pub fn with_tags(&mut self, tags: Vec<Tag>)
        ensures
            final(self)@ == old(self)@.tagged(tags@),
    {
        self.tags = tags;
    }

    /// Sets the source the diagnostic is reported by.
    pub fn with_source(&mut self, source: String)
        ensures
            final(self)@ == old(self)@.sourced(source@),
    {
        self.source = Some(source);
    }
}

} // verus!
