//! Diagnostics: what a phase reports, collected in order and rendered
//! against the context of the compile call.

use vstd::prelude::*;
use vstd::string::*;
use crate::context::{Context, SrcId};
use crate::text::{decimal, decimal_string};

verus! {

/// A place in a source: line and column count from one.
#[derive(Clone, Copy, Debug, PartialEq, Eq, Structural)]
pub struct Span {
    pub src: SrcId,
    pub line: usize,
    pub col: usize,
}

/// One error that a phase reports.
#[derive(Debug, PartialEq, Eq)]
pub struct Diagnostic {
    pub span: Span,
    pub message: String,
}

/// The errors of one compile call, in the order in which they were
/// reported. Errors are only ever added.
#[derive(Debug, PartialEq, Eq)]
pub struct ErrorBuf {
    errors: Vec<Diagnostic>,
}

impl View for ErrorBuf {
    type V = Seq<Diagnostic>;

    closed spec fn view(&self) -> Seq<Diagnostic> {
        self.errors@
    }
}

/// One diagnostic as a line of a report: origin, line and column, then the
/// message.
pub open spec fn rendered_diagnostic(d: Diagnostic, ctx: Context) -> Seq<char> {
    ctx.origin_of(d.span.src) + seq![':'] + decimal(d.span.line as nat) + seq![':'] + decimal(
        d.span.col as nat,
    ) + seq![':', ' ', 'e', 'r', 'r', 'o', 'r', ':', ' '] + d.message@ + seq!['\n']
}

/// A report: the lines of the diagnostics, in their order.
pub open spec fn rendered_report(errors: Seq<Diagnostic>, ctx: Context) -> Seq<char>
    decreases errors.len(),
{
    if errors.len() == 0 {
        Seq::empty()
    } else {
        rendered_report(errors.drop_last(), ctx) + rendered_diagnostic(errors.last(), ctx)
    }
}

impl Diagnostic {
    /// A diagnostic at `span`.
    pub fn new(span: Span, message: &str) -> (r: Self)
        ensures
            r.span == span,
            r.message@ == message@,
    {
        Diagnostic { span, message: String::from_str(message) }
    }

    /// Renders the diagnostic as one line of a report.
    pub fn fmt_with(&self, ctx: &Context) -> (r: String)
        ensures
            r@ == rendered_diagnostic(*self, *ctx),
    {
        proof {
            reveal_strlit(":");
            reveal_strlit(": error: ");
            reveal_strlit("\n");
        }
        let mut out = String::from_str(ctx.origin(self.span.src));
        out.append(":");
        let line = decimal_string(self.span.line);
        out.append(line.as_str());
        out.append(":");
        let col = decimal_string(self.span.col);
        out.append(col.as_str());
        out.append(": error: ");
        out.append(self.message.as_str());
        out.append("\n");
        out
    }
}

impl ErrorBuf {
    /// A buffer without errors.
    pub fn new() -> (r: Self)
        ensures
            r@ == Seq::<Diagnostic>::empty(),
    {
        ErrorBuf { errors: Vec::new() }
    }

    /// Adds an error after those already held.
    pub fn push(&mut self, err: Diagnostic)
        ensures
            final(self)@ == old(self)@.push(err),
    {
        self.errors.push(err);
    }

    /// Adds the errors of `other`, in their order, after those already held.
    pub fn append(&mut self, other: ErrorBuf)
        ensures
            final(self)@ == old(self)@ + other@,
    {
        let mut other = other;
        self.errors.append(&mut other.errors);
    }

    /// The number of errors held.
    pub fn len(&self) -> (r: usize)
        ensures
            r == self@.len(),
    {
        self.errors.len()
    }

    /// Whether no error is held.
    pub fn is_empty(&self) -> (r: bool)
        ensures
            r == (self@.len() == 0),
    {
        self.errors.len() == 0
    }

    /// The error at position `i`.
    pub fn get(&self, i: usize) -> (r: &Diagnostic)
        requires
            i < self@.len(),
        ensures
            *r == self@[i as int],
    {
        &self.errors[i]
    }

    /// Renders every error held, in order, against the context.
    pub fn fmt_with(&self, ctx: &Context) -> (r: String)
        ensures
            r@ == rendered_report(self@, *ctx),
    {
        let mut out = String::new();
        let mut i: usize = 0;
        while i < self.errors.len()
            invariant
                i <= self.errors@.len(),
                out@ == rendered_report(self.errors@.take(i as int), *ctx),
            decreases self.errors@.len() - i,
        {
            let line = self.errors[i].fmt_with(ctx);
            out.append(line.as_str());
            assert(self.errors@.take(i + 1).drop_last() =~= self.errors@.take(i as int));
            i = i + 1;
        }
        assert(self.errors@.take(i as int) =~= self.errors@);
        out
    }
}

} // verus!
