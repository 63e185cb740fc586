//! Spans, diagnostics and the append-only diagnostics sink.

use vstd::prelude::*;

verus! {

/// A range of offsets into the schema source text, used to anchor a
/// diagnostic to the offending syntax.
#[derive(Clone, Copy, PartialEq, Eq, Structural, Debug)]
pub struct Span {
    pub start: usize,
    pub end: usize,
}

/// The mathematical image of one diagnostic: tag and message as character
/// sequences, together with the span.
pub ghost struct DiagView {
    pub attribute_tag: Seq<char>,
    pub message: Seq<char>,
    pub span: Span,
}

/// One validation error. Every diagnostic produced here has error severity;
/// `attribute_tag` names the attribute the error is reported against.
#[derive(Clone, Debug, PartialEq, Eq)]
pub struct Diagnostic {
    pub attribute_tag: String,
    pub message: String,
    pub span: Span,
}

impl View for Diagnostic {
    type V = DiagView;

    open spec fn view(&self) -> DiagView {
        DiagView {
            attribute_tag: self.attribute_tag@,
            message: self.message@,
            span: self.span,
        }
    }
}

impl Diagnostic {
    /// The constructor every rule uses: an attribute validation error with a
    /// message, the attribute it is reported on, and a span.
    pub fn new_attribute_validation_error(message: String, attribute_tag: String, span: Span) -> (r:
        Diagnostic)
        ensures
            r@ == (DiagView { attribute_tag: attribute_tag@, message: message@, span }),
    {
        Diagnostic { attribute_tag, message, span }
    }
}

/// The accumulator the rules push into. It is append-only: no operation
/// removes or rewrites a diagnostic once it is in.
pub struct Diagnostics {
    errors: Vec<Diagnostic>,
}

impl View for Diagnostics {
    type V = Seq<DiagView>;

    closed spec fn view(&self) -> Seq<DiagView> {
        self.errors@.map_values(|d: Diagnostic| d@)
    }
}

impl Diagnostics {
    pub fn new() -> (r: Diagnostics)
        ensures
            r@ == Seq::<DiagView>::empty(),
    {
        let r = Diagnostics { errors: Vec::new() };
        proof {
            assert(r@ =~= Seq::<DiagView>::empty());
        }
        r
    }

    pub fn push_error(&mut self, error: Diagnostic)
        ensures
            final(self)@ == old(self)@.push(error@),
    {
        self.errors.push(error);
        proof {
            assert(self@ =~= old(self)@.push(error@));
        }
    }

    /// The accumulated diagnostics, in the order they were pushed.
    pub fn errors(&self) -> (r: &Vec<Diagnostic>)
        ensures
            r@.map_values(|d: Diagnostic| d@) == self@,
    {
        &self.errors
    }

    pub fn len(&self) -> (r: usize)
        ensures
            r == self@.len(),
    {
        self.errors.len()
    }

    pub fn is_empty(&self) -> (r: bool)
        ensures
            r == (self@.len() == 0),
    {
        self.errors.len() == 0
    }
}

} // verus!
