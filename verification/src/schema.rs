//! The read-only view over one index-like declaration: its kind, its fields
//! with their optional modifiers, its resolved name, and the spans a
//! diagnostic can be anchored to.

use vstd::prelude::*;

use crate::diagnostics::Span;

verus! {

/// Which flavor of declaration is being validated.
#[derive(Clone, Copy, PartialEq, Eq, Structural, Debug)]
pub enum IndexKind {
    Plain,
    Unique,
    FullText,
}

/// The per-field sort-order modifier.
#[derive(Clone, Copy, PartialEq, Eq, Structural, Debug)]
pub enum SortOrder {
    Asc,
    Desc,
}

/// The optional index algorithm selected with the `type` argument.
#[derive(Clone, Copy, PartialEq, Eq, Structural, Debug)]
pub enum IndexAlgorithm {
    BTree,
    Hash,
}

/// One field reference inside a declaration, together with its optional
/// length-prefix and sort-order modifiers.
#[derive(Clone, Copy, Debug)]
pub struct FieldAttribute {
    pub field_id: u32,
    pub length: Option<u32>,
    pub sort_order: Option<SortOrder>,
}

pub open spec fn field_has_length(f: FieldAttribute) -> bool {
    f.length is Some
}

pub open spec fn field_is_sorted(f: FieldAttribute) -> bool {
    f.sort_order is Some
}

pub open spec fn has_length_field(fields: Seq<FieldAttribute>) -> bool {
    exists|i: int| 0 <= i < fields.len() && field_has_length(#[trigger] fields[i])
}

pub open spec fn has_sorted_field(fields: Seq<FieldAttribute>) -> bool {
    exists|i: int| 0 <= i < fields.len() && field_is_sorted(#[trigger] fields[i])
}

pub open spec fn has_length_or_sort_field(fields: Seq<FieldAttribute>) -> bool {
    exists|i: int|
        0 <= i < fields.len() && (field_has_length(#[trigger] fields[i]) || field_is_sorted(
            fields[i],
        ))
}

/// Does any field of the list carry a length-prefix modifier?
pub fn any_field_has_length(fields: &Vec<FieldAttribute>) -> (r: bool)
    ensures
        r == has_length_field(fields@),
{
    let mut i: usize = 0;
    while i < fields.len()
        invariant
            i <= fields.len(),
            forall|k: int| 0 <= k < i ==> !field_has_length(#[trigger] fields@[k]),
        decreases fields.len() - i,
    {
        if fields[i].length.is_some() {
            return true;
        }
        i += 1;
    }
    false
}

/// Does any field of the list carry a sort-order modifier?
pub fn any_field_has_sort_order(fields: &Vec<FieldAttribute>) -> (r: bool)
    ensures
        r == has_sorted_field(fields@),
{
    let mut i: usize = 0;
    while i < fields.len()
        invariant
            i <= fields.len(),
            forall|k: int| 0 <= k < i ==> !field_is_sorted(#[trigger] fields@[k]),
        decreases fields.len() - i,
    {
        if fields[i].sort_order.is_some() {
            return true;
        }
        i += 1;
    }
    false
}

/// Does any field of the list carry a length-prefix or a sort-order modifier?
pub fn any_field_has_length_or_sort(fields: &Vec<FieldAttribute>) -> (r: bool)
    ensures
        r == has_length_or_sort_field(fields@),
{
    let mut i: usize = 0;
    while i < fields.len()
        invariant
            i <= fields.len(),
            forall|k: int|
                0 <= k < i ==> !(field_has_length(#[trigger] fields@[k]) || field_is_sorted(
                    fields@[k],
                )),
        decreases fields.len() - i,
    {
        if fields[i].length.is_some() || fields[i].sort_order.is_some() {
            return true;
        }
        i += 1;
    }
    false
}

/// One parsed index / unique / full-text declaration, as resolved by the
/// schema database upstream of validation. The span fields reproduce what the
/// surrounding syntax tree can answer: the span of the whole attribute when
/// the declaration was written as an attribute, the spans of its `map`,
/// `name` and `type` arguments when those were written out, and the span of
/// the owning structural container as the last resort.
pub struct IndexDecl {
    pub scope_id: u32,
    pub kind: IndexKind,
    pub final_name: String,
    pub explicit_name: Option<String>,
    pub algorithm: Option<IndexAlgorithm>,
    pub fields: Vec<FieldAttribute>,
    pub attribute_span: Option<Span>,
    pub mapped_name_span: Option<Span>,
    pub name_arg_span: Option<Span>,
    pub algorithm_arg_span: Option<Span>,
    pub container_span: Span,
}

impl IndexDecl {
    /// The attribute a diagnostic on this declaration is reported against.
    pub open spec fn spec_attribute_name(self) -> Seq<char> {
        match self.kind {
            IndexKind::Plain => "index"@,
            IndexKind::Unique => "unique"@,
            IndexKind::FullText => "fulltext"@,
        }
    }

    pub fn attribute_name(&self) -> (r: String)
        ensures
            r@ == self.spec_attribute_name(),
    {
        match self.kind {
            IndexKind::Plain => "index".to_owned(),
            IndexKind::Unique => "unique".to_owned(),
            IndexKind::FullText => "fulltext".to_owned(),
        }
    }

    pub open spec fn spec_is_fulltext(self) -> bool {
        self.kind is FullText
    }

    pub fn is_fulltext(&self) -> (r: bool)
        ensures
            r == self.spec_is_fulltext(),
    {
        self.kind == IndexKind::FullText
    }

    /// The attribute's own span, falling back to the owning container's span.
    pub open spec fn spec_attribute_or_container_span(self) -> Span {
        match self.attribute_span {
            Some(s) => s,
            None => self.container_span,
        }
    }

    pub fn attribute_or_container_span(&self) -> (r: Span)
        ensures
            r == self.spec_attribute_or_container_span(),
    {
        match self.attribute_span {
            Some(s) => s,
            None => self.container_span,
        }
    }

    /// The most specific span for a diagnostic about the `type` argument:
    /// the argument's own span, then the whole attribute's span, then the
    /// owning container's span.
    pub open spec fn spec_algorithm_argument_span(self) -> Span {
        match self.attribute_span {
            Some(a) => match self.algorithm_arg_span {
                Some(s) => s,
                None => a,
            },
            None => self.container_span,
        }
    }

    pub fn algorithm_argument_span(&self) -> (r: Span)
        ensures
            r == self.spec_algorithm_argument_span(),
    {
        match self.attribute_span {
            Some(a) => match self.algorithm_arg_span {
                Some(s) => s,
                None => a,
            },
            None => self.container_span,
        }
    }

    /// The most specific span a naming diagnostic can point at: the `map`
    /// argument, then the `name` argument, then the whole attribute, and the
    /// owning container when the declaration has no attribute syntax at all.
    pub open spec fn spec_name_argument_span(self) -> Span {
        match self.attribute_span {
            Some(a) => match self.mapped_name_span {
                Some(s) => s,
                None => match self.name_arg_span {
                    Some(s) => s,
                    None => a,
                },
            },
            None => self.container_span,
        }
    }

    pub fn name_argument_span(&self) -> (r: Span)
        ensures
            r == self.spec_name_argument_span(),
    {
        match self.attribute_span {
            Some(a) => match self.mapped_name_span {
                Some(s) => s,
                None => match self.name_arg_span {
                    Some(s) => s,
                    None => a,
                },
            },
            None => self.container_span,
        }
    }
}

} // verus!
