//! The rule set: ten independent, stateless validations, each reading the
//! connector's capabilities, the enabled preview features, the namespace
//! resolver and one declaration, and appending zero or more diagnostics.
//! Each rule's contract pins the appended diagnostics down exactly, as a
//! function of the immutable inputs alone.

use vstd::prelude::*;
use vstd::string::StringExecFns;

use crate::bundling::{scan_splits_text_bundle, splits_text_bundle};
use crate::context::{
    ConnectorCapabilities, ConnectorCapability, NamespaceScopes, PreviewFeature, PreviewFeatures,
    ScopeEntry,
};
use crate::diagnostics::{DiagView, Diagnostic, Diagnostics, Span};
use crate::schema::{
    any_field_has_length, any_field_has_length_or_sort, any_field_has_sort_order,
    has_length_field, has_length_or_sort_field, has_sorted_field, IndexAlgorithm, IndexDecl,
};

verus! {

/// Everything a rule consults besides the declaration itself. Immutable for
/// the whole validation pass.
pub struct ValidationContext {
    pub connector: ConnectorCapabilities,
    pub preview_features: PreviewFeatures,
    pub namespace: NamespaceScopes,
}

/// A single-diagnostic list, the shape every rule but the naming rule emits.
pub open spec fn one_diag(tag: Seq<char>, message: Seq<char>, span: Span) -> Seq<DiagView> {
    seq![DiagView { attribute_tag: tag, message, span }]
}

// ---------------------------------------------------------------------------
// Unique constraint name
// ---------------------------------------------------------------------------
pub open spec fn spec_unique_name_message(name: Seq<char>, description: Seq<char>) -> Seq<char> {
    "The given constraint name `"@ + name + "` has to be unique in the following namespace: "@
        + description + ". Please provide a different name using the `map` argument."@
}

fn unique_name_message(name: &String, description: &String) -> (r: String)
    ensures
        r@ == spec_unique_name_message(name@, description@),
{
    let mut m = "The given constraint name `".to_owned();
    m.append(name.as_str());
    m.append("` has to be unique in the following namespace: ");
    m.append(description.as_str());
    m.append(". Please provide a different name using the `map` argument.");
    m
}

pub open spec fn unique_name_diag(decl: IndexDecl, entry: ScopeEntry) -> DiagView {
    DiagView {
        attribute_tag: decl.spec_attribute_name(),
        message: spec_unique_name_message(decl.final_name@, entry.description@),
        span: decl.spec_name_argument_span(),
    }
}

pub open spec fn unique_name_diags_of(decl: IndexDecl, violations: Seq<ScopeEntry>) -> Seq<
    DiagView,
> {
    violations.map_values(|e: ScopeEntry| unique_name_diag(decl, e))
}

pub open spec fn unique_name_diags(namespace: NamespaceScopes, decl: IndexDecl) -> Seq<DiagView> {
    unique_name_diags_of(decl, namespace.spec_violations(decl.scope_id, decl.final_name@))
}

/// Constraint names must be unique inside their namespace scope: one
/// diagnostic per colliding entry the namespace resolver reports.
pub fn has_a_unique_constraint_name(
    ctx: &ValidationContext,
    index: &IndexDecl,
    diagnostics: &mut Diagnostics,
)
    ensures
        final (diagnostics)@ == old(diagnostics)@ + unique_name_diags(ctx.namespace, *index),
{
    let violations = ctx.namespace.scope_violations(index.scope_id, &index.final_name);
    let mut i: usize = 0;
    proof {
        assert(diagnostics@ =~= old(diagnostics)@ + unique_name_diags_of(
            *index,
            violations@.take(0),
        ));
    }
    while i < violations.len()
        invariant
            i <= violations.len(),
            violations@ == ctx.namespace.spec_violations(index.scope_id, index.final_name@),
            diagnostics@ == old(diagnostics)@ + unique_name_diags_of(
                *index,
                violations@.take(i as int),
            ),
        decreases violations.len() - i,
    {
        let violation = &violations[i];
        let message = unique_name_message(&index.final_name, &violation.description);
        let tag = index.attribute_name();
        let span = index.name_argument_span();
        diagnostics.push_error(Diagnostic::new_attribute_validation_error(message, tag, span));
        proof {
            assert(violations@.take(i + 1) =~= violations@.take(i as int).push(
                violations@[i as int],
            ));
            assert(diagnostics@ =~= old(diagnostics)@ + unique_name_diags_of(
                *index,
                violations@.take(i + 1),
            ));
        }
        i += 1;
    }
    proof {
        assert(violations@.take(violations@.len() as int) =~= violations@);
    }
}

// ---------------------------------------------------------------------------
// Extended-field-params gate: sort and length need the preview feature
// ---------------------------------------------------------------------------
pub open spec fn msg_length_sort_preview() -> Seq<char> {
    "You must enable `extendedIndexes` preview feature to use sort or length parameters."@
}

pub open spec fn length_sort_preview_diags(features: PreviewFeatures, decl: IndexDecl) -> Seq<
    DiagView,
> {
    if !features.spec_contains(PreviewFeature::ExtendedIndexes) && has_length_or_sort_field(
        decl.fields@,
    ) {
        one_diag(
            decl.spec_attribute_name(),
            msg_length_sort_preview(),
            decl.spec_attribute_or_container_span(),
        )
    } else {
        Seq::empty()
    }
}

/// A length or sort modifier on any field needs the `extendedIndexes`
/// preview feature, whatever the connector supports.
pub fn uses_length_or_sort_without_preview_flag(
    ctx: &ValidationContext,
    index: &IndexDecl,
    diagnostics: &mut Diagnostics,
)
    ensures
        final (diagnostics)@ == old(diagnostics)@ + length_sort_preview_diags(
            ctx.preview_features,
            *index,
        ),
{
    if ctx.preview_features.contains(PreviewFeature::ExtendedIndexes) {
        proof {
            assert(diagnostics@ =~= old(diagnostics)@ + length_sort_preview_diags(
                ctx.preview_features,
                *index,
            ));
        }
        return ;
    }
    if any_field_has_length_or_sort(&index.fields) {
        let message = "You must enable `extendedIndexes` preview feature to use sort or length parameters.".to_owned();
        let tag = index.attribute_name();
        let span = index.attribute_or_container_span();
        diagnostics.push_error(Diagnostic::new_attribute_validation_error(message, tag, span));
        proof {
            assert(diagnostics@ =~= old(diagnostics)@ + length_sort_preview_diags(
                ctx.preview_features,
                *index,
            ));
        }
    } else {
        proof {
            assert(diagnostics@ =~= old(diagnostics)@ + length_sort_preview_diags(
                ctx.preview_features,
                *index,
            ));
        }
    }
}

// ---------------------------------------------------------------------------
// Length-prefix connector support
// ---------------------------------------------------------------------------
pub open spec fn msg_length_prefix_unsupported() -> Seq<char> {
    "The length argument is not supported in an index definition with the current connector"@
}

pub open spec fn length_prefix_diags(connector: ConnectorCapabilities, decl: IndexDecl) -> Seq<
    DiagView,
> {
    if !connector.spec_has_capability(ConnectorCapability::IndexColumnLengthPrefixing)
        && has_length_field(decl.fields@) {
        one_diag(
            decl.spec_attribute_name(),
            msg_length_prefix_unsupported(),
            decl.spec_attribute_or_container_span(),
        )
    } else {
        Seq::empty()
    }
}

/// A length prefix on a field is only legal when the connector supports
/// length-prefixed index columns.
pub fn field_length_prefix_supported(
    ctx: &ValidationContext,
    index: &IndexDecl,
    diagnostics: &mut Diagnostics,
)
    ensures
        final (diagnostics)@ == old(diagnostics)@ + length_prefix_diags(ctx.connector, *index),
{
    if ctx.connector.has_capability(ConnectorCapability::IndexColumnLengthPrefixing) {
        proof {
            assert(diagnostics@ =~= old(diagnostics)@ + length_prefix_diags(
                ctx.connector,
                *index,
            ));
        }
        return ;
    }
    if any_field_has_length(&index.fields) {
        let message = "The length argument is not supported in an index definition with the current connector".to_owned();
        let tag = index.attribute_name();
        let span = index.attribute_or_container_span();
        diagnostics.push_error(Diagnostic::new_attribute_validation_error(message, tag, span));
        proof {
            assert(diagnostics@ =~= old(diagnostics)@ + length_prefix_diags(
                ctx.connector,
                *index,
            ));
        }
    } else {
        proof {
            assert(diagnostics@ =~= old(diagnostics)@ + length_prefix_diags(
                ctx.connector,
                *index,
            ));
        }
    }
}

// ---------------------------------------------------------------------------
// Hash algorithm connector support
// ---------------------------------------------------------------------------
pub open spec fn msg_hash_algorithm_unsupported() -> Seq<char> {
    "The given type argument is not supported with the current connector"@
}

pub open spec fn algorithm_support_diags(connector: ConnectorCapabilities, decl: IndexDecl) -> Seq<
    DiagView,
> {
    if !connector.spec_has_capability(ConnectorCapability::UsingHashIndex) && decl.algorithm
        == Some(IndexAlgorithm::Hash) {
        one_diag("index"@, msg_hash_algorithm_unsupported(), decl.spec_algorithm_argument_span())
    } else {
        Seq::empty()
    }
}

/// Selecting the hash algorithm needs a connector that supports hash
/// indexes, whatever the preview features say.
pub fn index_algorithm_is_supported(
    ctx: &ValidationContext,
    index: &IndexDecl,
    diagnostics: &mut Diagnostics,
)
    ensures
        final (diagnostics)@ == old(diagnostics)@ + algorithm_support_diags(ctx.connector, *index),
{
    if ctx.connector.has_capability(ConnectorCapability::UsingHashIndex) {
        proof {
            assert(diagnostics@ =~= old(diagnostics)@ + algorithm_support_diags(
                ctx.connector,
                *index,
            ));
        }
        return ;
    }
    match index.algorithm {
        Some(IndexAlgorithm::Hash) => {
            let message = "The given type argument is not supported with the current connector".to_owned();
            let tag = "index".to_owned();
            let span = index.algorithm_argument_span();
            diagnostics.push_error(Diagnostic::new_attribute_validation_error(message, tag, span));
            proof {
                assert(diagnostics@ =~= old(diagnostics)@ + algorithm_support_diags(
                    ctx.connector,
                    *index,
                ));
            }
        },
        _ => {
            proof {
                assert(diagnostics@ =~= old(diagnostics)@ + algorithm_support_diags(
                    ctx.connector,
                    *index,
                ));
            }
        },
    }
}

// ---------------------------------------------------------------------------
// Full-text feature gate
// ---------------------------------------------------------------------------
pub open spec fn msg_fulltext_preview() -> Seq<char> {
    "You must enable `fullTextIndex` preview feature to be able to define a @@fulltext index."@
}

pub open spec fn fulltext_preview_diags(features: PreviewFeatures, decl: IndexDecl) -> Seq<
    DiagView,
> {
    if !features.spec_contains(PreviewFeature::FullTextIndex) && decl.spec_is_fulltext() {
        one_diag("fulltext"@, msg_fulltext_preview(), decl.spec_attribute_or_container_span())
    } else {
        Seq::empty()
    }
}

/// A full-text declaration needs the `fullTextIndex` preview feature.
pub fn fulltext_index_preview_feature_enabled(
    ctx: &ValidationContext,
    index: &IndexDecl,
    diagnostics: &mut Diagnostics,
)
    ensures
        final (diagnostics)@ == old(diagnostics)@ + fulltext_preview_diags(
            ctx.preview_features,
            *index,
        ),
{
    if ctx.preview_features.contains(PreviewFeature::FullTextIndex) {
        proof {
            assert(diagnostics@ =~= old(diagnostics)@ + fulltext_preview_diags(
                ctx.preview_features,
                *index,
            ));
        }
        return ;
    }
    if index.is_fulltext() {
        let message = "You must enable `fullTextIndex` preview feature to be able to define a @@fulltext index.".to_owned();
        let tag = "fulltext".to_owned();
        let span = index.attribute_or_container_span();
        diagnostics.push_error(Diagnostic::new_attribute_validation_error(message, tag, span));
        proof {
            assert(diagnostics@ =~= old(diagnostics)@ + fulltext_preview_diags(
                ctx.preview_features,
                *index,
            ));
        }
    } else {
        proof {
            assert(diagnostics@ =~= old(diagnostics)@ + fulltext_preview_diags(
                ctx.preview_features,
                *index,
            ));
        }
    }
}

// ---------------------------------------------------------------------------
// Full-text connector support
// ---------------------------------------------------------------------------
pub open spec fn msg_fulltext_unsupported() -> Seq<char> {
    "Defining fulltext indexes is not supported with the current connector."@
}

pub open spec fn fulltext_support_diags(connector: ConnectorCapabilities, decl: IndexDecl) -> Seq<
    DiagView,
> {
    if !connector.spec_has_capability(ConnectorCapability::FullTextIndex)
        && decl.spec_is_fulltext() {
        one_diag("fulltext"@, msg_fulltext_unsupported(), decl.spec_attribute_or_container_span())
    } else {
        Seq::empty()
    }
}

/// A full-text declaration needs a connector that supports full-text
/// indexes, whatever the preview features say.
pub fn fulltext_index_supported(
    ctx: &ValidationContext,
    index: &IndexDecl,
    diagnostics: &mut Diagnostics,
)
    ensures
        final (diagnostics)@ == old(diagnostics)@ + fulltext_support_diags(ctx.connector, *index),
{
    if ctx.connector.has_capability(ConnectorCapability::FullTextIndex) {
        proof {
            assert(diagnostics@ =~= old(diagnostics)@ + fulltext_support_diags(
                ctx.connector,
                *index,
            ));
        }
        return ;
    }
    if index.is_fulltext() {
        let message = "Defining fulltext indexes is not supported with the current connector.".to_owned();
        let tag = "fulltext".to_owned();
        let span = index.attribute_or_container_span();
        diagnostics.push_error(Diagnostic::new_attribute_validation_error(message, tag, span));
        proof {
            assert(diagnostics@ =~= old(diagnostics)@ + fulltext_support_diags(
                ctx.connector,
                *index,
            ));
        }
    } else {
        proof {
            assert(diagnostics@ =~= old(diagnostics)@ + fulltext_support_diags(
                ctx.connector,
                *index,
            ));
        }
    }
}

// ---------------------------------------------------------------------------
// Algorithm feature gate
// ---------------------------------------------------------------------------
pub open spec fn msg_algorithm_preview() -> Seq<char> {
    "You must enable `extendedIndexes` preview feature to be able to define the index type."@
}

pub open spec fn algorithm_preview_diags(features: PreviewFeatures, decl: IndexDecl) -> Seq<
    DiagView,
> {
    if !features.spec_contains(PreviewFeature::ExtendedIndexes) && decl.algorithm is Some {
        one_diag("index"@, msg_algorithm_preview(), decl.spec_algorithm_argument_span())
    } else {
        Seq::empty()
    }
}

/// Writing out the index `type` argument needs the `extendedIndexes`
/// preview feature.
pub fn index_algorithm_preview_feature(
    ctx: &ValidationContext,
    index: &IndexDecl,
    diagnostics: &mut Diagnostics,
)
    ensures
        final (diagnostics)@ == old(diagnostics)@ + algorithm_preview_diags(
            ctx.preview_features,
            *index,
        ),
{
    if ctx.preview_features.contains(PreviewFeature::ExtendedIndexes) {
        proof {
            assert(diagnostics@ =~= old(diagnostics)@ + algorithm_preview_diags(
                ctx.preview_features,
                *index,
            ));
        }
        return ;
    }
    if index.algorithm.is_some() {
        let message = "You must enable `extendedIndexes` preview feature to be able to define the index type.".to_owned();
        let tag = "index".to_owned();
        let span = index.algorithm_argument_span();
        diagnostics.push_error(Diagnostic::new_attribute_validation_error(message, tag, span));
        proof {
            assert(diagnostics@ =~= old(diagnostics)@ + algorithm_preview_diags(
                ctx.preview_features,
                *index,
            ));
        }
    } else {
        proof {
            assert(diagnostics@ =~= old(diagnostics)@ + algorithm_preview_diags(
                ctx.preview_features,
                *index,
            ));
        }
    }
}

// ---------------------------------------------------------------------------
// Full-text columns must not define length
// ---------------------------------------------------------------------------
pub open spec fn msg_fulltext_length() -> Seq<char> {
    "The length argument is not supported in a @@fulltext attribute."@
}

pub open spec fn fulltext_length_diags(
    features: PreviewFeatures,
    connector: ConnectorCapabilities,
    decl: IndexDecl,
) -> Seq<DiagView> {
    if features.spec_contains(PreviewFeature::FullTextIndex) && connector.spec_has_capability(
        ConnectorCapability::FullTextIndex,
    ) && decl.spec_is_fulltext() && has_length_field(decl.fields@) {
        one_diag(
            decl.spec_attribute_name(),
            msg_fulltext_length(),
            decl.spec_attribute_or_container_span(),
        )
    } else {
        Seq::empty()
    }
}

/// Inside a full-text declaration (feature and capability present), no field
/// may carry a length prefix.
pub fn fulltext_columns_should_not_define_length(
    ctx: &ValidationContext,
    index: &IndexDecl,
    diagnostics: &mut Diagnostics,
)
    ensures
        final (diagnostics)@ == old(diagnostics)@ + fulltext_length_diags(
            ctx.preview_features,
            ctx.connector,
            *index,
        ),
{
    let ghost appended = fulltext_length_diags(ctx.preview_features, ctx.connector, *index);
    if !ctx.preview_features.contains(PreviewFeature::FullTextIndex) {
        proof {
            assert(diagnostics@ =~= old(diagnostics)@ + appended);
        }
        return ;
    }
    if !ctx.connector.has_capability(ConnectorCapability::FullTextIndex) {
        proof {
            assert(diagnostics@ =~= old(diagnostics)@ + appended);
        }
        return ;
    }
    if !index.is_fulltext() {
        proof {
            assert(diagnostics@ =~= old(diagnostics)@ + appended);
        }
        return ;
    }
    if any_field_has_length(&index.fields) {
        let message = "The length argument is not supported in a @@fulltext attribute.".to_owned();
        let tag = index.attribute_name();
        let span = index.attribute_or_container_span();
        diagnostics.push_error(Diagnostic::new_attribute_validation_error(message, tag, span));
        proof {
            assert(diagnostics@ =~= old(diagnostics)@ + appended);
        }
    } else {
        proof {
            assert(diagnostics@ =~= old(diagnostics)@ + appended);
        }
    }
}

// ---------------------------------------------------------------------------
// Sort order inside full-text needs connector support
// ---------------------------------------------------------------------------
pub open spec fn msg_fulltext_sort() -> Seq<char> {
    "The sort argument is not supported in a @@fulltext attribute in the current connector."@
}

pub open spec fn fulltext_sort_diags(
    features: PreviewFeatures,
    connector: ConnectorCapabilities,
    decl: IndexDecl,
) -> Seq<DiagView> {
    if features.spec_contains(PreviewFeature::FullTextIndex) && connector.spec_has_capability(
        ConnectorCapability::FullTextIndex,
    ) && decl.spec_is_fulltext() && !connector.spec_has_capability(
        ConnectorCapability::SortOrderInFullTextIndex,
    ) && has_sorted_field(decl.fields@) {
        one_diag(
            decl.spec_attribute_name(),
            msg_fulltext_sort(),
            decl.spec_attribute_or_container_span(),
        )
    } else {
        Seq::empty()
    }
}

/// A sort modifier inside a full-text declaration needs a connector that
/// supports sort order in full-text indexes.
pub fn fulltext_column_sort_is_supported(
    ctx: &ValidationContext,
    index: &IndexDecl,
    diagnostics: &mut Diagnostics,
)
    ensures
        final (diagnostics)@ == old(diagnostics)@ + fulltext_sort_diags(
            ctx.preview_features,
            ctx.connector,
            *index,
        ),
{
    let ghost appended = fulltext_sort_diags(ctx.preview_features, ctx.connector, *index);
    if !ctx.preview_features.contains(PreviewFeature::FullTextIndex) {
        proof {
            assert(diagnostics@ =~= old(diagnostics)@ + appended);
        }
        return ;
    }
    if !ctx.connector.has_capability(ConnectorCapability::FullTextIndex) {
        proof {
            assert(diagnostics@ =~= old(diagnostics)@ + appended);
        }
        return ;
    }
    if !index.is_fulltext() {
        proof {
            assert(diagnostics@ =~= old(diagnostics)@ + appended);
        }
        return ;
    }
    if ctx.connector.has_capability(ConnectorCapability::SortOrderInFullTextIndex) {
        proof {
            assert(diagnostics@ =~= old(diagnostics)@ + appended);
        }
        return ;
    }
    if any_field_has_sort_order(&index.fields) {
        let message = "The sort argument is not supported in a @@fulltext attribute in the current connector.".to_owned();
        let tag = index.attribute_name();
        let span = index.attribute_or_container_span();
        diagnostics.push_error(Diagnostic::new_attribute_validation_error(message, tag, span));
        proof {
            assert(diagnostics@ =~= old(diagnostics)@ + appended);
        }
    } else {
        proof {
            assert(diagnostics@ =~= old(diagnostics)@ + appended);
        }
    }
}

// ---------------------------------------------------------------------------
// Full-text text columns must be bundled together
// ---------------------------------------------------------------------------
pub open spec fn msg_fields_not_adjacent() -> Seq<char> {
    "All index fields must be listed adjacently in the fields argument."@
}

pub open spec fn bundling_diags(
    features: PreviewFeatures,
    connector: ConnectorCapabilities,
    decl: IndexDecl,
) -> Seq<DiagView> {
    if features.spec_contains(PreviewFeature::FullTextIndex) && connector.spec_has_capability(
        ConnectorCapability::FullTextIndex,
    ) && decl.spec_is_fulltext() && connector.spec_has_capability(
        ConnectorCapability::SortOrderInFullTextIndex,
    ) && splits_text_bundle(decl.fields@) {
        one_diag("fulltext"@, msg_fields_not_adjacent(), decl.spec_attribute_or_container_span())
    } else {
        Seq::empty()
    }
}

/// The unsorted ("text") fields of a full-text declaration must form one
/// contiguous run. Only checked once the connector can mix sorted and
/// unsorted fields at all.
pub fn fulltext_text_columns_should_be_bundled_together(
    ctx: &ValidationContext,
    index: &IndexDecl,
    diagnostics: &mut Diagnostics,
)
    ensures
        final (diagnostics)@ == old(diagnostics)@ + bundling_diags(
            ctx.preview_features,
            ctx.connector,
            *index,
        ),
{
    let ghost appended = bundling_diags(ctx.preview_features, ctx.connector, *index);
    if !ctx.preview_features.contains(PreviewFeature::FullTextIndex) {
        proof {
            assert(diagnostics@ =~= old(diagnostics)@ + appended);
        }
        return ;
    }
    if !ctx.connector.has_capability(ConnectorCapability::FullTextIndex) {
        proof {
            assert(diagnostics@ =~= old(diagnostics)@ + appended);
        }
        return ;
    }
    if !index.is_fulltext() {
        proof {
            assert(diagnostics@ =~= old(diagnostics)@ + appended);
        }
        return ;
    }
    if !ctx.connector.has_capability(ConnectorCapability::SortOrderInFullTextIndex) {
        proof {
            assert(diagnostics@ =~= old(diagnostics)@ + appended);
        }
        return ;
    }
    if scan_splits_text_bundle(&index.fields) {
        let message = "All index fields must be listed adjacently in the fields argument.".to_owned();
        let tag = "fulltext".to_owned();
        let span = index.attribute_or_container_span();
        diagnostics.push_error(Diagnostic::new_attribute_validation_error(message, tag, span));
        proof {
            assert(diagnostics@ =~= old(diagnostics)@ + appended);
        }
    } else {
        proof {
            assert(diagnostics@ =~= old(diagnostics)@ + appended);
        }
    }
}

// ---------------------------------------------------------------------------
// The full rule set
// ---------------------------------------------------------------------------
/// Everything one pass over one declaration appends, in the fixed rule
/// order. The list is a function of the immutable inputs alone.
pub open spec fn rule_set_diags(ctx: ValidationContext, decl: IndexDecl) -> Seq<DiagView> {
    unique_name_diags(ctx.namespace, decl) + length_sort_preview_diags(ctx.preview_features, decl)
        + length_prefix_diags(ctx.connector, decl) + algorithm_support_diags(ctx.connector, decl)
        + fulltext_preview_diags(ctx.preview_features, decl) + fulltext_support_diags(
        ctx.connector,
        decl,
    ) + algorithm_preview_diags(ctx.preview_features, decl) + fulltext_length_diags(
        ctx.preview_features,
        ctx.connector,
        decl,
    ) + fulltext_sort_diags(ctx.preview_features, ctx.connector, decl) + bundling_diags(
        ctx.preview_features,
        ctx.connector,
        decl,
    )
}

/// Runs every rule against one declaration, in the fixed, deterministic
/// order the host relies on for reproducible diagnostics.
pub fn validate_index(ctx: &ValidationContext, index: &IndexDecl, diagnostics: &mut Diagnostics)
    ensures
        final (diagnostics)@ == old(diagnostics)@ + rule_set_diags(*ctx, *index),
{
    has_a_unique_constraint_name(ctx, index, diagnostics);
    uses_length_or_sort_without_preview_flag(ctx, index, diagnostics);
    field_length_prefix_supported(ctx, index, diagnostics);
    index_algorithm_is_supported(ctx, index, diagnostics);
    fulltext_index_preview_feature_enabled(ctx, index, diagnostics);
    fulltext_index_supported(ctx, index, diagnostics);
    index_algorithm_preview_feature(ctx, index, diagnostics);
    fulltext_columns_should_not_define_length(ctx, index, diagnostics);
    fulltext_column_sort_is_supported(ctx, index, diagnostics);
    fulltext_text_columns_should_be_bundled_together(ctx, index, diagnostics);
    proof {
        assert(diagnostics@ =~= old(diagnostics)@ + rule_set_diags(*ctx, *index));
    }
}

} // verus!
