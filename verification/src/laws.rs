//! Laws the rule set obeys, stated over the same spec functions the rules'
//! own contracts use.

use vstd::prelude::*;

use crate::context::{
    collides, ConnectorCapabilities, ConnectorCapability, NamespaceScopes, PreviewFeature,
    PreviewFeatures,
};
use crate::diagnostics::DiagView;
use crate::rules::{
    algorithm_support_diags, bundling_diags, fulltext_length_diags, fulltext_preview_diags,
    fulltext_sort_diags, fulltext_support_diags, length_sort_preview_diags, rule_set_diags,
    unique_name_diags, ValidationContext,
};
use crate::schema::{has_length_or_sort_field, IndexAlgorithm, IndexDecl};

verus! {

/// For a declaration that sets a length or sort modifier on some field, the
/// "extended indexes required" diagnostic is emitted exactly when the
/// feature is disabled — and at most once. The rule's emission is a function
/// of the feature set and the declaration alone: it never consults the
/// connector's capabilities.
pub proof fn lemma_extended_feature_gate(features: PreviewFeatures, decl: IndexDecl)
    requires
        has_length_or_sort_field(decl.fields@),
    ensures
        length_sort_preview_diags(features, decl).len() > 0 <==> !features.spec_contains(
            PreviewFeature::ExtendedIndexes,
        ),
        length_sort_preview_diags(features, decl).len() <= 1,
{
}

/// The full-text feature gate short-circuits: with the feature disabled, the
/// checks that sit behind it (length inside full-text, sort support,
/// bundling) emit nothing, whatever the connector and the declaration look
/// like.
pub proof fn lemma_fulltext_gate_short_circuits(
    features: PreviewFeatures,
    connector: ConnectorCapabilities,
    decl: IndexDecl,
)
    requires
        !features.spec_contains(PreviewFeature::FullTextIndex),
    ensures
        fulltext_length_diags(features, connector, decl) == Seq::<DiagView>::empty(),
        fulltext_sort_diags(features, connector, decl) == Seq::<DiagView>::empty(),
        bundling_diags(features, connector, decl) == Seq::<DiagView>::empty(),
{
}

/// On a full-text declaration the feature-gate diagnostic and the
/// connector-support diagnostic are independent of each other: each fires
/// exactly when its own precondition fails, so both can fire on the same
/// declaration.
pub proof fn lemma_fulltext_gate_and_support_independent(
    features: PreviewFeatures,
    connector: ConnectorCapabilities,
    decl: IndexDecl,
)
    requires
        decl.spec_is_fulltext(),
    ensures
        fulltext_preview_diags(features, decl).len() > 0 <==> !features.spec_contains(
            PreviewFeature::FullTextIndex,
        ),
        fulltext_support_diags(connector, decl).len() > 0 <==> !connector.spec_has_capability(
            ConnectorCapability::FullTextIndex,
        ),
{
}

/// The unique-name rule fires exactly when the namespace holds a colliding
/// entry: one registered in the declaration's own scope under the
/// declaration's final name. The same name in a different scope is no
/// collision.
pub proof fn lemma_unique_name_collision(namespace: NamespaceScopes, decl: IndexDecl)
    ensures
        unique_name_diags(namespace, decl).len() > 0 <==> exists|i: int|
            0 <= i < namespace.entries@.len() && collides(
                #[trigger] namespace.entries@[i],
                decl.scope_id,
                decl.final_name@,
            ),
{
    crate::context::lemma_collisions_nonempty(
        namespace.entries@,
        decl.scope_id,
        decl.final_name@,
    );
}

/// Selecting the hash algorithm on a connector without hash-index support
/// yields exactly one diagnostic, reported against the `index` attribute.
/// The rule's emission never depends on a preview feature.
pub proof fn lemma_hash_algorithm_unsupported(connector: ConnectorCapabilities, decl: IndexDecl)
    requires
        decl.algorithm == Some(IndexAlgorithm::Hash),
        !connector.spec_has_capability(ConnectorCapability::UsingHashIndex),
    ensures
        algorithm_support_diags(connector, decl).len() == 1,
        algorithm_support_diags(connector, decl)[0].attribute_tag == "index"@,
{
}

/// Running the full rule set is idempotent in its observable output: what a
/// pass appends is `rule_set_diags`, a function of the immutable inputs
/// alone, so two passes over the same connector, features, namespace and
/// declaration append identical diagnostic lists — same messages, same
/// order, same spans.
pub proof fn lemma_rule_set_idempotent(
    ctx: ValidationContext,
    decl: IndexDecl,
    first: Seq<DiagView>,
    second: Seq<DiagView>,
)
    requires
        first == rule_set_diags(ctx, decl),
        second == rule_set_diags(ctx, decl),
    ensures
        first == second,
{
}

} // verus!
