use index_validation::bundling::scan_splits_text_bundle;
use index_validation::context::{
    ConnectorCapabilities, ConnectorCapability, NamespaceScopes, PreviewFeature, PreviewFeatures,
};
use index_validation::diagnostics::{Diagnostics, Span};
use index_validation::rules::{
    fulltext_text_columns_should_be_bundled_together, ValidationContext,
};
use index_validation::schema::{FieldAttribute, IndexDecl, IndexKind, SortOrder};

fn sorted() -> FieldAttribute {
    FieldAttribute {
        field_id: 0,
        length: None,
        sort_order: Some(SortOrder::Asc),
    }
}

fn unsorted() -> FieldAttribute {
    FieldAttribute {
        field_id: 0,
        length: None,
        sort_order: None,
    }
}

fn fulltext_context() -> ValidationContext {
    ValidationContext {
        connector: ConnectorCapabilities {
            capabilities: vec![
                ConnectorCapability::FullTextIndex,
                ConnectorCapability::SortOrderInFullTextIndex,
            ],
        },
        preview_features: PreviewFeatures {
            features: vec![PreviewFeature::ExtendedIndexes, PreviewFeature::FullTextIndex],
        },
        namespace: NamespaceScopes { entries: vec![] },
    }
}

fn fulltext_decl(fields: Vec<FieldAttribute>) -> IndexDecl {
    IndexDecl {
        scope_id: 1,
        kind: IndexKind::FullText,
        final_name: "idx_a".to_string(),
        explicit_name: None,
        algorithm: None,
        fields,
        attribute_span: Some(Span { start: 10, end: 40 }),
        mapped_name_span: None,
        name_arg_span: None,
        algorithm_arg_span: None,
        container_span: Span { start: 0, end: 100 },
    }
}

fn bundling_errors(fields: Vec<FieldAttribute>) -> usize {
    let ctx = fulltext_context();
    let decl = fulltext_decl(fields);
    let mut diagnostics = Diagnostics::new();
    fulltext_text_columns_should_be_bundled_together(&ctx, &decl, &mut diagnostics);
    diagnostics.len()
}

#[test]
fn two_sorted_fields_are_legal() {
    assert_eq!(bundling_errors(vec![sorted(), sorted()]), 0);
}

#[test]
fn two_unsorted_fields_are_legal() {
    assert_eq!(bundling_errors(vec![unsorted(), unsorted()]), 0);
}

#[test]
fn sorted_unsorted_sorted_is_legal() {
    assert_eq!(bundling_errors(vec![sorted(), unsorted(), sorted()]), 0);
}

#[test]
fn unsorted_sorted_unsorted_is_one_error() {
    let ctx = fulltext_context();
    let decl = fulltext_decl(vec![unsorted(), sorted(), unsorted()]);
    let mut diagnostics = Diagnostics::new();
    fulltext_text_columns_should_be_bundled_together(&ctx, &decl, &mut diagnostics);
    let errors = diagnostics.errors();
    assert_eq!(errors.len(), 1);
    assert_eq!(
        errors[0].message.as_str(),
        "All index fields must be listed adjacently in the fields argument."
    );
    assert_eq!(errors[0].attribute_tag.as_str(), "fulltext");
    assert_eq!(errors[0].span, Span { start: 10, end: 40 });
}

#[test]
fn empty_field_list_is_legal() {
    assert_eq!(bundling_errors(vec![]), 0);
}

#[test]
fn second_bundle_after_long_tail_is_one_error() {
    let fields = vec![
        sorted(),
        unsorted(),
        unsorted(),
        sorted(),
        sorted(),
        unsorted(),
        unsorted(),
    ];
    assert_eq!(bundling_errors(fields), 1);
}

#[test]
fn scan_reports_the_split_exactly() {
    assert!(!scan_splits_text_bundle(&vec![]));
    assert!(!scan_splits_text_bundle(&vec![sorted(), sorted()]));
    assert!(!scan_splits_text_bundle(&vec![unsorted(), unsorted()]));
    assert!(!scan_splits_text_bundle(&vec![sorted(), unsorted(), sorted()]));
    assert!(scan_splits_text_bundle(&vec![unsorted(), sorted(), unsorted()]));
    assert!(scan_splits_text_bundle(&vec![
        sorted(),
        unsorted(),
        sorted(),
        sorted(),
        unsorted()
    ]));
}

#[test]
fn bundling_not_checked_without_sort_order_capability() {
    // The connector supports full-text but cannot mix in sort order: the
    // bundling rule keeps out, as its precondition asks.
    let mut ctx = fulltext_context();
    ctx.connector = ConnectorCapabilities {
        capabilities: vec![ConnectorCapability::FullTextIndex],
    };
    let decl = fulltext_decl(vec![unsorted(), sorted(), unsorted()]);
    let mut diagnostics = Diagnostics::new();
    fulltext_text_columns_should_be_bundled_together(&ctx, &decl, &mut diagnostics);
    assert!(diagnostics.is_empty());
}

#[test]
fn bundling_not_checked_on_plain_index() {
    let ctx = fulltext_context();
    let mut decl = fulltext_decl(vec![unsorted(), sorted(), unsorted()]);
    decl.kind = IndexKind::Plain;
    let mut diagnostics = Diagnostics::new();
    fulltext_text_columns_should_be_bundled_together(&ctx, &decl, &mut diagnostics);
    assert!(diagnostics.is_empty());
}
