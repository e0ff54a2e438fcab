//! Tests of the canonical document model.

use aisp_core::ast::{
    BasicType, CanonicalAispBlock, CanonicalAispDocument, MetaBlock, Span, TypeDefinition,
    TypeExpression, TypesBlock,
};

#[test]
fn test_canonical_document_creation() {
    let doc = CanonicalAispDocument::new(
        "test".to_string(),
        "5.1".to_string(),
        "2026-01-27".to_string(),
    );

    assert_eq!(doc.header.name, "test");
    assert_eq!(doc.header.version, "5.1");
    assert_eq!(doc.blocks.len(), 0);
}

#[test]
fn test_block_type_identification() {
    let meta_block = CanonicalAispBlock::Meta(MetaBlock {
        entries: vec!["test".to_string()],
        span: None,
    });

    assert_eq!(meta_block.block_type(), "Meta");
    assert!(meta_block.as_meta().is_some());
    assert!(meta_block.as_types().is_none());
}

#[test]
fn test_block_filtering() {
    let mut doc = CanonicalAispDocument::default();

    doc.add_block(CanonicalAispBlock::Meta(MetaBlock {
        entries: vec!["meta1".to_string()],
        span: None,
    }));

    doc.add_block(CanonicalAispBlock::Types(TypesBlock {
        definitions: Vec::new(),
        span: None,
    }));

    let meta_blocks = doc.get_blocks_by_type(|b| b.as_meta());
    let type_blocks = doc.get_blocks_by_type(|b| b.as_types());

    assert_eq!(meta_blocks.len(), 1);
    assert_eq!(type_blocks.len(), 1);
}

#[test]
fn test_first_block_lookup() {
    let mut doc = CanonicalAispDocument::default();
    assert!(doc.get_first_block(|b| b.as_types()).is_none());

    doc.add_block(CanonicalAispBlock::Types(TypesBlock {
        definitions: vec![TypeDefinition {
            name: "Counter".to_string(),
            type_expr: TypeExpression::Basic(BasicType::Natural),
            span: None,
        }],
        span: None,
    }));

    let first = doc.get_first_block(|b| b.as_types());
    assert!(first.is_some());
    assert_eq!(first.unwrap().definitions.len(), 1);
}

#[test]
fn test_default_document_header() {
    let doc = CanonicalAispDocument::default();
    assert_eq!(doc.header.version, "5.1");
    assert_eq!(doc.header.name, "default");
    assert_eq!(doc.header.date, "2026-01-27");
}

#[test]
fn test_default_span_is_zero() {
    let span = Span::default();
    assert_eq!(span, Span { start: 0, end: 0, line: 0, column: 0 });
}
