//! Canonical AISP document representation.
//!
//! One unified document tree that every verification component consumes
//! read-only: a header, document-level metadata, and an ordered sequence of
//! typed blocks (meta, types, rules, functions, evidence).
//!
//! Type definitions are kept as an ordered list; a well-formed types block
//! has pairwise distinct definition names. Evidence deltas are held in parts
//! per million.

use vstd::prelude::*;

verus! {

/// Source location span information.
#[derive(Debug, Clone, PartialEq, Eq, Structural)]
pub struct Span {
    pub start: usize,
    pub end: usize,
    pub line: usize,
    pub column: usize,
}

impl Default for Span {
    /// The zero span.
    fn default() -> (r: Span)
        ensures
            r == (Span { start: 0, end: 0, line: 0, column: 0 }),
    {
        Span { start: 0, end: 0, line: 0, column: 0 }
    }
}

/// Additional header metadata.
#[derive(Debug, Clone)]
pub struct HeaderMetadata {
    pub author: Option<String>,
    pub description: Option<String>,
    pub tags: Vec<String>,
}

/// Document header information.
#[derive(Debug, Clone)]
pub struct DocumentHeader {
    /// AISP version (e.g., "5.1").
    pub version: String,
    /// Document name.
    pub name: String,
    /// Creation date.
    pub date: String,
    /// Optional metadata.
    pub metadata: Option<HeaderMetadata>,
}

/// Document-level metadata.
#[derive(Debug, Clone)]
pub struct DocumentMetadata {
    pub domain: Option<String>,
    pub protocol: Option<String>,
}

/// Basic type enumeration of the specification language.
#[derive(Debug, PartialEq, Eq)]
pub enum BasicType {
    Natural,
    Integer,
    Real,
    Boolean,
    Text,
    Symbol,
    Custom(String),
}

/// Type expression of the specification language's type system.
#[derive(Debug)]
pub enum TypeExpression {
    Basic(BasicType),
    SetOf(Box<TypeExpression>),
    Union(Vec<TypeExpression>),
    Product(Vec<TypeExpression>),
    Function { params: Vec<TypeExpression>, return_type: Box<TypeExpression> },
}

/// A named type definition.
#[derive(Debug)]
pub struct TypeDefinition {
    pub name: String,
    pub type_expr: TypeExpression,
    pub span: Option<Span>,
}

/// Meta block for document metadata and configuration.
#[derive(Debug, Clone)]
pub struct MetaBlock {
    pub entries: Vec<String>,
    pub span: Option<Span>,
}

/// Types block holding the document's type definitions, in order.
#[derive(Debug)]
pub struct TypesBlock {
    pub definitions: Vec<TypeDefinition>,
    pub span: Option<Span>,
}

impl TypesBlock {
    /// A well-formed types block names each definition once.
    pub open spec fn wf(&self) -> bool {
        forall|i: int, j: int|
            0 <= i < j < self.definitions@.len() ==> self.definitions@[i].name@
                != self.definitions@[j].name@
    }
}

/// Rules block for logical rules and constraints.
#[derive(Debug, Clone)]
pub struct RulesBlock {
    pub rules: Vec<String>,
    pub span: Option<Span>,
}

/// Functions block for function definitions.
#[derive(Debug, Clone)]
pub struct FunctionsBlock {
    pub functions: Vec<String>,
    pub span: Option<Span>,
}

/// Evidence block for validation evidence; the delta scalar is held in
/// parts per million.
#[derive(Debug, Clone)]
pub struct EvidenceBlock {
    pub delta_ppm: Option<u64>,
    pub phi: Option<u64>,
    pub tau: Option<String>,
    pub span: Option<Span>,
}

/// Canonical block representation.
#[derive(Debug)]
pub enum CanonicalAispBlock {
    Meta(MetaBlock),
    Types(TypesBlock),
    Rules(RulesBlock),
    Functions(FunctionsBlock),
    Evidence(EvidenceBlock),
}

impl CanonicalAispBlock {
    /// The name of this block's kind.
    pub fn block_type(&self) -> (r: &'static str)
        ensures
            r@ == self.block_type_view(),
    {
        match self {
            CanonicalAispBlock::Meta(_) => "Meta",
            CanonicalAispBlock::Types(_) => "Types",
            CanonicalAispBlock::Rules(_) => "Rules",
            CanonicalAispBlock::Functions(_) => "Functions",
            CanonicalAispBlock::Evidence(_) => "Evidence",
        }
    }

    /// The name of this block's kind, as a sequence of characters.
    pub open spec fn block_type_view(&self) -> Seq<char> {
        match self {
            CanonicalAispBlock::Meta(_) => "Meta"@,
            CanonicalAispBlock::Types(_) => "Types"@,
            CanonicalAispBlock::Rules(_) => "Rules"@,
            CanonicalAispBlock::Functions(_) => "Functions"@,
            CanonicalAispBlock::Evidence(_) => "Evidence"@,
        }
    }

    /// This block as a meta block, if it is one.
    pub fn as_meta(&self) -> (r: Option<&MetaBlock>)
        ensures
            match self {
                CanonicalAispBlock::Meta(m) => r == Some(m),
                _ => r is None,
            },
    {
        match self {
            CanonicalAispBlock::Meta(meta) => Some(meta),
            _ => None,
        }
    }

    /// This block as a types block, if it is one.
    pub fn as_types(&self) -> (r: Option<&TypesBlock>)
        ensures
            match self {
                CanonicalAispBlock::Types(t) => r == Some(t),
                _ => r is None,
            },
    {
        match self {
            CanonicalAispBlock::Types(types) => Some(types),
            _ => None,
        }
    }

    /// This block as a rules block, if it is one.
    pub fn as_rules(&self) -> (r: Option<&RulesBlock>)
        ensures
            match self {
                CanonicalAispBlock::Rules(t) => r == Some(t),
                _ => r is None,
            },
    {
        match self {
            CanonicalAispBlock::Rules(rules) => Some(rules),
            _ => None,
        }
    }

    /// This block as a functions block, if it is one.
    pub fn as_functions(&self) -> (r: Option<&FunctionsBlock>)
        ensures
            match self {
                CanonicalAispBlock::Functions(t) => r == Some(t),
                _ => r is None,
            },
    {
        match self {
            CanonicalAispBlock::Functions(functions) => Some(functions),
            _ => None,
        }
    }

    /// This block as an evidence block, if it is one.
    pub fn as_evidence(&self) -> (r: Option<&EvidenceBlock>)
        ensures
            match self {
                CanonicalAispBlock::Evidence(t) => r == Some(t),
                _ => r is None,
            },
    {
        match self {
            CanonicalAispBlock::Evidence(evidence) => Some(evidence),
            _ => None,
        }
    }
}

/// Canonical AISP document: the single representation every component uses.
#[derive(Debug)]
pub struct CanonicalAispDocument {
    pub header: DocumentHeader,
    pub metadata: DocumentMetadata,
    pub blocks: Vec<CanonicalAispBlock>,
    pub span: Option<Span>,
}

impl CanonicalAispDocument {
    /// Creates a new document with the given header fields and no blocks.
    pub fn new(name: String, version: String, date: String) -> (r: CanonicalAispDocument)
        ensures
            r.header.name@ == name@,
            r.header.version@ == version@,
            r.header.date@ == date@,
            r.header.metadata is None,
            r.metadata.domain is None,
            r.metadata.protocol is None,
            r.blocks@.len() == 0,
            r.span is None,
    {
        CanonicalAispDocument {
            header: DocumentHeader { version, name, date, metadata: None },
            metadata: DocumentMetadata { domain: None, protocol: None },
            blocks: Vec::new(),
            span: None,
        }
    }

    /// Appends a block to the document.
    pub fn add_block(&mut self, block: CanonicalAispBlock)
        ensures
            final (self).blocks@ == old(self).blocks@.push(block),
            final (self).header == old(self).header,
            final (self).metadata == old(self).metadata,
            final (self).span == old(self).span,
    {
        self.blocks.push(block);
    }
}

/// The values of the present entries of a sequence of options, in order.
pub open spec fn somes_of<T>(picks: Seq<Option<T>>) -> Seq<T>
    decreases picks.len(),
{
    if picks.len() == 0 {
        Seq::empty()
    } else {
        somes_of(picks.drop_last()) + (match picks.last() {
            Some(t) => seq![t],
            None => Seq::<T>::empty(),
        })
    }
}

impl CanonicalAispDocument {
    /// All blocks a selector accepts, in document order: the result is
    /// exactly the present values of one selector outcome per block, each
    /// outcome permitted by the selector's postcondition.
    pub fn get_blocks_by_type<'a, T, F: Fn(&'a CanonicalAispBlock) -> Option<&'a T>>(
        &'a self,
        block_type: F,
    ) -> (r: Vec<&'a T>)
        requires
            forall|b: &'a CanonicalAispBlock| #[trigger] block_type.requires((b,)),
        ensures
            exists|picks: Seq<Option<&'a T>>|
                {
                    &&& picks.len() == self.blocks@.len()
                    &&& forall|j: int|
                        0 <= j < picks.len() ==> call_ensures(
                            block_type,
                            (&self.blocks@[j],),
                            #[trigger] picks[j],
                        )
                    &&& r@ == #[trigger] somes_of(picks)
                },
    {
        let ghost mut picks: Seq<Option<&'a T>> = Seq::empty();
        let mut selected: Vec<&'a T> = Vec::new();
        let mut i: usize = 0;
        while i < self.blocks.len()
            invariant
                0 <= i <= self.blocks@.len(),
                picks.len() == i,
                forall|j: int|
                    0 <= j < i as int ==> call_ensures(
                        block_type,
                        (&self.blocks@[j],),
                        #[trigger] picks[j],
                    ),
                selected@ == somes_of(picks),
                forall|b: &'a CanonicalAispBlock| #[trigger] block_type.requires((b,)),
            decreases self.blocks@.len() - i,
        {
            let picked = block_type(&self.blocks[i]);
            proof {
                let prev = picks;
                picks = picks.push(picked);
                assert(picks.drop_last() =~= prev);
            }
            match picked {
                Some(t) => {
                    selected.push(t);
                },
                None => {},
            }
            i = i + 1;
        }
        proof {
            assert(picks.len() == self.blocks@.len() && selected@ == somes_of(picks));
        }
        selected
    }

    /// The first block a selector accepts, if any: on a hit, the selector
    /// returned the value at some position and returned nothing on every
    /// earlier block; on a miss, it returned nothing on every block.
    pub fn get_first_block<'a, T, F: Fn(&'a CanonicalAispBlock) -> Option<&'a T>>(
        &'a self,
        block_type: F,
    ) -> (r: Option<&'a T>)
        requires
            forall|b: &'a CanonicalAispBlock| #[trigger] block_type.requires((b,)),
        ensures
            r is None ==> forall|k: int|
                0 <= k < self.blocks@.len() ==> #[trigger] call_ensures(
                    block_type,
                    (&self.blocks@[k],),
                    None::<&'a T>,
                ),
            r is Some ==> exists|j: int|
                {
                    &&& 0 <= j < self.blocks@.len()
                    &&& #[trigger] call_ensures(block_type, (&self.blocks@[j],), r)
                    &&& forall|k: int|
                        0 <= k < j ==> #[trigger] call_ensures(
                            block_type,
                            (&self.blocks@[k],),
                            None::<&'a T>,
                        )
                },
    {
        let mut i: usize = 0;
        while i < self.blocks.len()
            invariant
                0 <= i <= self.blocks@.len(),
                forall|k: int|
                    0 <= k < i as int ==> #[trigger] call_ensures(
                        block_type,
                        (&self.blocks@[k],),
                        None::<&'a T>,
                    ),
                forall|b: &'a CanonicalAispBlock| #[trigger] block_type.requires((b,)),
            decreases self.blocks@.len() - i,
        {
            match block_type(&self.blocks[i]) {
                Some(t) => {
                    return Some(t);
                },
                None => {},
            }
            i = i + 1;
        }
        None
    }
}

impl Default for CanonicalAispDocument {
    /// The default document: version "5.1", no blocks.
    fn default() -> (r: CanonicalAispDocument)
        ensures
            r.header.version@ == "5.1"@,
            r.header.name@ == "default"@,
            r.header.date@ == "2026-01-27"@,
            r.header.metadata is None,
            r.metadata.domain is None,
            r.metadata.protocol is None,
            r.blocks@.len() == 0,
            r.span is None,
    {
        CanonicalAispDocument {
            header: DocumentHeader {
                version: String::from_str("5.1"),
                name: String::from_str("default"),
                date: String::from_str("2026-01-27"),
                metadata: None,
            },
            metadata: DocumentMetadata { domain: None, protocol: None },
            blocks: Vec::new(),
            span: None,
        }
    }
}

/// Conversion trait for migrating legacy document trees to the canonical one.
pub trait IntoCanonical<T> {
    fn into_canonical(self) -> T;
}

/// Canonical document alias used throughout the core.
pub type AispDocument = CanonicalAispDocument;

/// Canonical block alias used throughout the core.
pub type AispBlock = CanonicalAispBlock;

} // verus!
