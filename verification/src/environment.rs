//! Solver environment builder.
//!
//! From a document's type and function declarations this builds the sort and
//! function registries the encoder works against: one sort per declared type
//! (natural maps to the integer sort, real to the real sort, boolean to the
//! bool sort, everything else to an uninterpreted sort named after the
//! type), the fixed domain sorts every run uses, and one uninterpreted
//! function per declared function with a generic domain and codomain
//! placeholder pending full signature parsing (a documented limitation:
//! precise multi-argument signatures are not required by the properties
//! currently encoded).

use vstd::prelude::*;

use crate::ast::{AispDocument, BasicType, CanonicalAispBlock, TypeDefinition, TypeExpression};
use crate::error::AispResult;

verus! {

/// The solver-native sort a declared type maps to.
#[derive(Debug, Clone, Copy, PartialEq, Eq, Structural)]
pub enum SortKind {
    /// The integer sort.
    IntSort,
    /// The real sort.
    RealSort,
    /// The boolean sort.
    BoolSort,
    /// An uninterpreted sort named after the type.
    Uninterpreted,
}

/// One declared sort.
#[derive(Debug, Clone)]
pub struct SortDecl {
    /// Registry name of the sort.
    pub name: String,
    /// The solver-native sort it maps to.
    pub kind: SortKind,
}

/// One declared uninterpreted function.
#[derive(Debug, Clone)]
pub struct FunctionDecl {
    /// Function name.
    pub name: String,
    /// Domain sort names.
    pub domain: Vec<String>,
    /// Codomain sort name.
    pub codomain: String,
}

/// The sort kind a type expression maps to.
pub open spec fn sort_kind_for(t: TypeExpression) -> SortKind {
    match t {
        TypeExpression::Basic(BasicType::Natural) => SortKind::IntSort,
        TypeExpression::Basic(BasicType::Real) => SortKind::RealSort,
        TypeExpression::Basic(BasicType::Boolean) => SortKind::BoolSort,
        _ => SortKind::Uninterpreted,
    }
}

/// A sort declaration with the given name and kind.
pub open spec fn matches_sort_decl(s: SortDecl, name: Seq<char>, kind: SortKind) -> bool {
    s.name@ == name && s.kind == kind
}

/// The sort declaration a type definition gives rise to.
pub open spec fn sort_spec_of(d: TypeDefinition) -> (Seq<char>, SortKind) {
    (d.name@, sort_kind_for(d.type_expr))
}

/// The sort declarations a definition sequence gives rise to, in order.
pub open spec fn def_sort_specs(defs: Seq<TypeDefinition>) -> Seq<(Seq<char>, SortKind)> {
    defs.map_values(|d: TypeDefinition| sort_spec_of(d))
}

/// The sort declarations of one block: one per definition of a types block,
/// none for any other block.
pub open spec fn block_sort_specs(b: CanonicalAispBlock) -> Seq<(Seq<char>, SortKind)> {
    match b {
        CanonicalAispBlock::Types(t) => def_sort_specs(t.definitions@),
        _ => Seq::empty(),
    }
}

/// The sort declarations of a block sequence, in block order.
pub open spec fn type_sort_specs(blocks: Seq<CanonicalAispBlock>) -> Seq<(Seq<char>, SortKind)>
    decreases blocks.len(),
{
    if blocks.len() == 0 {
        Seq::empty()
    } else {
        type_sort_specs(blocks.drop_last()) + block_sort_specs(blocks.last())
    }
}

/// The views of a sequence of names.
pub open spec fn name_views(names: Seq<String>) -> Seq<Seq<char>> {
    names.map_values(|n: String| n@)
}

/// The function names declared by one block: those of a functions block.
pub open spec fn block_function_names(b: CanonicalAispBlock) -> Seq<Seq<char>> {
    match b {
        CanonicalAispBlock::Functions(f) => name_views(f.functions@),
        _ => Seq::empty(),
    }
}

/// The function names declared by a block sequence, in block order.
pub open spec fn function_name_specs(blocks: Seq<CanonicalAispBlock>) -> Seq<Seq<char>>
    decreases blocks.len(),
{
    if blocks.len() == 0 {
        Seq::empty()
    } else {
        function_name_specs(blocks.drop_last()) + block_function_names(blocks.last())
    }
}

/// An uninterpreted function declaration with the given name and the generic
/// placeholder domain and codomain.
pub open spec fn matches_function_decl(f: FunctionDecl, name: Seq<char>) -> bool {
    &&& f.name@ == name
    &&& f.domain@.len() == 1
    &&& f.domain@[0]@ == "Any"@
    &&& f.codomain@ == "Any"@
}

/// Sort and function registries used by the encoder during one run.
#[derive(Debug, Clone)]
pub struct AispZ3Environment {
    /// Declared sorts, in declaration order.
    pub sorts: Vec<SortDecl>,
    /// Declared uninterpreted functions, in declaration order.
    pub functions: Vec<FunctionDecl>,
}

impl AispZ3Environment {
    /// The five basic declarations every run starts from: the real, integer
    /// and boolean sorts, and the uninterpreted `Vector` and `Signal` domain
    /// sorts.
    pub open spec fn has_basic_sorts(&self) -> bool {
        &&& self.sorts@.len() >= 5
        &&& matches_sort_decl(self.sorts@[0], "Real"@, SortKind::RealSort)
        &&& matches_sort_decl(self.sorts@[1], "Int"@, SortKind::IntSort)
        &&& matches_sort_decl(self.sorts@[2], "Bool"@, SortKind::BoolSort)
        &&& matches_sort_decl(self.sorts@[3], "Vector"@, SortKind::Uninterpreted)
        &&& matches_sort_decl(self.sorts@[4], "Signal"@, SortKind::Uninterpreted)
    }

    /// Creates an environment holding the basic sorts and no functions.
    pub fn new() -> (r: AispZ3Environment)
        ensures
            r.sorts@.len() == 5,
            r.has_basic_sorts(),
            r.functions@.len() == 0,
    {
        let mut sorts: Vec<SortDecl> = Vec::new();
        sorts.push(SortDecl { name: String::from_str("Real"), kind: SortKind::RealSort });
        sorts.push(SortDecl { name: String::from_str("Int"), kind: SortKind::IntSort });
        sorts.push(SortDecl { name: String::from_str("Bool"), kind: SortKind::BoolSort });
        sorts.push(SortDecl { name: String::from_str("Vector"), kind: SortKind::Uninterpreted });
        sorts.push(SortDecl { name: String::from_str("Signal"), kind: SortKind::Uninterpreted });
        AispZ3Environment { sorts, functions: Vec::new() }
    }

    /// Declares the sort for one named type expression.
    pub fn declare_type_sort(&mut self, name: &String, type_expr: &TypeExpression) -> (r:
        AispResult<()>)
        ensures
            r is Ok,
            final (self).sorts@.len() == old(self).sorts@.len() + 1,
            final (self).sorts@.drop_last() == old(self).sorts@,
            matches_sort_decl(
                final (self).sorts@.last(),
                name@,
                sort_kind_for(*type_expr),
            ),
            final (self).functions == old(self).functions,
    {
        let kind = match type_expr {
            TypeExpression::Basic(BasicType::Natural) => SortKind::IntSort,
            TypeExpression::Basic(BasicType::Real) => SortKind::RealSort,
            TypeExpression::Basic(BasicType::Boolean) => SortKind::BoolSort,
            _ => SortKind::Uninterpreted,
        };
        self.sorts.push(SortDecl { name: name.clone(), kind });
        proof {
            assert(final (self).sorts@.drop_last() =~= old(self).sorts@);
        }
        Ok(())
    }

    /// Declares one uninterpreted function under the generic placeholder
    /// signature.
    pub fn declare_function(&mut self, name: &String) -> (r: AispResult<()>)
        ensures
            r is Ok,
            final (self).functions@.len() == old(self).functions@.len() + 1,
            final (self).functions@.drop_last() == old(self).functions@,
            matches_function_decl(final (self).functions@.last(), name@),
            final (self).sorts == old(self).sorts,
    {
        let mut domain: Vec<String> = Vec::new();
        domain.push(String::from_str("Any"));
        self.functions.push(
            FunctionDecl { name: name.clone(), domain, codomain: String::from_str("Any") },
        );
        proof {
            assert(final (self).functions@.drop_last() =~= old(self).functions@);
        }
        Ok(())
    }
}

} // verus!
