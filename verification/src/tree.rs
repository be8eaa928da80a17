//! The owned declaration tree the pass rewrites.
//!
//! A program is a sequence of declarations. A declaration is a function, a
//! data-type definition, or anything else; it may carry its own verification
//! annotation, and it carries an explicit inertness marker once a
//! configuration has been resolved for it, so that no later pass transforms
//! it again. Function bodies are sequences of statements, and a statement
//! may itself be a nested declaration: that is how nested scopes arise.
//!
//! Every type here has a mathematical mirror over `Seq`, reached through
//! `deep_view`; the contracts of the pass are stated over those mirrors.

use vstd::prelude::*;

use crate::config::{AnnotationArg, ArgV};

verus! {

broadcast use vstd::std_specs::vec::group_vec_axioms, vstd::seq::group_seq_axioms;

/// The category of a verification call, fixed at build time.
#[derive(Clone, Copy, Debug, PartialEq, Eq, Structural)]
pub enum Tag {
    /// The single call at the top of an instrumented function, reporting
    /// the function's check identifier.
    FunctionEntry,
    /// One call per checked parameter, reporting a hash of the parameter's
    /// value.
    FunctionArgument,
    /// A call whose meaning the channel does not classify further.
    Unknown,
}

/// Which kind of data-type definition a declaration is.
#[derive(Clone, Copy, Debug, PartialEq, Eq, Structural)]
pub enum DataTypeKind {
    Struct,
    Enum,
    Union,
}

/// One attribute on a declaration, kept as its source text.
#[derive(Clone, Debug, PartialEq, Eq)]
pub struct Attribute {
    pub name: String,
}

impl DeepView for Attribute {
    type V = Seq<char>;

    open spec fn deep_view(&self) -> Seq<char> {
        self.name@
    }
}

/// One function parameter: either bound to a simple name, which a
/// synthesized check can reference directly, or bound by a destructuring
/// pattern, which cannot be referenced by name and is therefore
/// unsupported when per-argument checks are requested.
#[derive(Clone, Debug, PartialEq, Eq)]
pub enum Parameter {
    /// A parameter bound to a simple name.
    Named(String),
    /// A parameter bound by a non-trivial pattern, carried as a
    /// description for error reporting.
    Destructured(String),
}

/// The mathematical value of a [`Parameter`].
pub ghost enum ParamV {
    Named(Seq<char>),
    Destructured(Seq<char>),
}

impl DeepView for Parameter {
    type V = ParamV;

    open spec fn deep_view(&self) -> ParamV {
        match self {
            Parameter::Named(n) => ParamV::Named(n@),
            Parameter::Destructured(d) => ParamV::Destructured(d@),
        }
    }
}

/// One statement of a function body.
#[derive(Debug, PartialEq, Eq)]
pub enum Statement {
    /// A verification call reporting a value fixed at transformation time:
    /// `verify(tag, value)`. The entry call of an instrumented function is
    /// one of these, carrying the check identifier.
    VerifyValue(Tag, u64),
    /// A verification call reporting the structural hash of the named
    /// binding at run time: `verify(tag, hash(binding))`.
    VerifyHashOf(Tag, String),
    /// A nested declaration, such as an inner function.
    Nested(Box<Declaration>),
    /// Any other statement, preserved verbatim as source text.
    Opaque(String),
}

/// A function declaration.
#[derive(Debug, PartialEq, Eq)]
pub struct FunctionDecl {
    /// The function's own identifier text.
    pub identifier: String,
    /// The parameters, in declared order.
    pub parameters: Vec<Parameter>,
    /// The attributes already on the declaration.
    pub attributes: Vec<Attribute>,
    /// The body, in order.
    pub body: Vec<Statement>,
}

/// A data-type definition: a struct, enum or union. The pass only ever
/// touches its attribute list, so the fields themselves are not modelled.
#[derive(Clone, Debug, PartialEq, Eq)]
pub struct DataTypeDecl {
    pub kind: DataTypeKind,
    /// The attributes already on the definition.
    pub attributes: Vec<Attribute>,
}

/// Any other declaration. Its own text is passed through unchanged, but it
/// may open a nested scope (a module, say) whose declarations the walker
/// still visits.
#[derive(Debug, PartialEq, Eq)]
pub struct OtherDecl {
    /// The declaration's source text, preserved verbatim.
    pub description: String,
    /// The declarations of the nested scope, if the declaration opens one.
    pub children: Vec<Declaration>,
}

/// The shape of a declaration.
#[derive(Debug, PartialEq, Eq)]
pub enum DeclarationKind {
    Function(FunctionDecl),
    DataType(DataTypeDecl),
    Other(OtherDecl),
}

/// One declaration of the tree.
#[derive(Debug, PartialEq, Eq)]
pub struct Declaration {
    /// The declaration's own verification annotation, if it has one:
    /// `None` for no annotation, `Some` of the argument list otherwise (a
    /// bare annotation carries an empty list).
    pub annotation: Option<Vec<AnnotationArg>>,
    /// The inertness marker: set once a configuration has been resolved
    /// for this declaration, making it inert to every later pass.
    pub checked: bool,
    pub kind: DeclarationKind,
}

/// The mathematical value of a [`FunctionDecl`].
pub ghost struct FunctionV {
    pub identifier: Seq<char>,
    pub parameters: Seq<ParamV>,
    pub attributes: Seq<Seq<char>>,
    pub body: Seq<StmtV>,
}

/// The mathematical value of a [`DataTypeDecl`].
pub ghost struct DataTypeV {
    pub kind: DataTypeKind,
    pub attributes: Seq<Seq<char>>,
}

/// The mathematical value of an [`OtherDecl`].
pub ghost struct OtherV {
    pub description: Seq<char>,
    pub children: Seq<DeclV>,
}

/// The mathematical value of a [`DeclarationKind`].
pub ghost enum DeclKindV {
    Function(FunctionV),
    DataType(DataTypeV),
    Other(OtherV),
}

/// The mathematical value of a [`Declaration`].
pub ghost struct DeclV {
    pub annotation: Option<Seq<ArgV>>,
    pub checked: bool,
    pub kind: DeclKindV,
}

/// The mathematical value of a [`Statement`].
pub ghost enum StmtV {
    VerifyValue(Tag, u64),
    VerifyHashOf(Tag, Seq<char>),
    Nested(DeclV),
    Opaque(Seq<char>),
}

impl DeepView for Statement {
    type V = StmtV;

    open spec fn deep_view(&self) -> StmtV
        decreases self,
    {
        match self {
            Statement::VerifyValue(t, v) => StmtV::VerifyValue(*t, *v),
            Statement::VerifyHashOf(t, b) => StmtV::VerifyHashOf(*t, b@),
            Statement::Nested(d) => StmtV::Nested((**d).deep_view()),
            Statement::Opaque(s) => StmtV::Opaque(s@),
        }
    }
}

/// The mathematical values of a sequence of statements, in order.
pub open spec fn stmts_dv(s: Seq<Statement>) -> Seq<StmtV>
    decreases s,
{
    if s.len() == 0 {
        Seq::empty()
    } else {
        proof {
            vstd::seq::axiom_seq_index_decreases::<Statement>(s, 0);
            vstd::seq::axiom_seq_subrange_decreases::<Statement>(s, 1, s.len() as int);
        }
        seq![s[0].deep_view()] + stmts_dv(s.drop_first())
    }
}

/// The mathematical values of a sequence of declarations, in order.
pub open spec fn decls_dv(s: Seq<Declaration>) -> Seq<DeclV>
    decreases s,
{
    if s.len() == 0 {
        Seq::empty()
    } else {
        proof {
            vstd::seq::axiom_seq_index_decreases::<Declaration>(s, 0);
            vstd::seq::axiom_seq_subrange_decreases::<Declaration>(s, 1, s.len() as int);
        }
        seq![s[0].deep_view()] + decls_dv(s.drop_first())
    }
}

impl DeepView for FunctionDecl {
    type V = FunctionV;

    open spec fn deep_view(&self) -> FunctionV
        decreases self,
    {
        FunctionV {
            identifier: self.identifier@,
            parameters: self.parameters.deep_view(),
            attributes: self.attributes.deep_view(),
            body: stmts_dv(self.body@),
        }
    }
}

impl DeepView for DataTypeDecl {
    type V = DataTypeV;

    open spec fn deep_view(&self) -> DataTypeV {
        DataTypeV { kind: self.kind, attributes: self.attributes.deep_view() }
    }
}

impl DeepView for OtherDecl {
    type V = OtherV;

    open spec fn deep_view(&self) -> OtherV
        decreases self,
    {
        OtherV { description: self.description@, children: decls_dv(self.children@) }
    }
}

impl DeepView for DeclarationKind {
    type V = DeclKindV;

    open spec fn deep_view(&self) -> DeclKindV
        decreases self,
    {
        match self {
            DeclarationKind::Function(f) => DeclKindV::Function(f.deep_view()),
            DeclarationKind::DataType(d) => DeclKindV::DataType(d.deep_view()),
            DeclarationKind::Other(o) => DeclKindV::Other(o.deep_view()),
        }
    }
}

/// `stmts_dv` is the pointwise mathematical value of the statements.
pub proof fn lemma_stmts_dv(s: Seq<Statement>)
    ensures
        stmts_dv(s).len() == s.len(),
        forall|i: int| 0 <= i < s.len() ==> stmts_dv(s)[i] == s[i].deep_view(),
    decreases s,
{
    if s.len() > 0 {
        vstd::seq::axiom_seq_subrange_decreases::<Statement>(s, 1, s.len() as int);
        lemma_stmts_dv(s.drop_first());
        assert(stmts_dv(s) == seq![s[0].deep_view()] + stmts_dv(s.drop_first()));
        assert forall|i: int| 0 <= i < s.len() implies stmts_dv(s)[i] == s[i].deep_view() by {
            if i > 0 {
                assert(s.drop_first()[i - 1] == s[i]);
                assert(stmts_dv(s)[i] == stmts_dv(s.drop_first())[i - 1]);
            }
        }
    }
}

/// `decls_dv` is the pointwise mathematical value of the declarations.
pub proof fn lemma_decls_dv(s: Seq<Declaration>)
    ensures
        decls_dv(s).len() == s.len(),
        forall|i: int| 0 <= i < s.len() ==> decls_dv(s)[i] == s[i].deep_view(),
    decreases s,
{
    if s.len() > 0 {
        vstd::seq::axiom_seq_subrange_decreases::<Declaration>(s, 1, s.len() as int);
        lemma_decls_dv(s.drop_first());
        assert(decls_dv(s) == seq![s[0].deep_view()] + decls_dv(s.drop_first()));
        assert forall|i: int| 0 <= i < s.len() implies decls_dv(s)[i] == s[i].deep_view() by {
            if i > 0 {
                assert(s.drop_first()[i - 1] == s[i]);
                assert(decls_dv(s)[i] == decls_dv(s.drop_first())[i - 1]);
            }
        }
    }
}

impl DeepView for Declaration {
    type V = DeclV;

    open spec fn deep_view(&self) -> DeclV
        decreases self,
    {
        DeclV {
            annotation: self.annotation.deep_view(),
            checked: self.checked,
            kind: self.kind.deep_view(),
        }
    }
}

} // verus!
