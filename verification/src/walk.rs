//! The tree walker: the orchestration layer of the pass.
//!
//! The walker visits every declaration in document order, depth first. Per
//! declaration:
//!
//! 1. A declaration already carrying the inertness marker is left exactly
//!    as it stands, its whole subtree included: it was dealt with when the
//!    marker was set, and must not be wrapped a second time by a broader
//!    pass. A narrower, explicitly annotated declaration therefore always
//!    escapes an enclosing blanket annotation.
//! 2. A declaration with its own annotation resolves that annotation and
//!    wins outright over any inherited policy. One without an annotation is
//!    treated as implicitly carrying a bare annotation when an enclosing
//!    scope's enabling policy is in force, and is otherwise left as it is
//!    (though its nested scopes are still visited).
//! 3. A declaration whose resolved configuration is disabled keeps its
//!    structure untouched and only gains the inertness marker.
//! 4. Otherwise functions are handed to the instrumentation injector, data
//!    types to the data-type annotator, and everything else is passed
//!    through; nested scopes are visited with the enabling policy in
//!    force. Only the pre-transformation children are visited: synthesized
//!    wrapper code is never re-walked.
//!
//! The walk is a pure function from tree to tree; the first unresolvable
//! annotation or unsupported parameter aborts it with no partial output.

use vstd::prelude::*;

use crate::config::{Configuration, default_config, resolve, spec_resolve};
use crate::fault::{TransformError, TransformErrorV, from_config_error, spec_from_config_error};
use crate::inject::{annotate_data_type, hash_capability_attr, inject, spec_inject};
use crate::tree::{
    DataTypeV, DeclKindV, DeclV, Declaration, DeclarationKind, FunctionDecl, FunctionV, OtherDecl,
    OtherV, Statement, StmtV, decls_dv, lemma_decls_dv, lemma_stmts_dv, stmts_dv,
};

verus! {

broadcast use vstd::std_specs::vec::group_vec_axioms, vstd::seq::group_seq_axioms;

/// The pass-wide options, fixed when the host toolchain builds the pass:
/// whether instrumented functions also report a hash of each argument.
#[derive(Clone, Copy, Debug, PartialEq, Eq, Structural)]
pub struct PassOptions {
    pub check_args: bool,
}

/// What the walker makes of one declaration, given the resolved
/// configuration that enabled it: functions get the injector, data types
/// get the hash-derivation marker, anything else keeps its own text while
/// its nested scope, like every scope below an enabling policy, is walked
/// with that policy in force.
pub open spec fn spec_instrument_kind(
    k: DeclKindV,
    c: crate::config::ConfigV,
    check_args: bool,
) -> Result<DeclKindV, TransformErrorV>
    decreases k,
{
    match k {
        DeclKindV::Function(f) => match spec_walk_stmts(f.body, true, check_args) {
            Ok(b2) => match spec_inject(FunctionV { body: b2, ..f }, c, check_args) {
                Ok(f2) => Ok(DeclKindV::Function(f2)),
                Err(e) => Err(e),
            },
            Err(e) => Err(e),
        },
        DeclKindV::DataType(t) => Ok(
            DeclKindV::DataType(
                DataTypeV { kind: t.kind, attributes: t.attributes.push(hash_capability_attr()) },
            ),
        ),
        DeclKindV::Other(o) => match spec_walk_decls(o.children, true, check_args) {
            Ok(cs) => Ok(DeclKindV::Other(OtherV { children: cs, ..o })),
            Err(e) => Err(e),
        },
    }
}

/// The walk of a declaration that carries no configuration at all: its own
/// structure stands, but its nested scopes are still visited, with no
/// enabling policy in force.
pub open spec fn spec_walk_kind(k: DeclKindV, check_args: bool) -> Result<
    DeclKindV,
    TransformErrorV,
>
    decreases k,
{
    match k {
        DeclKindV::Function(f) => match spec_walk_stmts(f.body, false, check_args) {
            Ok(b2) => Ok(DeclKindV::Function(FunctionV { body: b2, ..f })),
            Err(e) => Err(e),
        },
        DeclKindV::DataType(t) => Ok(DeclKindV::DataType(t)),
        DeclKindV::Other(o) => match spec_walk_decls(o.children, false, check_args) {
            Ok(cs) => Ok(DeclKindV::Other(OtherV { children: cs, ..o })),
            Err(e) => Err(e),
        },
    }
}

/// The walk of one declaration under the nearest enclosing policy:
/// `inherited` says whether an enclosing scope's enabling annotation is in
/// force.
pub open spec fn spec_walk_decl(d: DeclV, inherited: bool, check_args: bool) -> Result<
    DeclV,
    TransformErrorV,
>
    decreases d,
{
    if d.checked {
        Ok(d)
    } else {
        match d.annotation {
            Some(args) => match spec_resolve(args) {
                Ok(c) => if !c.enabled {
                    Ok(DeclV { checked: true, ..d })
                } else {
                    match spec_instrument_kind(d.kind, c, check_args) {
                        Ok(k2) => Ok(DeclV { checked: true, kind: k2, ..d }),
                        Err(e) => Err(e),
                    }
                },
                Err(e) => Err(spec_from_config_error(e)),
            },
            None => if inherited {
                match spec_instrument_kind(d.kind, default_config(), check_args) {
                    Ok(k2) => Ok(DeclV { checked: true, kind: k2, ..d }),
                    Err(e) => Err(e),
                }
            } else {
                match spec_walk_kind(d.kind, check_args) {
                    Ok(k2) => Ok(DeclV { kind: k2, ..d }),
                    Err(e) => Err(e),
                }
            },
        }
    }
}

/// The walk of a body's statements, in order: nested declarations are
/// walked, everything else is carried over verbatim; the first failure
/// aborts.
pub open spec fn spec_walk_stmts(b: Seq<StmtV>, inherited: bool, check_args: bool) -> Result<
    Seq<StmtV>,
    TransformErrorV,
>
    decreases b,
{
    if b.len() == 0 {
        Ok(Seq::empty())
    } else {
        let head = match b[0] {
            StmtV::Nested(d) => match spec_walk_decl(d, inherited, check_args) {
                Ok(d2) => Ok(StmtV::Nested(d2)),
                Err(e) => Err(e),
            },
            s => Ok(s),
        };
        match head {
            Ok(s0) => match spec_walk_stmts(b.drop_first(), inherited, check_args) {
                Ok(rest) => Ok(seq![s0] + rest),
                Err(e) => Err(e),
            },
            Err(e) => Err(e),
        }
    }
}

/// The walk of a scope's declarations, in document order; the first
/// failure aborts.
pub open spec fn spec_walk_decls(c: Seq<DeclV>, inherited: bool, check_args: bool) -> Result<
    Seq<DeclV>,
    TransformErrorV,
>
    decreases c,
{
    if c.len() == 0 {
        Ok(Seq::empty())
    } else {
        match spec_walk_decl(c[0], inherited, check_args) {
            Ok(d2) => match spec_walk_decls(c.drop_first(), inherited, check_args) {
                Ok(rest) => Ok(seq![d2] + rest),
                Err(e) => Err(e),
            },
            Err(e) => Err(e),
        }
    }
}

/// The mathematical value of a walk result over one declaration.
pub open spec fn decl_result_view(r: Result<Declaration, TransformError>) -> Result<
    DeclV,
    TransformErrorV,
> {
    match r {
        Ok(d) => Ok(d.deep_view()),
        Err(e) => Err(e.deep_view()),
    }
}

/// The mathematical value of a walk result over a declaration's shape.
pub open spec fn kind_result_view(r: Result<DeclarationKind, TransformError>) -> Result<
    DeclKindV,
    TransformErrorV,
> {
    match r {
        Ok(k) => Ok(k.deep_view()),
        Err(e) => Err(e.deep_view()),
    }
}

/// The mathematical value of a walk result over statements.
pub open spec fn stmts_result_view(r: Result<Vec<Statement>, TransformError>) -> Result<
    Seq<StmtV>,
    TransformErrorV,
> {
    match r {
        Ok(v) => Ok(stmts_dv(v@)),
        Err(e) => Err(e.deep_view()),
    }
}

/// The mathematical value of a walk result over declarations.
pub open spec fn decls_result_view(r: Result<Vec<Declaration>, TransformError>) -> Result<
    Seq<DeclV>,
    TransformErrorV,
> {
    match r {
        Ok(v) => Ok(decls_dv(v@)),
        Err(e) => Err(e.deep_view()),
    }
}

/// Instruments one declaration's shape under an enabling configuration.
fn instrument_kind(k: DeclarationKind, config: &Configuration, check_args: bool) -> (r: Result<
    DeclarationKind,
    TransformError,
>)
    ensures
        kind_result_view(r) == spec_instrument_kind(
            k.deep_view(),
            config.deep_view(),
            check_args,
        ),
    decreases k,
{
    match k {
        DeclarationKind::Function(f) => {
            let FunctionDecl { identifier, parameters, attributes, body } = f;
            match walk_statements(body, true, check_args) {
                Ok(b2) => {
                    match inject(
                        FunctionDecl { identifier, parameters, attributes, body: b2 },
                        config,
                        check_args,
                    ) {
                        Ok(f2) => Ok(DeclarationKind::Function(f2)),
                        Err(e) => Err(e),
                    }
                },
                Err(e) => Err(e),
            }
        },
        DeclarationKind::DataType(t) => Ok(DeclarationKind::DataType(annotate_data_type(t))),
        DeclarationKind::Other(o) => {
            let OtherDecl { description, children } = o;
            match walk_declarations(children, true, check_args) {
                Ok(cs) => Ok(DeclarationKind::Other(OtherDecl { description, children: cs })),
                Err(e) => Err(e),
            }
        },
    }
}

/// Walks one declaration's nested scopes when no configuration is in
/// force, leaving its own structure as it stands.
fn walk_kind(k: DeclarationKind, check_args: bool) -> (r: Result<DeclarationKind, TransformError>)
    ensures
        kind_result_view(r) == spec_walk_kind(k.deep_view(), check_args),
    decreases k,
{
    match k {
        DeclarationKind::Function(f) => {
            let FunctionDecl { identifier, parameters, attributes, body } = f;
            match walk_statements(body, false, check_args) {
                Ok(b2) => Ok(
                    DeclarationKind::Function(
                        FunctionDecl { identifier, parameters, attributes, body: b2 },
                    ),
                ),
                Err(e) => Err(e),
            }
        },
        DeclarationKind::DataType(t) => Ok(DeclarationKind::DataType(t)),
        DeclarationKind::Other(o) => {
            let OtherDecl { description, children } = o;
            match walk_declarations(children, false, check_args) {
                Ok(cs) => Ok(DeclarationKind::Other(OtherDecl { description, children: cs })),
                Err(e) => Err(e),
            }
        },
    }
}

/// Walks one declaration under the nearest enclosing policy, exactly as
/// [`spec_walk_decl`] says: an inert declaration stands untouched, an
/// explicit annotation wins over the inherited policy, a disabled
/// declaration only gains the inertness marker, and an enabled one is
/// instrumented in place.
pub fn transform_declaration(d: Declaration, inherited: bool, check_args: bool) -> (r: Result<
    Declaration,
    TransformError,
>)
    ensures
        decl_result_view(r) == spec_walk_decl(d.deep_view(), inherited, check_args),
    decreases d,
{
    if d.checked {
        return Ok(d);
    }
    let Declaration { annotation, checked, kind } = d;
    match annotation {
        Some(args) => {
            match resolve(&args) {
                Ok(cfg) => {
                    if !cfg.enabled {
                        Ok(Declaration { annotation: Some(args), checked: true, kind })
                    } else {
                        match instrument_kind(kind, &cfg, check_args) {
                            Ok(k2) => Ok(
                                Declaration { annotation: Some(args), checked: true, kind: k2 },
                            ),
                            Err(e) => Err(e),
                        }
                    }
                },
                Err(e) => Err(from_config_error(e)),
            }
        },
        None => {
            if inherited {
                let cfg = Configuration { enabled: true, name: None, id: None };
                match instrument_kind(kind, &cfg, check_args) {
                    Ok(k2) => Ok(Declaration { annotation: None, checked: true, kind: k2 }),
                    Err(e) => Err(e),
                }
            } else {
                match walk_kind(kind, check_args) {
                    Ok(k2) => Ok(Declaration { annotation: None, checked: false, kind: k2 }),
                    Err(e) => Err(e),
                }
            }
        },
    }
}

/// Walks a body's statements in order, transforming nested declarations
/// and carrying every other statement over verbatim.
pub fn walk_statements(stmts: Vec<Statement>, inherited: bool, check_args: bool) -> (r: Result<
    Vec<Statement>,
    TransformError,
>)
    ensures
        stmts_result_view(r) == spec_walk_stmts(stmts_dv(stmts@), inherited, check_args),
    decreases stmts,
{
    let ghost orig = stmts@;
    let mut rest = stmts;
    let mut out: Vec<Statement> = Vec::new();
    let ghost mut i: int = 0;
    proof {
        assert(orig.skip(0) =~= orig);
    }
    while rest.len() > 0
        invariant
            stmts@ == orig,
            0 <= i <= orig.len(),
            rest@ == orig.skip(i),
            spec_walk_stmts(stmts_dv(orig), inherited, check_args) == (match spec_walk_stmts(
                stmts_dv(rest@),
                inherited,
                check_args,
            ) {
                Ok(r) => Ok::<Seq<StmtV>, TransformErrorV>(stmts_dv(out@) + r),
                Err(e) => Err::<Seq<StmtV>, TransformErrorV>(e),
            }),
        decreases rest@.len(),
    {
        let ghost rest_before = rest@;
        let st = rest.remove(0);
        proof {
            assert(rest@ =~= rest_before.drop_first());
            assert(rest@ =~= orig.skip(i + 1));
            lemma_stmts_dv(rest_before);
            lemma_stmts_dv(rest@);
            assert(stmts_dv(rest_before)[0] == st.deep_view());
            assert(stmts_dv(rest_before).drop_first() =~= stmts_dv(rest@));
        }
        let ghost out_before = out@;
        match st {
            Statement::Nested(nested) => {
                proof {
                    assert(st == orig[i]);
                    vstd::seq::axiom_seq_index_decreases::<Statement>(orig, i);
                    assert(decreases_to!(stmts => *nested));
                }
                match transform_declaration(*nested, inherited, check_args) {
                    Ok(d2) => {
                        out.push(Statement::Nested(Box::new(d2)));
                    },
                    Err(e) => {
                        proof {
                            assert(spec_walk_decl((*nested).deep_view(), inherited, check_args)
                                == Err::<DeclV, TransformErrorV>(e.deep_view()));
                            assert(spec_walk_stmts(stmts_dv(rest_before), inherited, check_args)
                                == Err::<Seq<StmtV>, TransformErrorV>(e.deep_view()));
                        }
                        return Err(e);
                    },
                }
            },
            other => {
                out.push(other);
            },
        }
        proof {
            lemma_stmts_dv(out_before);
            lemma_stmts_dv(out@);
            assert(out@ =~= out_before.push(out@.last()));
            assert(stmts_dv(out@) =~= stmts_dv(out_before).push(out@.last().deep_view()));
            if let Ok(r) = spec_walk_stmts(stmts_dv(rest@), inherited, check_args) {
                assert(stmts_dv(out@) + r =~= stmts_dv(out_before) + (seq![
                    out@.last().deep_view(),
                ] + r));
            }
            i = i + 1;
        }
    }
    proof {
        assert(rest@ =~= Seq::<Statement>::empty());
        assert(stmts_dv(rest@) =~= Seq::<StmtV>::empty());
        if let Ok(r) = spec_walk_stmts(stmts_dv(rest@), inherited, check_args) {
            assert(stmts_dv(out@) + r =~= stmts_dv(out@));
        }
    }
    Ok(out)
}

/// Walks a scope's declarations in document order.
pub fn walk_declarations(decls: Vec<Declaration>, inherited: bool, check_args: bool) -> (r: Result<
    Vec<Declaration>,
    TransformError,
>)
    ensures
        decls_result_view(r) == spec_walk_decls(decls_dv(decls@), inherited, check_args),
    decreases decls,
{
    let ghost orig = decls@;
    let mut rest = decls;
    let mut out: Vec<Declaration> = Vec::new();
    let ghost mut i: int = 0;
    proof {
        assert(orig.skip(0) =~= orig);
    }
    while rest.len() > 0
        invariant
            decls@ == orig,
            0 <= i <= orig.len(),
            rest@ == orig.skip(i),
            spec_walk_decls(decls_dv(orig), inherited, check_args) == (match spec_walk_decls(
                decls_dv(rest@),
                inherited,
                check_args,
            ) {
                Ok(r) => Ok::<Seq<DeclV>, TransformErrorV>(decls_dv(out@) + r),
                Err(e) => Err::<Seq<DeclV>, TransformErrorV>(e),
            }),
        decreases rest@.len(),
    {
        let ghost rest_before = rest@;
        let d = rest.remove(0);
        proof {
            assert(rest@ =~= rest_before.drop_first());
            assert(rest@ =~= orig.skip(i + 1));
            lemma_decls_dv(rest_before);
            lemma_decls_dv(rest@);
            assert(decls_dv(rest_before)[0] == d.deep_view());
            assert(decls_dv(rest_before).drop_first() =~= decls_dv(rest@));
            assert(d == orig[i]);
        }
        let ghost out_before = out@;
        proof {
            vstd::seq::axiom_seq_index_decreases::<Declaration>(orig, i);
            assert(decreases_to!(decls => d));
        }
        match transform_declaration(d, inherited, check_args) {
            Ok(d2) => {
                out.push(d2);
            },
            Err(e) => {
                proof {
                    assert(spec_walk_decls(decls_dv(rest_before), inherited, check_args)
                        == Err::<Seq<DeclV>, TransformErrorV>(e.deep_view()));
                }
                return Err(e);
            },
        }
        proof {
            lemma_decls_dv(out_before);
            lemma_decls_dv(out@);
            assert(out@ =~= out_before.push(out@.last()));
            assert(decls_dv(out@) =~= decls_dv(out_before).push(out@.last().deep_view()));
            if let Ok(r) = spec_walk_decls(decls_dv(rest@), inherited, check_args) {
                assert(decls_dv(out@) + r =~= decls_dv(out_before) + (seq![
                    out@.last().deep_view(),
                ] + r));
            }
            i = i + 1;
        }
    }
    proof {
        assert(rest@ =~= Seq::<Declaration>::empty());
        assert(decls_dv(rest@) =~= Seq::<DeclV>::empty());
        if let Ok(r) = spec_walk_decls(decls_dv(rest@), inherited, check_args) {
            assert(decls_dv(out@) + r =~= decls_dv(out@));
        }
    }
    Ok(out)
}

/// Transforms a whole declaration tree: every declaration is visited in
/// document order with no enclosing policy in force, so only annotated
/// declarations (and the scopes below them) are instrumented. The first
/// unresolvable annotation or unsupported parameter aborts the pass with
/// no partial output.
pub fn transform(tree: Vec<Declaration>, options: &PassOptions) -> (r: Result<
    Vec<Declaration>,
    TransformError,
>)
    ensures
        decls_result_view(r) == spec_walk_decls(decls_dv(tree@), false, options.check_args),
{
    walk_declarations(tree, false, options.check_args)
}

} // verus!


