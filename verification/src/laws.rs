//! The guarantees of the pass, stated and proved once and for all.
//!
//! Each proof function here states one law of the transformation over the
//! mathematical model: how the check identifier is chosen, that disabling
//! is a structural no-op, how data types are augmented, in what order the
//! synthesized calls stand, and that walking a tree a second time changes
//! nothing.

use vstd::prelude::*;

use crate::config::{ArgV, ConfigErrorV, ConfigV, default_config, spec_resolve};
use crate::fault::TransformErrorV;
use crate::hash::spec_derive;
use crate::inject::{arg_checks, entry_stmt, hash_capability_attr, spec_check_id, spec_inject};
use crate::tree::{DataTypeV, DeclKindV, DeclV, FunctionV, OtherV, ParamV, StmtV, Tag};
use crate::walk::{spec_walk_decl, spec_walk_decls, spec_walk_kind, spec_walk_stmts};

verus! {

broadcast use vstd::seq::group_seq_axioms;

/// Deriving an identifier is deterministic: it is a function of the
/// string's characters alone, so two derivations from equal strings, in
/// whatever run or on whatever machine, agree.
pub proof fn lemma_derive_deterministic(s1: Seq<char>, s2: Seq<char>, r1: u32, r2: u32)
    requires
        s1 == s2,
        r1 == spec_derive(s1),
        r2 == spec_derive(s2),
    ensures
        r1 == r2,
{
}

/// An explicit `id` wins over an explicit `name`: a declaration annotated
/// with both gets the literal identifier, never the hash of the name.
pub proof fn lemma_id_takes_precedence(x: Seq<char>, v: u32, ident: Seq<char>)
    ensures
        ({
            let r = spec_resolve(seq![ArgV::Name(x), ArgV::Id(v as u128)]);
            &&& r is Ok
            &&& spec_check_id(r->Ok_0, ident) == v
        }),
{
    reveal_with_fuel(crate::config::resolve_from, 4);
    let args = seq![ArgV::Name(x), ArgV::Id(v as u128)];
    assert(args.drop_first() =~= seq![ArgV::Id(v as u128)]);
    assert(args.drop_first().drop_first() =~= Seq::<ArgV>::empty());
}

/// An explicit `name` with no explicit `id` wins over the declaration's
/// own identifier text: the check identifier is the hash of the name.
pub proof fn lemma_name_over_identifier(x: Seq<char>, ident: Seq<char>)
    ensures
        ({
            let r = spec_resolve(seq![ArgV::Name(x)]);
            &&& r is Ok
            &&& spec_check_id(r->Ok_0, ident) == spec_derive(x)
        }),
{
    reveal_with_fuel(crate::config::resolve_from, 3);
    let args = seq![ArgV::Name(x)];
    assert(args.drop_first() =~= Seq::<ArgV>::empty());
}

/// A bare annotation derives the check identifier from the function's own
/// identifier text.
pub proof fn lemma_bare_annotation_uses_identifier(ident: Seq<char>)
    ensures
        ({
            let r = spec_resolve(Seq::<ArgV>::empty());
            &&& r is Ok
            &&& r->Ok_0 == default_config()
            &&& spec_check_id(r->Ok_0, ident) == spec_derive(ident)
        }),
{
}

/// A declaration carrying its own annotation resolves that annotation and
/// nothing else: whatever policy an enclosing scope put in force cannot
/// change what the declaration becomes.
pub proof fn lemma_own_annotation_wins(d: DeclV, i1: bool, i2: bool, check_args: bool)
    requires
        d.annotation is Some,
    ensures
        spec_walk_decl(d, i1, check_args) == spec_walk_decl(d, i2, check_args),
{
}

/// Resolving to `enabled = false` is a structural no-op: the declaration
/// afterwards is identical, subtree included, but for the inertness
/// marker.
pub proof fn lemma_disable_is_structural_noop(
    d: DeclV,
    inherited: bool,
    check_args: bool,
    c: ConfigV,
)
    requires
        !d.checked,
        d.annotation matches Some(args) && spec_resolve(args) == Ok::<ConfigV, ConfigErrorV>(c),
        !c.enabled,
    ensures
        spec_walk_decl(d, inherited, check_args) == Ok::<DeclV, TransformErrorV>(
            DeclV { checked: true, ..d },
        ),
{
}

/// Every struct, enum or union that the walker reaches under an enabling
/// configuration — its own annotation or an enclosing scope's policy —
/// gains exactly one hash-derivation marker, appended after the attributes
/// it already had.
pub proof fn lemma_data_type_augmented(
    d: DeclV,
    inherited: bool,
    check_args: bool,
    t: DataTypeV,
)
    requires
        !d.checked,
        d.kind == DeclKindV::DataType(t),
        ({
            ||| (d.annotation matches Some(args) && spec_resolve(args) matches Ok(c) && c.enabled)
            ||| (d.annotation is None && inherited)
        }),
    ensures
        spec_walk_decl(d, inherited, check_args) == Ok::<DeclV, TransformErrorV>(
            DeclV {
                checked: true,
                kind: DeclKindV::DataType(
                    DataTypeV {
                        kind: t.kind,
                        attributes: t.attributes.push(hash_capability_attr()),
                    },
                ),
                ..d
            },
        ),
{
}

/// When every parameter is bound to a simple name, the synthesized
/// per-argument calls exist, one per parameter, in declared order.
pub proof fn lemma_arg_checks_named(params: Seq<ParamV>)
    requires
        forall|j: int| 0 <= j < params.len() ==> params[j] is Named,
    ensures
        ({
            let r = arg_checks(params);
            &&& r is Ok
            &&& r->Ok_0.len() == params.len()
            &&& forall|j: int|
                0 <= j < params.len() ==> r->Ok_0[j] == StmtV::VerifyHashOf(
                    Tag::FunctionArgument,
                    params[j]->Named_0,
                )
        }),
    decreases params,
{
    if params.len() > 0 {
        lemma_arg_checks_named(params.drop_first());
        let rest = arg_checks(params.drop_first())->Ok_0;
        assert(arg_checks(params)->Ok_0 == seq![
            StmtV::VerifyHashOf(Tag::FunctionArgument, params[0]->Named_0),
        ] + rest);
        assert forall|j: int| 0 <= j < params.len() implies arg_checks(params)->Ok_0[j]
            == StmtV::VerifyHashOf(Tag::FunctionArgument, params[j]->Named_0) by {
            if j > 0 {
                assert(params.drop_first()[j - 1] == params[j]);
            }
        }
    }
}

/// The order of the instrumented body, when per-argument checks are on
/// and every parameter is a simple name: the single entry call first,
/// then one check per parameter in declared parameter order, then the
/// original body, and nothing else.
pub proof fn lemma_argument_check_ordering(f: FunctionV, c: ConfigV)
    requires
        forall|j: int| 0 <= j < f.parameters.len() ==> f.parameters[j] is Named,
    ensures
        ({
            let r = spec_inject(f, c, true);
            &&& r is Ok
            &&& r->Ok_0.body.len() == 1 + f.parameters.len() + f.body.len()
            &&& r->Ok_0.body[0] == entry_stmt(spec_check_id(c, f.identifier))
            &&& forall|j: int|
                0 <= j < f.parameters.len() ==> r->Ok_0.body[1 + j] == StmtV::VerifyHashOf(
                    Tag::FunctionArgument,
                    f.parameters[j]->Named_0,
                )
            &&& forall|j: int|
                0 <= j < f.body.len() ==> r->Ok_0.body[1 + f.parameters.len() + j] == f.body[j]
        }),
{
    lemma_arg_checks_named(f.parameters);
}

/// Without the pass-wide argument-checking switch, the instrumented body
/// is exactly the entry call carrying the check identifier, followed by
/// the original body.
pub proof fn lemma_entry_call_first(f: FunctionV, c: ConfigV)
    ensures
        ({
            let r = spec_inject(f, c, false);
            &&& r is Ok
            &&& r->Ok_0 == (FunctionV {
                body: seq![entry_stmt(spec_check_id(c, f.identifier))] + f.body,
                ..f
            })
        }),
{
}

/// A successful walk of a scope's declarations is their pointwise walk:
/// each output declaration is the walk of the input declaration in the
/// same position, and every one of those walks succeeded.
pub proof fn lemma_walk_decls_pointwise(c: Seq<DeclV>, inherited: bool, check_args: bool)
    ensures
        spec_walk_decls(c, inherited, check_args) matches Ok(c2) ==> {
            &&& c2.len() == c.len()
            &&& forall|j: int|
                0 <= j < c.len() ==> spec_walk_decl(c[j], inherited, check_args) == Ok::<
                    DeclV,
                    TransformErrorV,
                >(c2[j])
        },
    decreases c,
{
    if c.len() > 0 {
        vstd::seq::axiom_seq_subrange_decreases::<DeclV>(c, 1, c.len() as int);
        lemma_walk_decls_pointwise(c.drop_first(), inherited, check_args);
        if let Ok(c2) = spec_walk_decls(c, inherited, check_args) {
            let rest2 = spec_walk_decls(c.drop_first(), inherited, check_args)->Ok_0;
            assert forall|j: int|
                0 <= j < c.len() implies spec_walk_decl(c[j], inherited, check_args) == Ok::<
                DeclV,
                TransformErrorV,
            >(c2[j]) by {
                if j > 0 {
                    assert(c.drop_first()[j - 1] == c[j]);
                    assert(c2[j] == rest2[j - 1]);
                }
            }
        }
    }
}

/// The override escape, whole: under a scope carrying an enabling
/// annotation every child is walked with the policy in force, and a child
/// that carries its own annotation is transformed from that annotation
/// alone — as it would be under any policy at all.
pub proof fn lemma_scope_children(
    d: DeclV,
    o: OtherV,
    c: ConfigV,
    inherited: bool,
    check_args: bool,
    j: int,
)
    requires
        !d.checked,
        d.annotation matches Some(args) && spec_resolve(args) == Ok::<ConfigV, ConfigErrorV>(c),
        c.enabled,
        d.kind == DeclKindV::Other(o),
        spec_walk_decl(d, inherited, check_args) is Ok,
        0 <= j < o.children.len(),
    ensures
        ({
            let out = spec_walk_decl(d, inherited, check_args)->Ok_0;
            &&& out.kind is Other
            &&& out.kind->Other_0.children.len() == o.children.len()
            &&& spec_walk_decl(o.children[j], true, check_args) == Ok::<DeclV, TransformErrorV>(
                out.kind->Other_0.children[j],
            )
            &&& o.children[j].annotation is Some ==> spec_walk_decl(
                o.children[j],
                false,
                check_args,
            ) == Ok::<DeclV, TransformErrorV>(out.kind->Other_0.children[j])
        }),
{
    lemma_walk_decls_pointwise(o.children, true, check_args);
    if o.children[j].annotation is Some {
        lemma_own_annotation_wins(o.children[j], true, false, check_args);
    }
}

/// Walking a tree a second time, under the same options, changes nothing:
/// every declaration is instrumented exactly once, however many passes
/// run over it.
pub proof fn lemma_walk_decl_idempotent(d: DeclV, inherited: bool, check_args: bool)
    ensures
        spec_walk_decl(d, inherited, check_args) matches Ok(d2) ==> spec_walk_decl(
            d2,
            inherited,
            check_args,
        ) == Ok::<DeclV, TransformErrorV>(d2),
    decreases d,
{
    if !d.checked && d.annotation is None && !inherited {
        lemma_walk_kind_idempotent(d.kind, check_args);
    }
}

/// Walking a declaration's shape with no configuration in force is
/// idempotent.
pub proof fn lemma_walk_kind_idempotent(k: DeclKindV, check_args: bool)
    ensures
        spec_walk_kind(k, check_args) matches Ok(k2) ==> spec_walk_kind(k2, check_args) == Ok::<
            DeclKindV,
            TransformErrorV,
        >(k2),
    decreases k,
{
    match k {
        DeclKindV::Function(f) => {
            lemma_walk_stmts_idempotent(f.body, false, check_args);
        },
        DeclKindV::DataType(_) => {},
        DeclKindV::Other(o) => {
            lemma_walk_decls_idempotent(o.children, false, check_args);
        },
    }
}

/// Walking a body's statements a second time, under the same policy,
/// changes nothing.
pub proof fn lemma_walk_stmts_idempotent(b: Seq<StmtV>, inherited: bool, check_args: bool)
    ensures
        spec_walk_stmts(b, inherited, check_args) matches Ok(b2) ==> spec_walk_stmts(
            b2,
            inherited,
            check_args,
        ) == Ok::<Seq<StmtV>, TransformErrorV>(b2),
    decreases b,
{
    if b.len() > 0 {
        vstd::seq::axiom_seq_index_decreases::<StmtV>(b, 0);
        vstd::seq::axiom_seq_subrange_decreases::<StmtV>(b, 1, b.len() as int);
        if let StmtV::Nested(d) = b[0] {
            lemma_walk_decl_idempotent(d, inherited, check_args);
        }
        lemma_walk_stmts_idempotent(b.drop_first(), inherited, check_args);
        if let Ok(b2) = spec_walk_stmts(b, inherited, check_args) {
            let rest2 = spec_walk_stmts(b.drop_first(), inherited, check_args)->Ok_0;
            assert(b2.drop_first() =~= rest2);
            assert(b2[0] == (match b[0] {
                StmtV::Nested(d) => StmtV::Nested(
                    spec_walk_decl(d, inherited, check_args)->Ok_0,
                ),
                s => s,
            }));
            let second = spec_walk_stmts(b2, inherited, check_args);
            assert(second == Ok::<Seq<StmtV>, TransformErrorV>(
                seq![b2[0]] + b2.drop_first(),
            ));
            assert(seq![b2[0]] + b2.drop_first() =~= b2);
        }
    }
}

/// Walking a scope's declarations a second time, under the same policy,
/// changes nothing.
pub proof fn lemma_walk_decls_idempotent(c: Seq<DeclV>, inherited: bool, check_args: bool)
    ensures
        spec_walk_decls(c, inherited, check_args) matches Ok(c2) ==> spec_walk_decls(
            c2,
            inherited,
            check_args,
        ) == Ok::<Seq<DeclV>, TransformErrorV>(c2),
    decreases c,
{
    if c.len() > 0 {
        vstd::seq::axiom_seq_index_decreases::<DeclV>(c, 0);
        vstd::seq::axiom_seq_subrange_decreases::<DeclV>(c, 1, c.len() as int);
        lemma_walk_decl_idempotent(c[0], inherited, check_args);
        lemma_walk_decls_idempotent(c.drop_first(), inherited, check_args);
        if let Ok(c2) = spec_walk_decls(c, inherited, check_args) {
            let rest2 = spec_walk_decls(c.drop_first(), inherited, check_args)->Ok_0;
            assert(c2.drop_first() =~= rest2);
            assert(c2[0] == spec_walk_decl(c[0], inherited, check_args)->Ok_0);
            let second = spec_walk_decls(c2, inherited, check_args);
            assert(second == Ok::<Seq<DeclV>, TransformErrorV>(seq![c2[0]] + c2.drop_first()));
            assert(seq![c2[0]] + c2.drop_first() =~= c2);
        }
    }
}

} // verus!
