//! The instrumentation injector and the data-type annotator.
//!
//! Given a function declaration and a resolved configuration, the injector
//! determines the check identifier, optionally synthesizes one verification
//! call per parameter, and wraps the function's body: the entry call first,
//! then the per-argument calls in declared parameter order, then the
//! original body, with no other change. The data-type annotator appends the
//! hash-derivation capability marker to a struct, enum or union definition.

use vstd::prelude::*;

use crate::config::{ConfigV, Configuration};
use crate::fault::{TransformError, TransformErrorV};
use crate::hash::{djb2_hash, spec_derive};
use crate::tree::{
    Attribute, DataTypeDecl, DataTypeV, FunctionDecl, FunctionV, ParamV, Parameter, Statement,
    StmtV, Tag, lemma_stmts_dv, stmts_dv,
};

verus! {

broadcast use vstd::std_specs::vec::group_vec_axioms, vstd::seq::group_seq_axioms;

/// The check identifier a configuration determines for a function whose
/// own identifier text is `ident`: the explicit id if one was given, else
/// the hash of the explicit name if one was given, else the hash of the
/// function's own identifier.
pub open spec fn spec_check_id(c: ConfigV, ident: Seq<char>) -> u32 {
    match c.id {
        Some(v) => v,
        None => match c.name {
            Some(n) => spec_derive(n),
            None => spec_derive(ident),
        },
    }
}

/// Determines the check identifier of a function under a resolved
/// configuration: the explicit `id` takes precedence over the explicit
/// `name`, which takes precedence over the function's own identifier text.
pub fn check_id(config: &Configuration, identifier: &str) -> (r: u32)
    ensures
        r == spec_check_id(config.deep_view(), identifier@),
{
    match &config.id {
        Some(v) => *v,
        None => match &config.name {
            Some(n) => djb2_hash(n.as_str()),
            None => djb2_hash(identifier),
        },
    }
}

/// The entry verification call of an instrumented function, carrying its
/// check identifier as a literal constant.
pub open spec fn entry_stmt(id: u32) -> StmtV {
    StmtV::VerifyValue(Tag::FunctionEntry, id as u64)
}

/// The per-argument verification calls for the given parameters, in
/// declared order, or the description of the first parameter that is not
/// bound to a simple name.
pub open spec fn arg_checks(params: Seq<ParamV>) -> Result<Seq<StmtV>, Seq<char>>
    decreases params,
{
    if params.len() == 0 {
        Ok(Seq::empty())
    } else {
        match params[0] {
            ParamV::Named(n) => match arg_checks(params.drop_first()) {
                Ok(rest) => Ok(seq![StmtV::VerifyHashOf(Tag::FunctionArgument, n)] + rest),
                Err(d) => Err(d),
            },
            ParamV::Destructured(d) => Err(d),
        }
    }
}

/// The per-argument calls actually synthesized: none at all unless the
/// pass-wide argument-checking switch is on.
pub open spec fn checks_for(params: Seq<ParamV>, check_args: bool) -> Result<Seq<StmtV>, Seq<char>> {
    if check_args {
        arg_checks(params)
    } else {
        Ok(Seq::empty())
    }
}

/// What the injector produces for a function (whose body has already been
/// recursively transformed) under a resolved configuration: the same
/// function, its body prefixed by the entry call and then the per-argument
/// calls; or the error for the first unsupported parameter.
pub open spec fn spec_inject(f: FunctionV, c: ConfigV, check_args: bool) -> Result<
    FunctionV,
    TransformErrorV,
> {
    match checks_for(f.parameters, check_args) {
        Ok(checks) => Ok(
            FunctionV {
                body: seq![entry_stmt(spec_check_id(c, f.identifier))] + checks + f.body,
                ..f
            },
        ),
        Err(d) => Err(TransformErrorV::UnsupportedPattern(d)),
    }
}

/// The mathematical value of an injector result.
pub open spec fn inject_result_view(r: Result<FunctionDecl, TransformError>) -> Result<
    FunctionV,
    TransformErrorV,
> {
    match r {
        Ok(f) => Ok(f.deep_view()),
        Err(e) => Err(e.deep_view()),
    }
}

/// Synthesizes the per-argument verification calls, one per parameter in
/// declared order, failing on the first parameter not bound to a simple
/// name.
fn synth_arg_checks(params: &Vec<Parameter>) -> (r: Result<Vec<Statement>, TransformError>)
    ensures
        match r {
            Ok(v) => arg_checks(params.deep_view()) == Ok::<Seq<StmtV>, Seq<char>>(stmts_dv(v@)),
            Err(e) => {
                &&& arg_checks(params.deep_view()) matches Err(d) && e.deep_view()
                    == TransformErrorV::UnsupportedPattern(d)
            },
        },
{
    let ghost pv = params.deep_view();
    let mut out: Vec<Statement> = Vec::new();
    let mut i: usize = 0;
    proof {
        assert(pv.skip(0) =~= pv);
    }
    while i < params.len()
        invariant
            i <= params@.len(),
            pv == params.deep_view(),
            pv.len() == params@.len(),
            stmts_dv(out@).len() == i,
            arg_checks(pv) == (match arg_checks(pv.skip(i as int)) {
                Ok(rest) => Ok::<Seq<StmtV>, Seq<char>>(stmts_dv(out@) + rest),
                Err(d) => Err::<Seq<StmtV>, Seq<char>>(d),
            }),
        decreases params@.len() - i,
    {
        proof {
            assert(pv.skip(i as int)[0] == pv[i as int]);
            assert(pv.skip(i as int).drop_first() =~= pv.skip(i as int + 1));
        }
        let ghost out_before = out@;
        match &params[i] {
            Parameter::Named(n) => {
                out.push(Statement::VerifyHashOf(Tag::FunctionArgument, n.clone()));
                proof {
                    lemma_stmts_dv(out_before);
                    lemma_stmts_dv(out@);
                    assert(stmts_dv(out@) =~= stmts_dv(out_before).push(
                        StmtV::VerifyHashOf(Tag::FunctionArgument, n@),
                    ));
                    if let Ok(rest) = arg_checks(pv.skip(i as int + 1)) {
                        assert(stmts_dv(out@) + rest =~= stmts_dv(out_before) + (seq![
                            StmtV::VerifyHashOf(Tag::FunctionArgument, n@),
                        ] + rest));
                    }
                }
            },
            Parameter::Destructured(d) => {
                return Err(TransformError::UnsupportedPattern(d.clone()));
            },
        }
        i = i + 1;
    }
    proof {
        assert(pv.skip(i as int) =~= Seq::<ParamV>::empty());
        if let Ok(rest) = arg_checks(pv.skip(i as int)) {
            assert(stmts_dv(out@) + rest =~= stmts_dv(out@));
        }
    }
    Ok(out)
}

/// Rewrites a function declaration, whose body has already been
/// recursively transformed, into its instrumented form: the entry call
/// carrying the check identifier, then one check per parameter when the
/// pass-wide switch asks for them, then the original body, exactly as
/// [`spec_inject`] says.
pub fn inject(f: FunctionDecl, config: &Configuration, check_args: bool) -> (r: Result<
    FunctionDecl,
    TransformError,
>)
    ensures
        inject_result_view(r) == spec_inject(f.deep_view(), config.deep_view(), check_args),
{
    let ghost fv = f.deep_view();
    let FunctionDecl { identifier, parameters, attributes, body } = f;
    let id = check_id(config, identifier.as_str());
    let mut checks: Vec<Statement> = if check_args {
        match synth_arg_checks(&parameters) {
            Ok(v) => v,
            Err(e) => {
                return Err(e);
            },
        }
    } else {
        Vec::new()
    };
    proof {
        assert(checks_for(fv.parameters, check_args) == Ok::<Seq<StmtV>, Seq<char>>(
            stmts_dv(checks@),
        ));
    }
    let ghost checks0 = checks@;
    let ghost body0 = body@;
    let mut new_body: Vec<Statement> = Vec::new();
    new_body.push(Statement::VerifyValue(Tag::FunctionEntry, id as u64));
    new_body.append(&mut checks);
    let mut old_body = body;
    new_body.append(&mut old_body);
    let result = FunctionDecl { identifier, parameters, attributes, body: new_body };
    proof {
        assert(result.body@ =~= seq![Statement::VerifyValue(Tag::FunctionEntry, id as u64)]
            + checks0 + body0);
        lemma_stmts_dv(result.body@);
        lemma_stmts_dv(checks0);
        lemma_stmts_dv(body0);
        assert(stmts_dv(result.body@) =~= seq![entry_stmt(id)] + stmts_dv(checks0) + stmts_dv(
            body0,
        ));
    }
    Ok(result)
}

/// The hash-derivation capability marker, as attribute text: the derive
/// that grants a data type the ability to produce a structural hash of its
/// own value.
pub open spec fn hash_capability_attr() -> Seq<char> {
    "derive(XCheckHash)"@
}

/// Appends the hash-derivation capability marker to a data-type
/// definition's attribute list, after any attributes already present. The
/// type's fields and layout are untouched.
pub fn annotate_data_type(dt: DataTypeDecl) -> (r: DataTypeDecl)
    ensures
        r.deep_view() == (DataTypeV {
            kind: dt.deep_view().kind,
            attributes: dt.deep_view().attributes.push(hash_capability_attr()),
        }),
{
    let ghost before = dt.attributes.deep_view();
    let DataTypeDecl { kind, attributes } = dt;
    let mut attrs = attributes;
    attrs.push(Attribute { name: "derive(XCheckHash)".to_owned() });
    proof {
        assert(attrs.deep_view() =~= before.push(hash_capability_attr()));
    }
    DataTypeDecl { kind, attributes: attrs }
}

} // verus!
