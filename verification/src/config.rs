//! The configuration resolver.
//!
//! One verification annotation on one declaration carries a list of
//! arguments. Resolving that list yields a [`Configuration`]: an enabled
//! flag, an optional explicit name, and an optional explicit numeric
//! identifier. Arguments are applied left to right, later arguments
//! overriding earlier ones on conflict. An unrecognised keyword or an
//! identifier literal that does not fit 32 unsigned bits aborts the whole
//! transformation.

use vstd::prelude::*;

verus! {

/// One argument of a verification annotation, as handed over by the host
/// parser: a bare keyword, `name = <string literal>`, or
/// `id = <integer literal>`.
#[derive(Clone, Debug, PartialEq, Eq)]
pub enum AnnotationArg {
    /// A bare keyword, such as `never` or `always`.
    Keyword(String),
    /// `name = <string literal>`: derive the check identifier from this
    /// string instead of the declaration's own identifier.
    Name(String),
    /// `id = <integer literal>`: use this check identifier verbatim. The
    /// literal is carried at full width so that an out-of-range value can
    /// be reported exactly.
    Id(u128),
}

/// The mathematical value of an [`AnnotationArg`].
pub ghost enum ArgV {
    Keyword(Seq<char>),
    Name(Seq<char>),
    Id(u128),
}

impl DeepView for AnnotationArg {
    type V = ArgV;

    open spec fn deep_view(&self) -> ArgV {
        match self {
            AnnotationArg::Keyword(k) => ArgV::Keyword(k@),
            AnnotationArg::Name(n) => ArgV::Name(n@),
            AnnotationArg::Id(v) => ArgV::Id(*v),
        }
    }
}

/// The configuration resolved from one annotation occurrence. Constructed
/// fresh per annotated declaration and immutable afterwards.
#[derive(Clone, Debug, PartialEq, Eq)]
pub struct Configuration {
    /// Whether the declaration is instrumented at all.
    pub enabled: bool,
    /// An explicit name to derive the check identifier from, overriding the
    /// declaration's own identifier text.
    pub name: Option<String>,
    /// An explicit check identifier, overriding both the name and the
    /// declaration's identifier text.
    pub id: Option<u32>,
}

/// The mathematical value of a [`Configuration`].
pub ghost struct ConfigV {
    pub enabled: bool,
    pub name: Option<Seq<char>>,
    pub id: Option<u32>,
}

impl DeepView for Configuration {
    type V = ConfigV;

    open spec fn deep_view(&self) -> ConfigV {
        ConfigV { enabled: self.enabled, name: self.name.deep_view(), id: self.id }
    }
}

/// Why an annotation's argument list failed to resolve.
#[derive(Clone, Debug, PartialEq, Eq)]
pub enum ConfigError {
    /// An argument keyword outside the recognised grammar, reported
    /// verbatim.
    UnknownOption(String),
    /// An `id = <integer literal>` argument whose value does not fit in 32
    /// unsigned bits, reported verbatim.
    IdOutOfRange(u128),
}

/// The mathematical value of a [`ConfigError`].
pub ghost enum ConfigErrorV {
    UnknownOption(Seq<char>),
    IdOutOfRange(u128),
}

impl DeepView for ConfigError {
    type V = ConfigErrorV;

    open spec fn deep_view(&self) -> ConfigErrorV {
        match self {
            ConfigError::UnknownOption(k) => ConfigErrorV::UnknownOption(k@),
            ConfigError::IdOutOfRange(v) => ConfigErrorV::IdOutOfRange(*v),
        }
    }
}

/// The configuration of a bare annotation: enabled, no explicit name, no
/// explicit identifier.
pub open spec fn default_config() -> ConfigV {
    ConfigV { enabled: true, name: None, id: None }
}

/// The keywords that disable instrumentation.
pub open spec fn is_disable_keyword(k: Seq<char>) -> bool {
    ||| k == "never"@
    ||| k == "disable"@
    ||| k == "no"@
}

/// The keywords that enable instrumentation.
pub open spec fn is_enable_keyword(k: Seq<char>) -> bool {
    ||| k == "always"@
    ||| k == "enable"@
    ||| k == "yes"@
}

/// How one argument changes the configuration resolved so far.
pub open spec fn resolve_step(c: ConfigV, a: ArgV) -> Result<ConfigV, ConfigErrorV> {
    match a {
        ArgV::Keyword(k) => if is_disable_keyword(k) {
            Ok(ConfigV { enabled: false, ..c })
        } else if is_enable_keyword(k) {
            Ok(ConfigV { enabled: true, ..c })
        } else {
            Err(ConfigErrorV::UnknownOption(k))
        },
        ArgV::Name(n) => Ok(ConfigV { name: Some(n), ..c }),
        ArgV::Id(v) => if v <= u32::MAX as u128 {
            Ok(ConfigV { id: Some(v as u32), ..c })
        } else {
            Err(ConfigErrorV::IdOutOfRange(v))
        },
    }
}

/// Folds the remaining arguments, left to right, over the configuration
/// resolved so far. The first failing argument aborts the fold.
pub open spec fn resolve_from(c: ConfigV, args: Seq<ArgV>) -> Result<ConfigV, ConfigErrorV>
    decreases args.len(),
{
    if args.len() == 0 {
        Ok(c)
    } else {
        match resolve_step(c, args[0]) {
            Ok(c2) => resolve_from(c2, args.drop_first()),
            Err(e) => Err(e),
        }
    }
}

/// The configuration resolved from a whole argument list, starting from the
/// defaults. A bare annotation (no arguments) resolves to
/// [`default_config`].
pub open spec fn spec_resolve(args: Seq<ArgV>) -> Result<ConfigV, ConfigErrorV> {
    resolve_from(default_config(), args)
}

/// The mathematical value of a resolver result.
pub open spec fn resolve_result_view(r: Result<Configuration, ConfigError>) -> Result<
    ConfigV,
    ConfigErrorV,
> {
    match r {
        Ok(c) => Ok(c.deep_view()),
        Err(e) => Err(e.deep_view()),
    }
}

/// Compares a string against a literal by value.
fn string_is(s: &String, lit: &str) -> (r: bool)
    ensures
        r == (s@ == lit@),
{
    let other: String = lit.to_owned();
    *s == other
}

/// Resolves one annotation's argument list into a [`Configuration`].
///
/// Arguments are applied left to right over the defaults, later arguments
/// winning on conflict; the first unrecognised keyword or out-of-range
/// identifier literal is reported as the error, exactly as
/// [`spec_resolve`] says.
pub fn resolve(args: &Vec<AnnotationArg>) -> (r: Result<Configuration, ConfigError>)
    ensures
        resolve_result_view(r) == spec_resolve(args.deep_view()),
{
    let mut cfg = Configuration { enabled: true, name: None, id: None };
    let mut i: usize = 0;
    proof {
        assert(args.deep_view().skip(0) =~= args.deep_view());
    }
    while i < args.len()
        invariant
            i <= args@.len(),
            args.deep_view().len() == args@.len(),
            resolve_from(cfg.deep_view(), args.deep_view().skip(i as int)) == spec_resolve(
                args.deep_view(),
            ),
        decreases args@.len() - i,
    {
        proof {
            assert(args.deep_view().skip(i as int)[0] == args.deep_view()[i as int]);
            assert(args.deep_view().skip(i as int).drop_first() =~= args.deep_view().skip(
                i as int + 1,
            ));
        }
        match &args[i] {
            AnnotationArg::Keyword(k) => {
                if string_is(k, "never") || string_is(k, "disable") || string_is(k, "no") {
                    cfg.enabled = false;
                } else if string_is(k, "always") || string_is(k, "enable") || string_is(k, "yes") {
                    cfg.enabled = true;
                } else {
                    return Err(ConfigError::UnknownOption(k.clone()));
                }
            },
            AnnotationArg::Name(n) => {
                cfg.name = Some(n.clone());
            },
            AnnotationArg::Id(v) => {
                if *v <= 0xffff_ffffu128 {
                    cfg.id = Some(*v as u32);
                } else {
                    return Err(ConfigError::IdOutOfRange(*v));
                }
            },
        }
        i = i + 1;
    }
    proof {
        assert(args.deep_view().skip(i as int) =~= Seq::<ArgV>::empty());
    }
    Ok(cfg)
}

} // verus!
