//! The errors that abort a transformation.
//!
//! Every error here is fatal: the pass either rewrites the whole tree or
//! fails on the first offending declaration, because an incompletely
//! instrumented program would produce mismatched check sequences, which is
//! worse than a build failure.

use vstd::prelude::*;

use crate::config::{ConfigError, ConfigErrorV};

verus! {

/// Why a transformation aborted.
#[derive(Clone, Debug, PartialEq, Eq)]
pub enum TransformError {
    /// An annotation argument keyword outside the recognised grammar,
    /// reported verbatim.
    UnknownOption(String),
    /// An `id = <integer literal>` annotation argument whose value does
    /// not fit in 32 unsigned bits, reported verbatim.
    IdOutOfRange(u128),
    /// Per-argument checks were requested for a parameter that is not
    /// bound to a simple name; its description is reported. Skipping the
    /// parameter instead would silently desynchronise the check sequences
    /// of two builds.
    UnsupportedPattern(String),
}

/// The mathematical value of a [`TransformError`].
pub ghost enum TransformErrorV {
    UnknownOption(Seq<char>),
    IdOutOfRange(u128),
    UnsupportedPattern(Seq<char>),
}

impl DeepView for TransformError {
    type V = TransformErrorV;

    open spec fn deep_view(&self) -> TransformErrorV {
        match self {
            TransformError::UnknownOption(k) => TransformErrorV::UnknownOption(k@),
            TransformError::IdOutOfRange(v) => TransformErrorV::IdOutOfRange(*v),
            TransformError::UnsupportedPattern(d) => TransformErrorV::UnsupportedPattern(d@),
        }
    }
}

/// How a failure of the configuration resolver reads once it has aborted
/// the whole transformation.
pub open spec fn spec_from_config_error(e: ConfigErrorV) -> TransformErrorV {
    match e {
        ConfigErrorV::UnknownOption(k) => TransformErrorV::UnknownOption(k),
        ConfigErrorV::IdOutOfRange(v) => TransformErrorV::IdOutOfRange(v),
    }
}

/// Propagates a failure of the configuration resolver.
pub fn from_config_error(e: ConfigError) -> (r: TransformError)
    ensures
        r.deep_view() == spec_from_config_error(e.deep_view()),
{
    match e {
        ConfigError::UnknownOption(k) => TransformError::UnknownOption(k),
        ConfigError::IdOutOfRange(v) => TransformError::IdOutOfRange(v),
    }
}

} // verus!
