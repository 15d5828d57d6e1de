//! A strategy-pattern code generator with a verified dispatch model.
//!
//! The library reads plain descriptions of registry declarations (a
//! single-field struct holding a bare function-pointer type) and registration
//! declarations (a function with a string key), and emits the source text of
//! the finalized struct, a dispatch method, a lazily built lookup table and a
//! registration entry. Beside the generators it holds the dispatch algorithms
//! themselves — exact, case-insensitive and regular-expression matching over
//! a sequence of registered entries — as verified functions.

use vstd::prelude::*;

pub mod dispatch;
pub mod impls;
pub mod macro_utils;
pub mod model;

use crate::model::AttrArg;
use crate::model::FnDecl;
use crate::model::StructDecl;
use crate::impls::strategy_pattern_fn::spec_strategy_pattern_fn_output;
use crate::impls::strategy_pattern_fn::strategy_pattern_fn_impl;
use crate::impls::strategy_pattern_type::spec_strategy_pattern_type_output;
use crate::impls::strategy_pattern_type::strategy_pattern_type_impl;

verus! {

/// Expands a registry declaration: a single-field struct whose field is a
/// bare function-pointer type, with an optional `search` option naming the
/// search mode (`Exact` by default).
pub fn strategy_pattern_type(args: &Vec<AttrArg>, item: &StructDecl) -> (r: String)
    ensures
        r@ == spec_strategy_pattern_type_output(args@, *item),
{
    strategy_pattern_type_impl(args, item)
}

/// Expands a registration declaration: a function registered under a string
/// `key` with the registry named by `strategy`.
pub fn strategy_pattern_fn(args: &Vec<AttrArg>, item: &FnDecl) -> (r: String)
    ensures
        r@ == spec_strategy_pattern_fn_output(args@, *item),
{
    strategy_pattern_fn_impl(args, item)
}

} // verus!
