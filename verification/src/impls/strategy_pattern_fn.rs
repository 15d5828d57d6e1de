//! The registration generator: re-emits a registered function verbatim,
//! followed by a registration entry that wraps it in a forwarding closure
//! under the supplied key, for the named registry type.

use vstd::prelude::*;

use crate::model::AttrArg;
use crate::model::AttrValue;
use crate::model::FnDecl;
use crate::model::StrategyFnParams;
use crate::macro_utils::get_attributes;
use crate::macro_utils::get_params_fn;
use crate::macro_utils::lemma_arg_value_at;
use crate::macro_utils::lemma_arg_value_none;
use crate::macro_utils::lemma_validate_ok_props;
use crate::macro_utils::render_compile_error;
use crate::macro_utils::spec_arg_value;
use crate::macro_utils::spec_compile_error;
use crate::macro_utils::spec_join;
use crate::macro_utils::spec_names;
use crate::macro_utils::spec_typed_inputs;
use crate::macro_utils::spec_validate;
use crate::macro_utils::views;

verus! {

/// The recognized fields of a registration declaration.
pub open spec fn fn_field_names() -> Seq<Seq<char>> {
    seq!["key"@, "strategy"@]
}

/// Parsing the registration options out of the annotation arguments: the
/// required string `key` and identifier `strategy`, or the first rendered
/// diagnostic.
pub open spec fn spec_parse_fn_params(args: Seq<AttrArg>) -> Result<
    (Seq<char>, Seq<char>),
    Seq<char>,
> {
    match spec_validate(args, fn_field_names()) {
        Option::Some(msg) => Result::Err(spec_compile_error(msg)),
        Option::None => match spec_arg_value(args, "key"@) {
            Option::None => Result::Err(spec_compile_error("Missing field `key`"@)),
            Option::Some(kv) => match kv {
                AttrValue::Ident(_) => Result::Err(
                    spec_compile_error("Unexpected value for field `key`"@),
                ),
                AttrValue::Str(k) => match spec_arg_value(args, "strategy"@) {
                    Option::None => Result::Err(spec_compile_error("Missing field `strategy`"@)),
                    Option::Some(sv) => match sv {
                        AttrValue::Str(_) => Result::Err(
                            spec_compile_error("Unexpected value for field `strategy`"@),
                        ),
                        AttrValue::Ident(s) => Result::Ok((k@, s@)),
                    },
                },
            },
        },
    }
}

/// Parses the registration options, or yields the rendered diagnostic.
pub fn parse_strategy_fn_params(args: &Vec<AttrArg>) -> (r: Result<StrategyFnParams, String>)
    ensures
        match (r, spec_parse_fn_params(args@)) {
            (Result::Ok(p), Result::Ok(sp)) => p.key@ == sp.0 && p.strategy@ == sp.1,
            (Result::Err(e), Result::Err(se)) => e@ == se,
            _ => false,
        },
{
    let mut fields: Vec<String> = Vec::new();
    fields.push("key".to_owned());
    fields.push("strategy".to_owned());
    proof {
        assert(views(fields@) =~= fn_field_names());
    }
    let vals = match get_attributes(args, &fields) {
        Result::Ok(v) => v,
        Result::Err(e) => {
            return Err(e);
        },
    };
    proof {
        lemma_validate_ok_props(args@, fn_field_names(), 0);
    }
    let key: String = match vals[0] {
        Option::Some(k) => {
            proof {
                assert(!crate::macro_utils::spec_dup_before(args@, k as int));
                assert(forall|l: int| 0 <= l < k ==> args@[l].name@ != "key"@);
                lemma_arg_value_at(args@, "key"@, k as int);
            }
            match &args[k].value {
                AttrValue::Str(s) => s.clone(),
                AttrValue::Ident(_) => {
                    return Err(render_compile_error("Unexpected value for field `key`"));
                },
            }
        },
        Option::None => {
            proof {
                lemma_arg_value_none(args@, "key"@);
            }
            return Err(render_compile_error("Missing field `key`"));
        },
    };
    let strategy: String = match vals[1] {
        Option::Some(k) => {
            proof {
                assert(!crate::macro_utils::spec_dup_before(args@, k as int));
                assert(forall|l: int| 0 <= l < k ==> args@[l].name@ != "strategy"@);
                lemma_arg_value_at(args@, "strategy"@, k as int);
            }
            match &args[k].value {
                AttrValue::Ident(s) => s.clone(),
                AttrValue::Str(_) => {
                    return Err(render_compile_error("Unexpected value for field `strategy`"));
                },
            }
        },
        Option::None => {
            proof {
                lemma_arg_value_none(args@, "strategy"@);
            }
            return Err(render_compile_error("Missing field `strategy`"));
        },
    };
    Ok(StrategyFnParams { key, strategy })
}

/// The comma-joined synthesized parameter names of a registered function.
pub open spec fn spec_registration_names(item: FnDecl) -> Seq<char> {
    spec_join(spec_names(spec_typed_inputs(item.inputs@).len()))
}

/// The emitted text of a registration declaration: the function's source
/// verbatim, then a registration entry whose function is a closure forwarding
/// its positional arguments to the function by name, under the literal key.
pub open spec fn spec_registration_output(
    item: FnDecl,
    key: Seq<char>,
    strategy: Seq<char>,
) -> Seq<char> {
    item.source@ + "\n\n::inventory::submit! {\n    "@ + strategy + " {\n        fnc : | "@
        + spec_registration_names(item) + " | { "@ + item.ident@ + "( "@
        + spec_registration_names(item) + " ) },\n        key : \""@ + key + "\"\n    }\n}\n"@
}

/// What the registration generator emits: the registration text on
/// well-formed options, the rendered diagnostic otherwise.
pub open spec fn spec_strategy_pattern_fn_output(args: Seq<AttrArg>, item: FnDecl) -> Seq<char> {
    match spec_parse_fn_params(args) {
        Result::Ok(p) => spec_registration_output(item, p.0, p.1),
        Result::Err(e) => e,
    }
}

/// Generates a registration declaration: parses `key` and `strategy` out of
/// the annotation arguments, and emits the function unchanged followed by its
/// registration entry — or the diagnostic, which fails the downstream
/// compilation without aborting generation.
pub fn strategy_pattern_fn_impl(args: &Vec<AttrArg>, item: &FnDecl) -> (r: String)
    ensures
        r@ == spec_strategy_pattern_fn_output(args@, *item),
{
    let params = match parse_strategy_fn_params(args) {
        Result::Ok(p) => p,
        Result::Err(e) => {
            return e;
        },
    };
    let r = get_params_fn(item);
    let names = r.1;
    let mut out = item.source.clone();
    out.append("\n\n::inventory::submit! {\n    ");
    out.append(params.strategy.as_str());
    out.append(" {\n        fnc : | ");
    out.append(names.as_str());
    out.append(" | { ");
    out.append(item.ident.as_str());
    out.append("( ");
    out.append(names.as_str());
    out.append(" ) },\n        key : \"");
    out.append(params.key.as_str());
    out.append("\"\n    }\n}\n");
    proof {
        assert(out@ =~= spec_registration_output(*item, params.key@, params.strategy@));
    }
    out
}

} // verus!
