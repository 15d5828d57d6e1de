//! The registry generator: from a single-field struct whose field is a bare
//! function-pointer type, emits the finalized struct (function pointer plus
//! key), a dispatch method `exec` whose body follows the registry's search
//! mode, and — for the table-based modes — a lazily initialized, process-wide
//! lookup table.

use vstd::prelude::*;

use crate::model::AttrArg;
use crate::model::AttrValue;
use crate::model::BareFnType;
use crate::model::FieldType;
use crate::model::SearchMode;
use crate::model::StructDecl;
use crate::model::StrategyTypeParams;
use crate::macro_utils::get_attributes;
use crate::macro_utils::get_params_bare_fn;
use crate::macro_utils::get_return_type_result;
use crate::macro_utils::lemma_arg_value_at;
use crate::macro_utils::lemma_arg_value_none;
use crate::macro_utils::lemma_validate_ok_props;
use crate::macro_utils::render_compile_error;
use crate::macro_utils::spec_arg_value;
use crate::macro_utils::spec_bindings;
use crate::macro_utils::spec_compile_error;
use crate::macro_utils::spec_join;
use crate::macro_utils::spec_name;
use crate::macro_utils::spec_names;
use crate::macro_utils::spec_result_type;
use crate::macro_utils::spec_return_type;
use crate::macro_utils::spec_validate;
use crate::macro_utils::views;

verus! {

/// The recognized fields of a registry declaration.
pub open spec fn type_field_names() -> Seq<Seq<char>> {
    seq!["search"@]
}

/// Parsing the registry options out of the annotation arguments: the
/// optional `search` string, or the first rendered diagnostic.
pub open spec fn spec_parse_type_params(args: Seq<AttrArg>) -> Result<Option<Seq<char>>, Seq<char>> {
    match spec_validate(args, type_field_names()) {
        Option::Some(msg) => Result::Err(spec_compile_error(msg)),
        Option::None => match spec_arg_value(args, "search"@) {
            Option::None => Result::Ok(Option::None),
            Option::Some(v) => match v {
                AttrValue::Str(s) => Result::Ok(Option::Some(s@)),
                AttrValue::Ident(_) => Result::Err(
                    spec_compile_error("Unexpected value for field `search`"@),
                ),
            },
        },
    }
}

/// The search mode a `search` value selects: the default mode where the
/// value is absent, no mode at all where it is unrecognized.
pub open spec fn spec_search_mode(s: Option<Seq<char>>) -> Option<SearchMode> {
    match s {
        Option::None => Option::Some(SearchMode::Exact),
        Option::Some(v) => if v == "RegExp"@ {
            Option::Some(SearchMode::RegExp)
        } else if v == "IgnoreCase"@ {
            Option::Some(SearchMode::IgnoreCase)
        } else if v == "Exact"@ {
            Option::Some(SearchMode::Exact)
        } else {
            Option::None
        },
    }
}

/// The abstract value of an optional string.
pub open spec fn opt_view(o: Option<String>) -> Option<Seq<char>> {
    match o {
        Option::None => Option::None,
        Option::Some(s) => Option::Some(s@),
    }
}

/// Parses the registry options, or yields the rendered diagnostic.
pub fn parse_strategy_type_params(args: &Vec<AttrArg>) -> (r: Result<StrategyTypeParams, String>)
    ensures
        match (r, spec_parse_type_params(args@)) {
            (Result::Ok(p), Result::Ok(sv)) => opt_view(p.search) == sv,
            (Result::Err(e), Result::Err(se)) => e@ == se,
            _ => false,
        },
{
    let mut fields: Vec<String> = Vec::new();
    fields.push("search".to_owned());
    proof {
        assert(views(fields@) =~= type_field_names());
    }
    let vals = match get_attributes(args, &fields) {
        Result::Ok(v) => v,
        Result::Err(e) => {
            return Err(e);
        },
    };
    proof {
        lemma_validate_ok_props(args@, type_field_names(), 0);
    }
    match vals[0] {
        Option::Some(k) => {
            proof {
                assert(!crate::macro_utils::spec_dup_before(args@, k as int));
                assert(forall|l: int| 0 <= l < k ==> args@[l].name@ != "search"@);
                lemma_arg_value_at(args@, "search"@, k as int);
            }
            match &args[k].value {
                AttrValue::Str(s) => Ok(StrategyTypeParams { search: Some(s.clone()) }),
                AttrValue::Ident(_) => Err(
                    render_compile_error("Unexpected value for field `search`"),
                ),
            }
        },
        Option::None => {
            proof {
                lemma_arg_value_none(args@, "search"@);
            }
            Ok(StrategyTypeParams { search: None })
        },
    }
}

/// The attribute lines of the user's struct, one per line, re-emitted above
/// the finalized struct.
pub open spec fn spec_attrs_text(attrs: Seq<String>) -> Seq<char>
    decreases attrs.len(),
{
    if attrs.len() == 0 {
        Seq::empty()
    } else {
        spec_attrs_text(attrs.drop_last()) + attrs.last()@ + "\n"@
    }
}

/// The source text of the registry field's type: a bare function-pointer
/// type rendered from its parts, any other type as it was written.
pub open spec fn spec_field_type_text(f: FieldType) -> Seq<char> {
    match f {
        FieldType::BareFn(b) => "fn("@ + spec_join(views(b.inputs@)) + ")"@ + (match b.output {
            Option::None => Seq::<char>::empty(),
            Option::Some(t) => " -> "@ + t@,
        }),
        FieldType::Other(t) => t@,
    }
}

/// The finalized struct: the user's attributes, then the struct with the
/// function-pointer field and the static key field.
pub open spec fn spec_struct_decl_text(item: StructDecl) -> Seq<char> {
    spec_attrs_text(item.attrs@) + "pub struct "@ + item.ident@ + "\n{\n    pub fnc : "@
        + spec_field_type_text(item.field) + ",\n    pub key : &'static str\n}\n"@
}

/// The dispatch method's signature: a borrowed key, then one typed binding
/// per declared parameter type, and the declared return type wrapped in the
/// uniform fallible result.
pub open spec fn spec_exec_sig_text(b: BareFnType) -> Seq<char> {
    "    pub fn exec( key : &str, "@ + spec_join(spec_bindings(views(b.inputs@))) + " ) "@
        + spec_result_type(spec_return_type(b.output))
}

/// The emitted dispatch method's signature parameter types and return type
/// exactly match the declared bare function-pointer type: the signature
/// carries one typed binding per declared parameter, the binding at each
/// position pairing that position's synthesized name with the declared type,
/// and the return type is the declared one (unit where absent) wrapped in the
/// result type.
pub proof fn lemma_exec_signature_matches(b: BareFnType)
    ensures
        spec_exec_sig_text(b) == "    pub fn exec( key : &str, "@ + spec_join(
            spec_bindings(views(b.inputs@)),
        ) + " ) "@ + spec_result_type(spec_return_type(b.output)),
        spec_bindings(views(b.inputs@)).len() == b.inputs@.len(),
        forall|i: int|
            0 <= i < b.inputs@.len() ==> #[trigger] spec_bindings(views(b.inputs@))[i]
                == spec_name(i as nat) + ": "@ + b.inputs@[i]@,
        spec_result_type(spec_return_type(b.output)) == "-> ::std::result::Result<"@
            + spec_return_type(b.output) + ", std::string::String>"@,
{
}

/// The key expression the table-based dispatch bodies look up.
pub open spec fn spec_upper_key_text(ignore_case: bool) -> Seq<char> {
    if ignore_case {
        "&key.to_uppercase()"@
    } else {
        "&key.to_string()"@
    }
}

/// The dispatch body of an exact or case-insensitive registry: consults the
/// lookup table and calls the matched function pointer with the forwarded
/// arguments.
pub open spec fn spec_body_exact_or_ignore_case(
    names: Seq<char>,
    ident: Seq<char>,
    ignore_case: bool,
) -> Seq<char> {
    "        if "@ + ident + "::map_fncs().contains_key( "@ + spec_upper_key_text(ignore_case)
        + " )\n        {\n            return ::std::result::Result::Ok( ( "@ + ident
        + "::map_fncs().get( "@ + spec_upper_key_text(ignore_case) + " ).unwrap() )( "@ + names
        + " ) )\n        }\n"@
}

/// The dispatch body of a regular-expression registry: walks every
/// registered entry in registration order, compiling each key as a pattern
/// on every call.
pub open spec fn spec_body_reg_exp(names: Seq<char>, ident: Seq<char>) -> Seq<char> {
    "        for obj in ::inventory::iter::<"@ + ident
        + ">\n        {\n            let re = ::regex::Regex::new( obj.key );\n\n            if re.is_err()\n            {\n                return ::std::result::Result::Err( format!( \"Invalid regex expression: {}\", obj.key ) )\n            }\n\n            let re = re.unwrap();\n\n            if re.is_match( key )\n            {\n                return ::std::result::Result::Ok( ( obj.fnc )( "@
        + names + " ) )\n            }\n        }\n"@
}

/// The key normalization of the table construction loop.
pub open spec fn spec_key_line_text(mode: SearchMode) -> Seq<char> {
    if mode is Exact {
        "let key = fnc.key.to_string();"@
    } else {
        "let key = fnc.key.to_uppercase();"@
    }
}

/// The lazily initialized lookup-table functions of a table-based registry;
/// a regular-expression registry has none.
pub open spec fn spec_map_impl_text(mode: SearchMode, ident: Seq<char>, ft: Seq<char>) -> Seq<
    char,
> {
    if mode is RegExp {
        Seq::empty()
    } else {
        "\n    fn map_fncs() -> &'static ::std::collections::HashMap<::std::string::String, "@
            + ft
            + ">\n    {\n        static __MAP_FNCS: ::std::sync::OnceLock<::std::collections::HashMap<::std::string::String, "@
            + ft + ">> = ::std::sync::OnceLock::new();\n        __MAP_FNCS.get_or_init(|| "@
            + ident
            + "::initialize_map_fncs() )\n    }\n\n    fn initialize_map_fncs() -> ::std::collections::HashMap<::std::string::String, "@
            + ft
            + ">\n    {\n        let mut map : ::std::collections::HashMap<::std::string::String, "@
            + ft + "> = ::std::collections::HashMap::new();\n\n        for fnc in ::inventory::iter::<"@
            + ident + ">\n        {\n            "@ + spec_key_line_text(mode)
            + "\n\n            map.insert( key, fnc.fnc );\n        }\n\n        map\n    }\n"@
    }
}

/// The impl block of a registry whose field is a bare function-pointer type:
/// the dispatch method, falling through every candidate into the not-found
/// error, and the lookup-table functions of the table-based modes. Any other
/// field type aborts generation with a diagnostic.
pub open spec fn spec_struct_impl_text(item: StructDecl, mode: SearchMode) -> Seq<char> {
    match item.field {
        FieldType::Other(_) => spec_compile_error("Expected TypeBareFn"@),
        FieldType::BareFn(b) => {
            let names = spec_join(spec_names(b.inputs@.len()));
            let body = if mode is RegExp {
                spec_body_reg_exp(names, item.ident@)
            } else {
                spec_body_exact_or_ignore_case(names, item.ident@, mode is IgnoreCase)
            };
            "impl "@ + item.ident@ + "\n{\n"@ + spec_exec_sig_text(b) + "\n    {\n"@ + body
                + "\n        ::std::result::Result::Err( format!( \"Key '{}' not found\", key ) )\n    }\n"@
                + spec_map_impl_text(mode, item.ident@, spec_field_type_text(item.field)) + "}\n"@
        },
    }
}

/// Everything a registry declaration expands to: the finalized struct, its
/// impl block, and the declaration registering the struct type as a
/// collection target of the runtime registry.
pub open spec fn spec_registry_output(item: StructDecl, mode: SearchMode) -> Seq<char> {
    spec_struct_decl_text(item) + "\n"@ + spec_struct_impl_text(item, mode)
        + "\n::inventory::collect!( "@ + item.ident@ + " );\n"@
}

/// What the registry generator emits: the registry expansion under the
/// selected search mode, or a diagnostic for a malformed argument list, an
/// unrecognized `search` value, or a field that is not a bare
/// function-pointer type.
pub open spec fn spec_strategy_pattern_type_output(
    args: Seq<AttrArg>,
    item: StructDecl,
) -> Seq<char> {
    match spec_parse_type_params(args) {
        Result::Err(e) => e,
        Result::Ok(sv) => match spec_search_mode(sv) {
            Option::None => spec_compile_error(
                "search not valid. Expected Exact, IgnoreCase or RegExp"@,
            ),
            Option::Some(mode) => spec_registry_output(item, mode),
        },
    }
}

/// The source text of the registry field's type, as a string.
fn render_field_type(f: &FieldType) -> (r: String)
    ensures
        r@ == spec_field_type_text(*f),
{
    match f {
        FieldType::Other(t) => t.clone(),
        FieldType::BareFn(b) => {
            let parts = get_params_bare_fn(b);
            let mut s = "fn(".to_owned();
            s.append(parts.0.as_str());
            s.append(")");
            match &b.output {
                Option::None => {
                    proof {
                        assert(s@ =~= spec_field_type_text(*f));
                    }
                },
                Option::Some(t) => {
                    s.append(" -> ");
                    s.append(t.as_str());
                    proof {
                        assert(s@ =~= spec_field_type_text(*f));
                    }
                },
            }
            s
        },
    }
}

/// The dispatch body of an exact or case-insensitive registry, as a string.
fn get_body_fn_exact_or_ignore_case(names: &str, ident: &str, ignore_case: bool) -> (r: String)
    ensures
        r@ == spec_body_exact_or_ignore_case(names@, ident@, ignore_case),
{
    let upper_key: &str = if ignore_case {
        "&key.to_uppercase()"
    } else {
        "&key.to_string()"
    };
    let mut s = "        if ".to_owned();
    s.append(ident);
    s.append("::map_fncs().contains_key( ");
    s.append(upper_key);
    s.append(" )\n        {\n            return ::std::result::Result::Ok( ( ");
    s.append(ident);
    s.append("::map_fncs().get( ");
    s.append(upper_key);
    s.append(" ).unwrap() )( ");
    s.append(names);
    s.append(" ) )\n        }\n");
    proof {
        assert(s@ =~= spec_body_exact_or_ignore_case(names@, ident@, ignore_case));
    }
    s
}

/// The dispatch body of a regular-expression registry, as a string.
fn get_body_fn_reg_exp(names: &str, ident: &str) -> (r: String)
    ensures
        r@ == spec_body_reg_exp(names@, ident@),
{
    let mut s = "        for obj in ::inventory::iter::<".to_owned();
    s.append(ident);
    s.append(
        ">\n        {\n            let re = ::regex::Regex::new( obj.key );\n\n            if re.is_err()\n            {\n                return ::std::result::Result::Err( format!( \"Invalid regex expression: {}\", obj.key ) )\n            }\n\n            let re = re.unwrap();\n\n            if re.is_match( key )\n            {\n                return ::std::result::Result::Ok( ( obj.fnc )( ",
    );
    s.append(names);
    s.append(" ) )\n            }\n        }\n");
    proof {
        assert(s@ =~= spec_body_reg_exp(names@, ident@));
    }
    s
}

/// The lookup-table functions of a table-based registry, as a string; empty
/// for a regular-expression registry.
fn initialize_map(mode: SearchMode, ident: &str, fn_type: &str) -> (r: String)
    ensures
        r@ == spec_map_impl_text(mode, ident@, fn_type@),
{
    let key_line: &str = match mode {
        SearchMode::RegExp => {
            return String::new();
        },
        SearchMode::Exact => "let key = fnc.key.to_string();",
        SearchMode::IgnoreCase => "let key = fnc.key.to_uppercase();",
    };
    let mut s =
        "\n    fn map_fncs() -> &'static ::std::collections::HashMap<::std::string::String, ".to_owned();
    s.append(fn_type);
    s.append(
        ">\n    {\n        static __MAP_FNCS: ::std::sync::OnceLock<::std::collections::HashMap<::std::string::String, ",
    );
    s.append(fn_type);
    s.append(">> = ::std::sync::OnceLock::new();\n        __MAP_FNCS.get_or_init(|| ");
    s.append(ident);
    s.append(
        "::initialize_map_fncs() )\n    }\n\n    fn initialize_map_fncs() -> ::std::collections::HashMap<::std::string::String, ",
    );
    s.append(fn_type);
    s.append(
        ">\n    {\n        let mut map : ::std::collections::HashMap<::std::string::String, ",
    );
    s.append(fn_type);
    s.append("> = ::std::collections::HashMap::new();\n\n        for fnc in ::inventory::iter::<");
    s.append(ident);
    s.append(">\n        {\n            ");
    s.append(key_line);
    s.append("\n\n            map.insert( key, fnc.fnc );\n        }\n\n        map\n    }\n");
    proof {
        assert(s@ =~= spec_map_impl_text(mode, ident@, fn_type@));
    }
    s
}

/// The impl block of the registry, as a string: the dispatch method for the
/// search mode, and the lookup-table functions of the table-based modes — or
/// the diagnostic where the field is not a bare function-pointer type.
fn get_struct_impl(item: &StructDecl, mode: SearchMode) -> (r: String)
    ensures
        r@ == spec_struct_impl_text(*item, mode),
{
    match &item.field {
        FieldType::Other(_) => render_compile_error("Expected TypeBareFn"),
        FieldType::BareFn(b) => {
            let parts = get_params_bare_fn(b);
            let names = parts.1;
            let full = parts.2;
            let output = get_return_type_result(&b.output);
            let body = match mode {
                SearchMode::RegExp => get_body_fn_reg_exp(names.as_str(), item.ident.as_str()),
                SearchMode::IgnoreCase => get_body_fn_exact_or_ignore_case(
                    names.as_str(),
                    item.ident.as_str(),
                    true,
                ),
                SearchMode::Exact => get_body_fn_exact_or_ignore_case(
                    names.as_str(),
                    item.ident.as_str(),
                    false,
                ),
            };
            let ft = render_field_type(&item.field);
            let map_impl = initialize_map(mode, item.ident.as_str(), ft.as_str());
            let mut s = "impl ".to_owned();
            s.append(item.ident.as_str());
            s.append("\n{\n");
            s.append("    pub fn exec( key : &str, ");
            s.append(full.as_str());
            s.append(" ) ");
            s.append(output.as_str());
            s.append("\n    {\n");
            s.append(body.as_str());
            s.append(
                "\n        ::std::result::Result::Err( format!( \"Key '{}' not found\", key ) )\n    }\n",
            );
            s.append(map_impl.as_str());
            s.append("}\n");
            proof {
                assert(s@ =~= spec_struct_impl_text(*item, mode));
            }
            s
        },
    }
}

/// The attribute lines of the struct, as a string.
fn attrs_text(attrs: &Vec<String>) -> (r: String)
    ensures
        r@ == spec_attrs_text(attrs@),
{
    let mut s = String::new();
    let n = attrs.len();
    let mut i: usize = 0;
    while i < n
        invariant
            n == attrs.len(),
            i <= n,
            s@ == spec_attrs_text(attrs@.take(i as int)),
        decreases n - i,
    {
        s.append(attrs[i].as_str());
        s.append("\n");
        proof {
            assert(attrs@.take(i + 1).drop_last() =~= attrs@.take(i as int));
            assert(s@ =~= spec_attrs_text(attrs@.take(i + 1)));
        }
        i = i + 1;
    }
    proof {
        assert(attrs@.take(n as int) =~= attrs@);
    }
    s
}

/// Generates a registry declaration: parses the `search` option, selects the
/// search mode, and emits the finalized struct, its dispatch method and
/// lookup table, and the collection-target declaration — or a diagnostic,
/// which fails the downstream compilation without aborting generation.
pub fn strategy_pattern_type_impl(args: &Vec<AttrArg>, item: &StructDecl) -> (r: String)
    ensures
        r@ == spec_strategy_pattern_type_output(args@, *item),
{
    let params = match parse_strategy_type_params(args) {
        Result::Ok(p) => p,
        Result::Err(e) => {
            return e;
        },
    };
    let search: SearchMode = match &params.search {
        Option::Some(v) => {
            if v.eq(&"RegExp".to_owned()) {
                SearchMode::RegExp
            } else if v.eq(&"IgnoreCase".to_owned()) {
                SearchMode::IgnoreCase
            } else if v.eq(&"Exact".to_owned()) {
                SearchMode::Exact
            } else {
                return render_compile_error("search not valid. Expected Exact, IgnoreCase or RegExp");
            }
        },
        Option::None => SearchMode::Exact,
    };
    proof {
        assert(spec_search_mode(opt_view(params.search)) == Option::Some(search));
    }
    let struct_impl = get_struct_impl(item, search);
    let ft = render_field_type(&item.field);
    let mut out = attrs_text(&item.attrs);
    out.append("pub struct ");
    out.append(item.ident.as_str());
    out.append("\n{\n    pub fnc : ");
    out.append(ft.as_str());
    out.append(",\n    pub key : &'static str\n}\n");
    out.append("\n");
    out.append(struct_impl.as_str());
    out.append("\n::inventory::collect!( ");
    out.append(item.ident.as_str());
    out.append(" );\n");
    proof {
        assert(out@ =~= spec_registry_output(*item, search));
    }
    out
}

} // verus!
