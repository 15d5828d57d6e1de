use strategy_pattern::macro_utils::get_attributes;
use strategy_pattern::macro_utils::get_fn_return_type_without_token;
use strategy_pattern::macro_utils::get_params_bare_fn;
use strategy_pattern::macro_utils::get_params_fn;
use strategy_pattern::macro_utils::get_params_from_types;
use strategy_pattern::macro_utils::get_return_type_result;
use strategy_pattern::model::AttrArg;
use strategy_pattern::model::AttrValue;
use strategy_pattern::model::BareFnType;
use strategy_pattern::model::FieldType;
use strategy_pattern::model::FnArg;
use strategy_pattern::model::FnDecl;
use strategy_pattern::model::StructDecl;
use strategy_pattern::strategy_pattern_fn;
use strategy_pattern::strategy_pattern_type;

fn str_arg(name: &str, value: &str) -> AttrArg {
    AttrArg { name: name.to_string(), value: AttrValue::Str(value.to_string()) }
}

fn ident_arg(name: &str, value: &str) -> AttrArg {
    AttrArg { name: name.to_string(), value: AttrValue::Ident(value.to_string()) }
}

#[test]
fn params_from_types_are_index_aligned() {
    let types = vec!["String".to_string(), "u32".to_string()];
    let (types_s, names_s, full_s) = get_params_from_types(&types);
    assert_eq!(types_s, "String, u32");
    assert_eq!(names_s, "__a_0, __a_1");
    assert_eq!(full_s, "__a_0: String, __a_1: u32");
}

#[test]
fn params_from_no_types_are_empty() {
    let types: Vec<String> = Vec::new();
    let (types_s, names_s, full_s) = get_params_from_types(&types);
    assert_eq!(types_s, "");
    assert_eq!(names_s, "");
    assert_eq!(full_s, "");
}

#[test]
fn params_of_many_positions_use_decimal_names() {
    let types: Vec<String> = (0..12).map(|_| "u8".to_string()).collect();
    let (_, names_s, _) = get_params_from_types(&types);
    assert!(names_s.ends_with("__a_10, __a_11"));
}

#[test]
fn params_fn_skips_the_receiver() {
    let decl = FnDecl {
        source: "fn greet(&self, name: String) {}".to_string(),
        ident: "greet".to_string(),
        inputs: vec![FnArg::Receiver, FnArg::Typed("String".to_string())],
    };
    let (types_s, names_s, full_s) = get_params_fn(&decl);
    assert_eq!(types_s, "String");
    assert_eq!(names_s, "__a_0");
    assert_eq!(full_s, "__a_0: String");
}

#[test]
fn bare_fn_params_follow_the_declared_types() {
    let bare = BareFnType {
        inputs: vec!["String".to_string(), "bool".to_string()],
        output: Some("String".to_string()),
    };
    let (types_s, names_s, full_s) = get_params_bare_fn(&bare);
    assert_eq!(types_s, "String, bool");
    assert_eq!(names_s, "__a_0, __a_1");
    assert_eq!(full_s, "__a_0: String, __a_1: bool");
}

#[test]
fn return_type_defaults_to_unit() {
    assert_eq!(get_fn_return_type_without_token(&None), "()");
    assert_eq!(get_fn_return_type_without_token(&Some("u32".to_string())), "u32");
}

#[test]
fn return_type_is_wrapped_in_result() {
    assert_eq!(
        get_return_type_result(&Some("String".to_string())),
        "-> ::std::result::Result<String, std::string::String>"
    );
    assert_eq!(
        get_return_type_result(&None),
        "-> ::std::result::Result<(), std::string::String>"
    );
}

#[test]
fn attributes_reject_an_unknown_field() {
    let args = vec![str_arg("keyy", "x")];
    let fields = vec!["key".to_string(), "strategy".to_string()];
    assert_eq!(
        get_attributes(&args, &fields),
        Err("compile_error!( \"Unknown field: `keyy`\" );".to_string())
    );
}

#[test]
fn attributes_reject_a_duplicate_field() {
    let args = vec![str_arg("key", "a"), str_arg("key", "b")];
    let fields = vec!["key".to_string(), "strategy".to_string()];
    assert_eq!(
        get_attributes(&args, &fields),
        Err("compile_error!( \"Duplicate field `key`\" );".to_string())
    );
}

#[test]
fn attributes_find_each_field_position() {
    let args = vec![ident_arg("strategy", "Greeting"), str_arg("key", "hello")];
    let fields = vec!["key".to_string(), "strategy".to_string()];
    assert_eq!(get_attributes(&args, &fields), Ok(vec![Some(1), Some(0)]));
}

#[test]
fn registration_emits_function_and_entry() {
    let args = vec![str_arg("key", "formal_greeting"), ident_arg("strategy", "GreetingStrategy")];
    let decl = FnDecl {
        source: "pub fn formal_greeting(name: String) -> String\n{\n    format!(\"Good day, {name}\")\n}".to_string(),
        ident: "formal_greeting".to_string(),
        inputs: vec![FnArg::Typed("String".to_string())],
    };
    let out = strategy_pattern_fn(&args, &decl);
    let expected = [
        "pub fn formal_greeting(name: String) -> String\n{\n    format!(\"Good day, {name}\")\n}",
        "\n\n::inventory::submit! {\n    GreetingStrategy {\n        fnc : | __a_0 | { formal_greeting( __a_0 ) },\n        key : \"formal_greeting\"\n    }\n}\n",
    ]
    .concat();
    assert_eq!(out, expected);
}

#[test]
fn registration_requires_its_fields() {
    let decl = FnDecl {
        source: "fn f() {}".to_string(),
        ident: "f".to_string(),
        inputs: Vec::new(),
    };
    let missing_key = vec![ident_arg("strategy", "S")];
    assert_eq!(
        strategy_pattern_fn(&missing_key, &decl),
        "compile_error!( \"Missing field `key`\" );"
    );
    let missing_strategy = vec![str_arg("key", "k")];
    assert_eq!(
        strategy_pattern_fn(&missing_strategy, &decl),
        "compile_error!( \"Missing field `strategy`\" );"
    );
}

fn greeting_struct(field: FieldType) -> StructDecl {
    StructDecl { attrs: Vec::new(), ident: "Greeting".to_string(), field }
}

fn greeting_bare_fn() -> FieldType {
    FieldType::BareFn(BareFnType {
        inputs: vec!["String".to_string()],
        output: Some("String".to_string()),
    })
}

#[test]
fn registry_rejects_a_field_that_is_no_bare_fn() {
    let item = greeting_struct(FieldType::Other("GreetFn".to_string()));
    let out = strategy_pattern_type(&Vec::new(), &item);
    assert!(out.contains("compile_error!( \"Expected TypeBareFn\" );"));
    let expected = [
        "pub struct Greeting\n{\n    pub fnc : GreetFn,\n    pub key : &'static str\n}\n",
        "\n",
        "compile_error!( \"Expected TypeBareFn\" );",
        "\n::inventory::collect!( Greeting );\n",
    ]
    .concat();
    assert_eq!(out, expected);
}

#[test]
fn registry_rejects_an_unrecognized_search_value() {
    let item = greeting_struct(greeting_bare_fn());
    let args = vec![str_arg("search", "Fuzzy")];
    assert_eq!(
        strategy_pattern_type(&args, &item),
        "compile_error!( \"search not valid. Expected Exact, IgnoreCase or RegExp\" );"
    );
}

#[test]
fn regexp_registry_expansion_is_exact() {
    let item = greeting_struct(greeting_bare_fn());
    let args = vec![str_arg("search", "RegExp")];
    let out = strategy_pattern_type(&args, &item);
    let expected = [
        "pub struct Greeting\n{\n    pub fnc : fn(String) -> String,\n    pub key : &'static str\n}\n",
        "\n",
        "impl Greeting\n{\n",
        "    pub fn exec( key : &str, __a_0: String ) -> ::std::result::Result<String, std::string::String>\n",
        "    {\n",
        "        for obj in ::inventory::iter::<Greeting>\n        {\n            let re = ::regex::Regex::new( obj.key );\n\n            if re.is_err()\n            {\n                return ::std::result::Result::Err( format!( \"Invalid regex expression: {}\", obj.key ) )\n            }\n\n            let re = re.unwrap();\n\n            if re.is_match( key )\n            {\n                return ::std::result::Result::Ok( ( obj.fnc )( __a_0 ) )\n            }\n        }\n",
        "\n        ::std::result::Result::Err( format!( \"Key '{}' not found\", key ) )\n    }\n",
        "}\n",
        "\n::inventory::collect!( Greeting );\n",
    ]
    .concat();
    assert_eq!(out, expected);
}

#[test]
fn exact_registry_signature_mirrors_the_field_type() {
    let item = StructDecl {
        attrs: vec!["#[derive(Debug)]".to_string()],
        ident: "Maths".to_string(),
        field: FieldType::BareFn(BareFnType {
            inputs: vec!["i64".to_string(), "i64".to_string()],
            output: Some("i64".to_string()),
        }),
    };
    let out = strategy_pattern_type(&Vec::new(), &item);
    assert!(out.starts_with("#[derive(Debug)]\npub struct Maths\n"));
    assert!(out.contains(
        "    pub fn exec( key : &str, __a_0: i64, __a_1: i64 ) -> ::std::result::Result<i64, std::string::String>\n"
    ));
    assert!(out.contains("Maths::map_fncs().contains_key( &key.to_string() )"));
    assert!(out.contains("let key = fnc.key.to_string();"));
    assert!(out.contains("::inventory::collect!( Maths );"));
}

#[test]
fn ignore_case_registry_uppercases_both_sides() {
    let item = greeting_struct(greeting_bare_fn());
    let args = vec![str_arg("search", "IgnoreCase")];
    let out = strategy_pattern_type(&args, &item);
    assert!(out.contains("Greeting::map_fncs().contains_key( &key.to_uppercase() )"));
    assert!(out.contains("let key = fnc.key.to_uppercase();"));
}

#[test]
fn registry_defaults_to_exact_mode() {
    let item = greeting_struct(greeting_bare_fn());
    let with_default = strategy_pattern_type(&Vec::new(), &item);
    let with_exact = strategy_pattern_type(&vec![str_arg("search", "Exact")], &item);
    assert_eq!(with_default, with_exact);
}

#[test]
fn unit_return_registry_wraps_unit() {
    let item = StructDecl {
        attrs: Vec::new(),
        ident: "Notify".to_string(),
        field: FieldType::BareFn(BareFnType { inputs: Vec::new(), output: None }),
    };
    let out = strategy_pattern_type(&Vec::new(), &item);
    assert!(out.contains(
        "    pub fn exec( key : &str,  ) -> ::std::result::Result<(), std::string::String>\n"
    ));
}
