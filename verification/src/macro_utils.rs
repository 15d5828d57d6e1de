//! Signature extraction and annotation-argument parsing.
//!
//! From a list of parameter types the extractor builds three index-aligned,
//! comma-joined token sequences: the types themselves, synthesized parameter
//! names `__a_0`, `__a_1`, ..., and typed bindings `__a_i: T_i`. The argument
//! parser validates a flat list of `name = value` annotation arguments against
//! the recognized field names.

use vstd::prelude::*;

use crate::model::AttrArg;
use crate::model::AttrValue;
use crate::model::FnArg;
use crate::model::FnDecl;
use crate::model::BareFnType;

verus! {

/// The decimal digit character of a value below ten.
pub open spec fn spec_dec_digit(d: nat) -> char {
    if d == 0 {
        '0'
    } else if d == 1 {
        '1'
    } else if d == 2 {
        '2'
    } else if d == 3 {
        '3'
    } else if d == 4 {
        '4'
    } else if d == 5 {
        '5'
    } else if d == 6 {
        '6'
    } else if d == 7 {
        '7'
    } else if d == 8 {
        '8'
    } else {
        '9'
    }
}

/// The decimal rendering of a natural number, most significant digit first.
pub open spec fn spec_dec(n: nat) -> Seq<char>
    decreases n,
{
    if n < 10 {
        seq![spec_dec_digit(n)]
    } else {
        spec_dec(n / 10).push(spec_dec_digit(n % 10))
    }
}

/// The synthesized name of the parameter at a position.
pub open spec fn spec_name(i: nat) -> Seq<char> {
    "__a_"@ + spec_dec(i)
}

/// The views of a sequence of strings.
pub open spec fn views(v: Seq<String>) -> Seq<Seq<char>> {
    v.map_values(|s: String| s@)
}

/// Comma-joined concatenation of token sequences.
pub open spec fn spec_join(parts: Seq<Seq<char>>) -> Seq<char>
    decreases parts.len(),
{
    if parts.len() == 0 {
        Seq::empty()
    } else if parts.len() == 1 {
        parts[0]
    } else {
        spec_join(parts.drop_last()) + ", "@ + parts.last()
    }
}

/// The synthesized names of the first `n` parameter positions.
pub open spec fn spec_names(n: nat) -> Seq<Seq<char>> {
    Seq::new(n, |i: int| spec_name(i as nat))
}

/// The typed bindings, one per parameter type, each `__a_i: T_i`.
pub open spec fn spec_bindings(types: Seq<Seq<char>>) -> Seq<Seq<char>> {
    Seq::new(types.len(), |i: int| spec_name(i as nat) + ": "@ + types[i])
}

/// The three token sequences are index-aligned: there are as many synthesized
/// names and typed bindings as parameter types, and the binding at each
/// position is exactly its position's name and type joined by `: `.
pub proof fn lemma_sequences_aligned(types: Seq<Seq<char>>)
    ensures
        spec_names(types.len()).len() == types.len(),
        spec_bindings(types).len() == types.len(),
        forall|i: int|
            0 <= i < types.len() ==> #[trigger] spec_bindings(types)[i] == spec_name(i as nat)
                + ": "@ + types[i],
        forall|i: int|
            0 <= i < types.len() ==> #[trigger] spec_names(types.len())[i] == spec_name(i as nat),
{
}

fn dec_digit_str(d: usize) -> (r: &'static str)
    requires
        d < 10,
    ensures
        r@ == seq![spec_dec_digit(d as nat)],
{
    if d == 0 {
        proof {
            reveal_strlit("0");
            assert("0"@ =~= seq![spec_dec_digit(0nat)]);
        }
        "0"
    } else if d == 1 {
        proof {
            reveal_strlit("1");
            assert("1"@ =~= seq![spec_dec_digit(1nat)]);
        }
        "1"
    } else if d == 2 {
        proof {
            reveal_strlit("2");
            assert("2"@ =~= seq![spec_dec_digit(2nat)]);
        }
        "2"
    } else if d == 3 {
        proof {
            reveal_strlit("3");
            assert("3"@ =~= seq![spec_dec_digit(3nat)]);
        }
        "3"
    } else if d == 4 {
        proof {
            reveal_strlit("4");
            assert("4"@ =~= seq![spec_dec_digit(4nat)]);
        }
        "4"
    } else if d == 5 {
        proof {
            reveal_strlit("5");
            assert("5"@ =~= seq![spec_dec_digit(5nat)]);
        }
        "5"
    } else if d == 6 {
        proof {
            reveal_strlit("6");
            assert("6"@ =~= seq![spec_dec_digit(6nat)]);
        }
        "6"
    } else if d == 7 {
        proof {
            reveal_strlit("7");
            assert("7"@ =~= seq![spec_dec_digit(7nat)]);
        }
        "7"
    } else if d == 8 {
        proof {
            reveal_strlit("8");
            assert("8"@ =~= seq![spec_dec_digit(8nat)]);
        }
        "8"
    } else {
        proof {
            reveal_strlit("9");
            assert("9"@ =~= seq![spec_dec_digit(d as nat)]);
        }
        "9"
    }
}

/// The decimal rendering of an index, as a string.
fn dec_str(n: usize) -> (r: String)
    ensures
        r@ == spec_dec(n as nat),
    decreases n,
{
    if n < 10 {
        let s = dec_digit_str(n);
        s.to_owned()
    } else {
        let prefix = dec_str(n / 10);
        let d = dec_digit_str(n % 10);
        let r = prefix.concat(d);
        proof {
            assert(r@ =~= spec_dec(n as nat));
        }
        r
    }
}

/// The synthesized name of the parameter at position `i`, as a string.
fn make_name(i: usize) -> (r: String)
    ensures
        r@ == spec_name(i as nat),
{
    let mut out = "__a_".to_owned();
    let digits = dec_str(i);
    out.append(digits.as_str());
    out
}

/// Builds the three index-aligned token sequences from a list of parameter
/// types: comma-joined types, comma-joined synthesized names, and
/// comma-joined typed bindings.
pub fn get_params_from_types(types_fn: &Vec<String>) -> (r: (String, String, String))
    ensures
        r.0@ == spec_join(views(types_fn@)),
        r.1@ == spec_join(spec_names(types_fn@.len())),
        r.2@ == spec_join(spec_bindings(views(types_fn@))),
{
    let mut types = String::new();
    let mut names = String::new();
    let mut full = String::new();
    let n = types_fn.len();
    let mut i: usize = 0;
    while i < n
        invariant
            n == types_fn.len(),
            i <= n,
            types@ == spec_join(views(types_fn@).take(i as int)),
            names@ == spec_join(spec_names(n as nat).take(i as int)),
            full@ == spec_join(spec_bindings(views(types_fn@)).take(i as int)),
        decreases n - i,
    {
        if i > 0 {
            types.append(", ");
            names.append(", ");
            full.append(", ");
        }
        let t: &String = &types_fn[i];
        let name = make_name(i);
        types.append(t.as_str());
        names.append(name.as_str());
        full.append(name.as_str());
        full.append(": ");
        full.append(t.as_str());
        proof {
            let tv = views(types_fn@);
            let nv = spec_names(n as nat);
            let bv = spec_bindings(tv);
            assert(tv.take(i + 1).drop_last() =~= tv.take(i as int));
            assert(nv.take(i + 1).drop_last() =~= nv.take(i as int));
            assert(bv.take(i + 1).drop_last() =~= bv.take(i as int));
            assert(types@ =~= spec_join(tv.take(i + 1)));
            assert(names@ =~= spec_join(nv.take(i + 1)));
            assert(full@ =~= spec_join(bv.take(i + 1)));
        }
        i = i + 1;
    }
    proof {
        assert(views(types_fn@).take(n as int) =~= views(types_fn@));
        assert(spec_names(n as nat).take(n as int) =~= spec_names(n as nat));
        assert(spec_bindings(views(types_fn@)).take(n as int) =~= spec_bindings(views(types_fn@)));
    }
    (types, names, full)
}

/// The types of the typed parameters of a function declaration, in order,
/// with any receiver parameter left out.
pub open spec fn spec_typed_inputs(inputs: Seq<FnArg>) -> Seq<Seq<char>>
    decreases inputs.len(),
{
    if inputs.len() == 0 {
        Seq::empty()
    } else {
        spec_typed_inputs(inputs.drop_last()) + (match inputs.last() {
            FnArg::Typed(t) => seq![t@],
            FnArg::Receiver => Seq::<Seq<char>>::empty(),
        })
    }
}

/// Builds the three token sequences of a full function declaration, counting
/// only its typed parameters.
pub fn get_params_fn(item_fn: &FnDecl) -> (r: (String, String, String))
    ensures
        r.0@ == spec_join(spec_typed_inputs(item_fn.inputs@)),
        r.1@ == spec_join(spec_names(spec_typed_inputs(item_fn.inputs@).len())),
        r.2@ == spec_join(spec_bindings(spec_typed_inputs(item_fn.inputs@))),
{
    let mut types_fn: Vec<String> = Vec::new();
    let n = item_fn.inputs.len();
    let mut i: usize = 0;
    while i < n
        invariant
            n == item_fn.inputs.len(),
            i <= n,
            views(types_fn@) == spec_typed_inputs(item_fn.inputs@.take(i as int)),
        decreases n - i,
    {
        match &item_fn.inputs[i] {
            FnArg::Typed(t) => {
                types_fn.push(t.clone());
                proof {
                    assert(item_fn.inputs@.take(i + 1).drop_last() =~= item_fn.inputs@.take(
                        i as int,
                    ));
                    assert(views(types_fn@) =~= spec_typed_inputs(item_fn.inputs@.take(i + 1)));
                }
            },
            FnArg::Receiver => {
                proof {
                    assert(item_fn.inputs@.take(i + 1).drop_last() =~= item_fn.inputs@.take(
                        i as int,
                    ));
                    assert(views(types_fn@) =~= spec_typed_inputs(item_fn.inputs@.take(i + 1)));
                }
            },
        }
        i = i + 1;
    }
    proof {
        assert(item_fn.inputs@.take(n as int) =~= item_fn.inputs@);
    }
    get_params_from_types(&types_fn)
}

/// Builds the three token sequences of a bare function-pointer type.
pub fn get_params_bare_fn(bare_fn: &BareFnType) -> (r: (String, String, String))
    ensures
        r.0@ == spec_join(views(bare_fn.inputs@)),
        r.1@ == spec_join(spec_names(bare_fn.inputs@.len())),
        r.2@ == spec_join(spec_bindings(views(bare_fn.inputs@))),
{
    get_params_from_types(&bare_fn.inputs)
}

/// The bare return type of a return-type clause: the declared type, or the
/// unit type where the clause is absent.
pub open spec fn spec_return_type(o: Option<String>) -> Seq<char> {
    match o {
        Option::None => "()"@,
        Option::Some(t) => t@,
    }
}

/// The uniform fallible return type wrapped around a bare return type.
pub open spec fn spec_result_type(ret: Seq<char>) -> Seq<char> {
    "-> ::std::result::Result<"@ + ret + ", std::string::String>"@
}

/// The bare return type of a return-type clause, as a string.
pub fn get_fn_return_type_without_token(return_type: &Option<String>) -> (r: String)
    ensures
        r@ == spec_return_type(*return_type),
{
    match return_type {
        Option::None => "()".to_owned(),
        Option::Some(t) => t.clone(),
    }
}

/// The dispatch method's return-type clause: the bare return type wrapped in
/// a result carrying a string error.
pub fn get_return_type_result(return_type: &Option<String>) -> (r: String)
    ensures
        r@ == spec_result_type(spec_return_type(*return_type)),
{
    let output = get_fn_return_type_without_token(return_type);
    let mut r = "-> ::std::result::Result<".to_owned();
    r.append(output.as_str());
    r.append(", std::string::String>");
    proof {
        assert(r@ =~= spec_result_type(spec_return_type(*return_type)));
    }
    r
}

/// Whether some recognized field name equals `name`.
pub open spec fn spec_contains_name(fields: Seq<Seq<char>>, name: Seq<char>) -> bool {
    exists|j: int| 0 <= j < fields.len() && fields[j] == name
}

/// Whether an earlier argument already used the name of the argument at `i`.
pub open spec fn spec_dup_before(args: Seq<AttrArg>, i: int) -> bool {
    exists|j: int| 0 <= j < i && args[j].name@ == args[i].name@
}

/// The compile-time diagnostic text carrying a message.
pub open spec fn spec_compile_error(msg: Seq<char>) -> Seq<char> {
    "compile_error!( \""@ + msg + "\" );"@
}

/// Renders a message as a compile-time diagnostic: a token sequence that,
/// when compiled, surfaces the message instead of aborting the generator.
pub fn render_compile_error(msg: &str) -> (r: String)
    ensures
        r@ == spec_compile_error(msg@),
{
    let mut e = "compile_error!( \"".to_owned();
    e.append(msg);
    e.append("\" );");
    proof {
        assert(e@ =~= spec_compile_error(msg@));
    }
    e
}

/// Scans the arguments from position `i` on and yields the first diagnostic:
/// an unknown field name, or a name already used by an earlier argument.
pub open spec fn spec_validate_from(args: Seq<AttrArg>, fields: Seq<Seq<char>>, i: int) -> Option<
    Seq<char>,
>
    decreases args.len() - i,
{
    if i < 0 || i >= args.len() {
        Option::None
    } else if !spec_contains_name(fields, args[i].name@) {
        Option::Some("Unknown field: `"@ + args[i].name@ + "`"@)
    } else if spec_dup_before(args, i) {
        Option::Some("Duplicate field `"@ + args[i].name@ + "`"@)
    } else {
        spec_validate_from(args, fields, i + 1)
    }
}

/// The first diagnostic of the whole argument list, if any.
pub open spec fn spec_validate(args: Seq<AttrArg>, fields: Seq<Seq<char>>) -> Option<Seq<char>> {
    spec_validate_from(args, fields, 0)
}

/// The value of the first argument named `name`, if any.
pub open spec fn spec_arg_value(args: Seq<AttrArg>, name: Seq<char>) -> Option<AttrValue>
    decreases args.len(),
{
    if args.len() == 0 {
        Option::None
    } else if args[0].name@ == name {
        Option::Some(args[0].value)
    } else {
        spec_arg_value(args.drop_first(), name)
    }
}

/// A valid argument list has pairwise distinct names, all recognized.
pub proof fn lemma_validate_ok_props(args: Seq<AttrArg>, fields: Seq<Seq<char>>, i: int)
    requires
        spec_validate_from(args, fields, i) is None,
        0 <= i <= args.len(),
    ensures
        forall|k: int|
            i <= k < args.len() ==> spec_contains_name(fields, #[trigger] args[k].name@)
                && !spec_dup_before(args, k),
    decreases args.len() - i,
{
    if i < args.len() {
        lemma_validate_ok_props(args, fields, i + 1);
    }
}

/// With pairwise distinct names, the value found for a name is the value of
/// any argument bearing it.
pub proof fn lemma_arg_value_at(args: Seq<AttrArg>, name: Seq<char>, k: int)
    requires
        0 <= k < args.len(),
        args[k].name@ == name,
        forall|l: int| 0 <= l < k ==> args[l].name@ != name,
    ensures
        spec_arg_value(args, name) == Option::Some(args[k].value),
    decreases args.len(),
{
    if k > 0 {
        lemma_arg_value_at(args.drop_first(), name, k - 1);
    }
}

/// Where no argument bears a name, none is found.
pub proof fn lemma_arg_value_none(args: Seq<AttrArg>, name: Seq<char>)
    requires
        forall|l: int| 0 <= l < args.len() ==> args[l].name@ != name,
    ensures
        spec_arg_value(args, name) is None,
    decreases args.len(),
{
    if args.len() > 0 {
        lemma_arg_value_none(args.drop_first(), name);
    }
}

/// Validates a flat list of `name = value` annotation arguments against the
/// recognized field names: every name must be recognized and no name may
/// repeat. On success, yields for each recognized field the position of the
/// argument bearing it, if any; on failure, the rendered compile-time
/// diagnostic of the first offending argument.
pub fn get_attributes(args: &Vec<AttrArg>, fields: &Vec<String>) -> (r: Result<
    Vec<Option<usize>>,
    String,
>)
    ensures
        (r is Ok) <==> (spec_validate(args@, views(fields@)) is None),
        r matches Err(e) ==> (spec_validate(args@, views(fields@)) matches Option::Some(msg)
            && e@ == spec_compile_error(msg)),
        r matches Ok(vals) ==> vals.len() == fields.len() && (forall|i: int|
            0 <= i < fields.len() ==> match #[trigger] vals[i] {
                Option::Some(k) => k < args.len() && args[k as int].name@ == fields[i]@,
                Option::None => forall|j: int| 0 <= j < args.len() ==> args[j].name@ != fields[i]@,
            }),
{
    let n = args.len();
    let mut i: usize = 0;
    while i < n
        invariant
            n == args.len(),
            i <= n,
            spec_validate(args@, views(fields@)) == spec_validate_from(args@, views(fields@), i as int),
        decreases n - i,
    {
        let name: &String = &args[i].name;
        let mut known = false;
        let mut j: usize = 0;
        while j < fields.len()
            invariant
                i < n == args.len(),
                j <= fields.len(),
                name == &args@[i as int].name,
                known == exists|l: int| 0 <= l < j && views(fields@)[l] == name@,
            decreases fields.len() - j,
        {
            if fields[j].eq(name) {
                known = true;
            }
            proof {
                assert(views(fields@)[j as int] == fields@[j as int]@);
            }
            j = j + 1;
        }
        if !known {
            let mut msg = "Unknown field: `".to_owned();
            msg.append(name.as_str());
            msg.append("`");
            let e = render_compile_error(msg.as_str());
            proof {
                assert(!spec_contains_name(views(fields@), args@[i as int].name@));
                assert(msg@ =~= "Unknown field: `"@ + args@[i as int].name@ + "`"@);
                assert(spec_validate_from(args@, views(fields@), i as int) == Option::Some(
                    "Unknown field: `"@ + args@[i as int].name@ + "`"@,
                ));
            }
            return Err(e);
        }
        let mut dup = false;
        let mut j2: usize = 0;
        while j2 < i
            invariant
                i < n == args.len(),
                j2 <= i,
                name == &args@[i as int].name,
                dup == exists|l: int| 0 <= l < j2 && args@[l].name@ == name@,
            decreases i - j2,
        {
            if args[j2].name.eq(name) {
                dup = true;
            }
            j2 = j2 + 1;
        }
        if dup {
            let mut msg = "Duplicate field `".to_owned();
            msg.append(name.as_str());
            msg.append("`");
            let e = render_compile_error(msg.as_str());
            proof {
                assert(spec_dup_before(args@, i as int));
                assert(msg@ =~= "Duplicate field `"@ + args@[i as int].name@ + "`"@);
                assert(spec_validate_from(args@, views(fields@), i as int) == Option::Some(
                    "Duplicate field `"@ + args@[i as int].name@ + "`"@,
                ));
            }
            return Err(e);
        }
        i = i + 1;
    }
    let mut vals: Vec<Option<usize>> = Vec::new();
    let mut fi: usize = 0;
    while fi < fields.len()
        invariant
            vals.len() == fi,
            fi <= fields.len(),
            n == args.len(),
            forall|i2: int|
                0 <= i2 < fi ==> match #[trigger] vals@[i2] {
                    Option::Some(k) => k < args.len() && args@[k as int].name@ == fields@[i2].view(),
                    Option::None => forall|j3: int|
                        0 <= j3 < args.len() ==> args@[j3].name@ != fields@[i2].view(),
                },
        decreases fields.len() - fi,
    {
        let mut found: Option<usize> = None;
        let mut j: usize = 0;
        while j < n
            invariant
                n == args.len(),
                j <= n,
                fi < fields.len(),
                match found {
                    Option::Some(k) => k < args.len() && args@[k as int].name@ == fields@[fi as int].view(),
                    Option::None => forall|l: int|
                        0 <= l < j ==> args@[l].name@ != fields@[fi as int].view(),
                },
            decreases n - j,
        {
            if args[j].name.eq(&fields[fi]) {
                found = Some(j);
            }
            j = j + 1;
        }
        vals.push(found);
        fi = fi + 1;
    }
    Ok(vals)
}

} // verus!
