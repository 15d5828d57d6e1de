//! The dispatch algorithms performed by the code a registry generates.
//!
//! A registry's entries are the registered `{key, function}` pairs in
//! registration order. Exact and case-insensitive registries consult a lookup
//! table built once from the entries, each key normalized, a later entry
//! shadowing an earlier one with the same normalized key. Regular-expression
//! registries walk the entries in order on every call, compiling each key as
//! a pattern. Functions are carried as plain identifiers: the caller owns the
//! mapping from identifier to callable.

use vstd::prelude::*;

use crate::model::SearchMode;

verus! {

/// One registered entry: the key it was registered under and the identifier
/// of its function.
pub struct RegistryEntry {
    pub key: String,
    pub fnc: usize,
}

/// The uppercase folding that `str::to_uppercase` computes.
pub uninterp spec fn upper_of(s: Seq<char>) -> Seq<char>;

/// Whether a pattern compiles as a regular expression.
pub uninterp spec fn regex_valid(pattern: Seq<char>) -> bool;

/// Whether a pattern, compiled as a regular expression, matches a text.
pub uninterp spec fn regex_matches(pattern: Seq<char>, text: Seq<char>) -> bool;

/// Relies on str::to_uppercase: the uppercase form of a string depends on its
/// characters alone.
#[verifier::external_body]
fn to_uppercase(s: &str) -> (r: String)
    ensures
        r@ == upper_of(s@),
{
    s.to_uppercase()
}

/// Relies on regex::Regex::new and regex::Regex::is_match: whether a pattern
/// compiles depends on the pattern alone, and whether the compiled pattern
/// matches a text depends on the pattern and the text alone. Yields `None`
/// when the pattern does not compile.
#[verifier::external_body]
fn try_regex_match(pattern: &str, text: &str) -> (r: Option<bool>)
    ensures
        regex_valid(pattern@) ==> r == Option::Some(regex_matches(pattern@, text@)),
        !regex_valid(pattern@) ==> r is None,
{
    match regex::Regex::new(pattern) {
        Ok(re) => Some(re.is_match(text)),
        Err(_) => None,
    }
}

/// A key as the lookup table stores it: folded to uppercase in a
/// case-insensitive registry, kept as it is otherwise.
pub open spec fn norm_key(mode: SearchMode, k: Seq<char>) -> Seq<char> {
    match mode {
        SearchMode::IgnoreCase => upper_of(k),
        _ => k,
    }
}

fn normalize_key(mode: SearchMode, key: &str) -> (r: String)
    ensures
        r@ == norm_key(mode, key@),
{
    match mode {
        SearchMode::IgnoreCase => to_uppercase(key),
        _ => key.to_owned(),
    }
}

/// The function registered under normalized key `k` among the first `i`
/// entries: the latest such entry wins, as a later table insertion
/// overwrites an earlier one.
pub open spec fn spec_lookup_upto(
    entries: Seq<RegistryEntry>,
    mode: SearchMode,
    k: Seq<char>,
    i: int,
) -> Option<usize>
    decreases i,
{
    if i <= 0 || i > entries.len() {
        Option::None
    } else if norm_key(mode, entries[i - 1].key@) == k {
        Option::Some(entries[i - 1].fnc)
    } else {
        spec_lookup_upto(entries, mode, k, i - 1)
    }
}

/// The function the finished lookup table maps normalized key `k` to.
pub open spec fn spec_table_lookup(
    entries: Seq<RegistryEntry>,
    mode: SearchMode,
    k: Seq<char>,
) -> Option<usize> {
    spec_lookup_upto(entries, mode, k, entries.len() as int)
}

/// The message of a failed lookup.
pub open spec fn key_not_found_msg(key: Seq<char>) -> Seq<char> {
    "Key '"@ + key + "' not found"@
}

/// The message of a registered pattern that does not compile.
pub open spec fn invalid_regex_msg(pattern: Seq<char>) -> Seq<char> {
    "Invalid regex expression: "@ + pattern
}

/// Regular-expression dispatch over the entries from position `i` on: the
/// first entry whose pattern does not compile fails the call; the first whose
/// pattern matches wins; past the end the key was not found.
pub open spec fn spec_regexp_from(entries: Seq<RegistryEntry>, key: Seq<char>, i: int) -> Result<
    usize,
    Seq<char>,
>
    decreases entries.len() - i,
{
    if i < 0 || i >= entries.len() {
        Result::Err(key_not_found_msg(key))
    } else if !regex_valid(entries[i].key@) {
        Result::Err(invalid_regex_msg(entries[i].key@))
    } else if regex_matches(entries[i].key@, key) {
        Result::Ok(entries[i].fnc)
    } else {
        spec_regexp_from(entries, key, i + 1)
    }
}

/// Regular-expression dispatch over all entries in registration order.
pub open spec fn spec_regexp_dispatch(entries: Seq<RegistryEntry>, key: Seq<char>) -> Result<
    usize,
    Seq<char>,
> {
    spec_regexp_from(entries, key, 0)
}

/// What dispatching `key` against a registry returns, as the identifier of
/// the selected function or the full error message.
pub open spec fn spec_dispatch(
    entries: Seq<RegistryEntry>,
    mode: SearchMode,
    key: Seq<char>,
) -> Result<usize, Seq<char>> {
    match mode {
        SearchMode::RegExp => spec_regexp_dispatch(entries, key),
        _ => match spec_table_lookup(entries, mode, norm_key(mode, key)) {
            Option::Some(f) => Result::Ok(f),
            Option::None => Result::Err(key_not_found_msg(key)),
        },
    }
}

/// The abstract value of a dispatch result.
pub open spec fn res_view(r: Result<usize, String>) -> Result<usize, Seq<char>> {
    match r {
        Result::Ok(f) => Result::Ok(f),
        Result::Err(m) => Result::Err(m@),
    }
}

/// The lookup table of an exact or case-insensitive registry: normalized
/// keys paired with function identifiers, in registration order; on lookup a
/// later pair shadows an earlier one with the same key.
pub struct LookupTable {
    pub pairs: Vec<(String, usize)>,
}

/// The function the table's first `i` pairs map `k` to, the latest wins.
pub open spec fn spec_pairs_upto(pairs: Seq<(String, usize)>, k: Seq<char>, i: int) -> Option<
    usize,
>
    decreases i,
{
    if i <= 0 || i > pairs.len() {
        Option::None
    } else if pairs[i - 1].0@ == k {
        Option::Some(pairs[i - 1].1)
    } else {
        spec_pairs_upto(pairs, k, i - 1)
    }
}

/// The function the table maps `k` to.
pub open spec fn spec_pairs_get(pairs: Seq<(String, usize)>, k: Seq<char>) -> Option<usize> {
    spec_pairs_upto(pairs, k, pairs.len() as int)
}

/// A table whose pairs carry, position by position, the normalized keys and
/// functions of the entries maps every key as the entries do.
pub proof fn lemma_table_models_entries(
    pairs: Seq<(String, usize)>,
    entries: Seq<RegistryEntry>,
    mode: SearchMode,
    k: Seq<char>,
    i: int,
)
    requires
        pairs.len() == entries.len(),
        0 <= i <= entries.len(),
        forall|j: int|
            0 <= j < entries.len() ==> (#[trigger] pairs[j].0)@ == norm_key(mode, entries[j].key@)
                && pairs[j].1 == entries[j].fnc,
    ensures
        spec_pairs_upto(pairs, k, i) == spec_lookup_upto(entries, mode, k, i),
    decreases i,
{
    if i > 0 {
        lemma_table_models_entries(pairs, entries, mode, k, i - 1);
    }
}

/// Builds the lookup table of an exact or case-insensitive registry from the
/// registered entries: one pair per entry, its key normalized for the
/// registry's search mode. The finished table maps each normalized key to
/// the function of the latest entry registered under it.
pub fn initialize_map_fncs(entries: &Vec<RegistryEntry>, mode: SearchMode) -> (t: LookupTable)
    requires
        !(mode is RegExp),
    ensures
        t.pairs@.len() == entries@.len(),
        forall|j: int|
            0 <= j < entries@.len() ==> (#[trigger] t.pairs@[j].0)@ == norm_key(
                mode,
                entries@[j].key@,
            ) && t.pairs@[j].1 == entries@[j].fnc,
        forall|k: Seq<char>| #![auto]
            spec_pairs_get(t.pairs@, k) == spec_table_lookup(entries@, mode, k),
{
    let mut pairs: Vec<(String, usize)> = Vec::new();
    let n = entries.len();
    let mut i: usize = 0;
    while i < n
        invariant
            n == entries@.len(),
            i <= n,
            pairs@.len() == i,
            forall|j: int|
                0 <= j < i ==> (#[trigger] pairs@[j].0)@ == norm_key(mode, entries@[j].key@)
                    && pairs@[j].1 == entries@[j].fnc,
        decreases n - i,
    {
        let nk = normalize_key(mode, entries[i].key.as_str());
        pairs.push((nk, entries[i].fnc));
        i = i + 1;
    }
    let t = LookupTable { pairs };
    proof {
        assert forall|k: Seq<char>| #![auto]
            spec_pairs_get(t.pairs@, k) == spec_table_lookup(entries@, mode, k) by {
            lemma_table_models_entries(t.pairs@, entries@, mode, k, entries@.len() as int);
        }
    }
    t
}

fn not_found_err(key: &str) -> (r: String)
    ensures
        r@ == key_not_found_msg(key@),
{
    let mut m = "Key '".to_owned();
    m.append(key);
    m.append("' not found");
    proof {
        assert(m@ =~= key_not_found_msg(key@));
    }
    m
}

/// Looks a dispatch key up in a finished table: the key is normalized for
/// the registry's search mode and the table consulted; a miss returns the
/// not-found error carrying the key as it was given.
pub fn exec_lookup(table: &LookupTable, mode: SearchMode, key: &str) -> (r: Result<usize, String>)
    requires
        !(mode is RegExp),
    ensures
        res_view(r) == match spec_pairs_get(table.pairs@, norm_key(mode, key@)) {
            Option::Some(f) => Result::<usize, Seq<char>>::Ok(f),
            Option::None => Result::<usize, Seq<char>>::Err(key_not_found_msg(key@)),
        },
{
    let nk = normalize_key(mode, key);
    let n = table.pairs.len();
    let mut i: usize = n;
    while i > 0
        invariant
            n == table.pairs@.len(),
            i <= n,
            nk@ == norm_key(mode, key@),
            spec_pairs_get(table.pairs@, nk@) == spec_pairs_upto(table.pairs@, nk@, i as int),
        decreases i,
    {
        i = i - 1;
        if table.pairs[i].0.eq(&nk) {
            return Ok(table.pairs[i].1);
        }
    }
    Err(not_found_err(key))
}

/// Dispatches a key against a regular-expression registry: walks the entries
/// in registration order, compiling each key as a pattern; the first entry
/// whose pattern does not compile fails the call with the invalid-pattern
/// error, the first whose pattern matches wins, and a full pass without a
/// match returns the not-found error.
pub fn exec_regexp(entries: &Vec<RegistryEntry>, key: &str) -> (r: Result<usize, String>)
    ensures
        res_view(r) == spec_regexp_dispatch(entries@, key@),
{
    let n = entries.len();
    let mut i: usize = 0;
    while i < n
        invariant
            n == entries@.len(),
            i <= n,
            spec_regexp_dispatch(entries@, key@) == spec_regexp_from(entries@, key@, i as int),
        decreases n - i,
    {
        match try_regex_match(entries[i].key.as_str(), key) {
            Option::None => {
                let mut m = "Invalid regex expression: ".to_owned();
                m.append(entries[i].key.as_str());
                proof {
                    assert(m@ =~= invalid_regex_msg(entries@[i as int].key@));
                }
                return Err(m);
            },
            Option::Some(true) => {
                return Ok(entries[i].fnc);
            },
            Option::Some(false) => {},
        }
        i = i + 1;
    }
    Err(not_found_err(key))
}

/// Dispatches a key against a registry's entries under its search mode: the
/// identifier of the selected function, or the full error message. Exact and
/// case-insensitive registries consult the lookup table built from the
/// entries; regular-expression registries walk the entries directly.
pub fn exec_select(entries: &Vec<RegistryEntry>, mode: SearchMode, key: &str) -> (r: Result<
    usize,
    String,
>)
    ensures
        res_view(r) == spec_dispatch(entries@, mode, key@),
{
    match mode {
        SearchMode::RegExp => exec_regexp(entries, key),
        _ => {
            let table = initialize_map_fncs(entries, mode);
            exec_lookup(&table, mode, key)
        },
    }
}

/// The function a lookup yields is the latest entry whose normalized key is
/// the one sought: a lookup succeeds exactly when some entry's normalized
/// key equals it, the latest such entry's function is returned, and with no
/// such entry nothing is.
pub proof fn lemma_table_lookup_characterization(
    entries: Seq<RegistryEntry>,
    mode: SearchMode,
    k: Seq<char>,
    i: int,
)
    requires
        0 <= i <= entries.len(),
    ensures
        (spec_lookup_upto(entries, mode, k, i) is Some) <==> exists|j: int|
            0 <= j < i && norm_key(mode, #[trigger] entries[j].key@) == k,
        forall|j: int|
            (0 <= j < i && norm_key(mode, #[trigger] entries[j].key@) == k && (forall|l: int|
                j < l < i ==> norm_key(mode, #[trigger] entries[l].key@) != k))
                ==> spec_lookup_upto(entries, mode, k, i) == Option::Some(entries[j].fnc),
    decreases i,
{
    if i > 0 {
        lemma_table_lookup_characterization(entries, mode, k, i - 1);
    }
}

/// Exact-mode dispatch returns the registered function's identifier when the
/// dispatch key equals a registered key letter for letter — the latest such
/// registration wins — and the not-found error carrying the key otherwise,
/// including when only a different case-variant was registered.
pub proof fn lemma_exact_dispatch(entries: Seq<RegistryEntry>, key: Seq<char>)
    ensures
        (spec_dispatch(entries, SearchMode::Exact, key) is Ok) <==> exists|j: int|
            0 <= j < entries.len() && (#[trigger] entries[j].key@) == key,
        forall|j: int|
            (0 <= j < entries.len() && (#[trigger] entries[j].key@) == key && (forall|l: int|
                j < l < entries.len() ==> (#[trigger] entries[l].key@) != key)) ==> spec_dispatch(
                entries,
                SearchMode::Exact,
                key,
            ) == Result::<usize, Seq<char>>::Ok(entries[j].fnc),
        (forall|j: int| 0 <= j < entries.len() ==> (#[trigger] entries[j].key@) != key)
            ==> spec_dispatch(entries, SearchMode::Exact, key) == Result::<usize, Seq<char>>::Err(
            key_not_found_msg(key),
        ),
{
    lemma_table_lookup_characterization(entries, SearchMode::Exact, key, entries.len() as int);
}

/// Case-insensitive dispatch succeeds for a key exactly when some entry's
/// key has the same uppercase folding; two dispatch keys with the same
/// folding stand or fall together and, on success, select the same function.
pub proof fn lemma_ignore_case_dispatch(entries: Seq<RegistryEntry>, k1: Seq<char>, k2: Seq<char>)
    requires
        upper_of(k1) == upper_of(k2),
    ensures
        (spec_dispatch(entries, SearchMode::IgnoreCase, k1) is Ok) <==> exists|j: int|
            0 <= j < entries.len() && upper_of(#[trigger] entries[j].key@) == upper_of(k1),
        (spec_dispatch(entries, SearchMode::IgnoreCase, k1) is Ok) <==> (spec_dispatch(
            entries,
            SearchMode::IgnoreCase,
            k2,
        ) is Ok),
        (spec_dispatch(entries, SearchMode::IgnoreCase, k1) is Ok) ==> spec_dispatch(
            entries,
            SearchMode::IgnoreCase,
            k1,
        )->Ok_0 == spec_dispatch(entries, SearchMode::IgnoreCase, k2)->Ok_0,
{
    lemma_table_lookup_characterization(
        entries,
        SearchMode::IgnoreCase,
        upper_of(k1),
        entries.len() as int,
    );
}

/// Regular-expression dispatch succeeds exactly when some entry compiles and
/// matches while every earlier entry compiles and does not match; that
/// entry's function is returned. The first entry that does not compile,
/// every earlier one compiling and not matching, fails the call with the
/// invalid-pattern error, whatever comes after it. When every entry compiles
/// and none matches, the not-found error carries the key.
pub proof fn lemma_regexp_dispatch(entries: Seq<RegistryEntry>, key: Seq<char>, i: int)
    requires
        0 <= i <= entries.len(),
    ensures
        (spec_regexp_from(entries, key, i) is Ok) <==> exists|j: int|
            i <= j < entries.len() && regex_valid(#[trigger] entries[j].key@) && regex_matches(
                entries[j].key@,
                key,
            ) && (forall|l: int|
                i <= l < j ==> regex_valid(#[trigger] entries[l].key@) && !regex_matches(
                    entries[l].key@,
                    key,
                )),
        forall|j: int|
            (i <= j < entries.len() && regex_valid(#[trigger] entries[j].key@) && regex_matches(
                entries[j].key@,
                key,
            ) && (forall|l: int|
                i <= l < j ==> regex_valid(#[trigger] entries[l].key@) && !regex_matches(
                    entries[l].key@,
                    key,
                ))) ==> spec_regexp_from(entries, key, i) == Result::<usize, Seq<char>>::Ok(
                entries[j].fnc,
            ),
        forall|j: int|
            (i <= j < entries.len() && !regex_valid(#[trigger] entries[j].key@) && (forall|l: int|
                i <= l < j ==> regex_valid(#[trigger] entries[l].key@) && !regex_matches(
                    entries[l].key@,
                    key,
                ))) ==> spec_regexp_from(entries, key, i) == Result::<usize, Seq<char>>::Err(
                invalid_regex_msg(entries[j].key@),
            ),
        (forall|j: int|
            i <= j < entries.len() ==> regex_valid(#[trigger] entries[j].key@) && !regex_matches(
                entries[j].key@,
                key,
            )) ==> spec_regexp_from(entries, key, i) == Result::<usize, Seq<char>>::Err(
            key_not_found_msg(key),
        ),
    decreases entries.len() - i,
{
    if i < entries.len() {
        lemma_regexp_dispatch(entries, key, i + 1);
    }
}

/// Dispatch is idempotent: its outcome is a function of the registry's
/// entries, the search mode and the key alone, so two calls against the same
/// registry state return the same result.
pub proof fn lemma_dispatch_idempotent(
    r1: Result<usize, String>,
    r2: Result<usize, String>,
    entries: Seq<RegistryEntry>,
    mode: SearchMode,
    key: Seq<char>,
)
    requires
        res_view(r1) == spec_dispatch(entries, mode, key),
        res_view(r2) == spec_dispatch(entries, mode, key),
    ensures
        res_view(r1) == res_view(r2),
{
}

} // verus!
