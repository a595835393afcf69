//! What a script finds in its global scope, and what it must not find.
//!
//! A script may find there the part of the language's own library that
//! reaches no file, no process, no code that is loaded at run time and no
//! insides of a table, the host's helpers, and the functions of the catalog.
//! Every other name is taken out of the interpreter's globals before a
//! script runs: among them the globals that the blocked symbols belong to,
//! and the module loader.

use crate::catalog::{
    function_name, function_named, lemma_lookup_of_name, lemma_names_revealed, CatalogFunction,
};
use crate::errors::{blocked_entry, blocked_functions, BLOCKED_LEN};
use crate::text::{chars_of, find_char, lemma_views_push, next_char, string_of_range, views};
use vstd::prelude::*;

verus! {

/// The global that the blocked symbol `symbol` belongs to: the module
/// before its first dot, or the symbol itself where it has no dot.
pub open spec fn root_of(symbol: Seq<char>) -> Seq<char> {
    symbol.take(next_char(symbol, '.', 0))
}

/// Whether `name` is a global that a blocked symbol belongs to.
pub open spec fn is_denied(name: Seq<char>) -> bool {
    exists|i: int| 0 <= i < BLOCKED_LEN && #[trigger] root_of(blocked_entry(i).0) == name
}

/// The global that the blocked symbol `symbol` belongs to.
pub fn root(symbol: &str) -> (out: String)
    ensures
        out@ == root_of(symbol@),
{
    let text = chars_of(symbol);
    let dot = find_char(&text, '.', 0);
    let out = string_of_range(&text, 0, dot);
    assert(text@.subrange(0, dot as int) =~= symbol@.take(dot as int));
    out
}

/// Whether `name` is among `names`.
fn listed(names: &Vec<String>, name: &str) -> (out: bool)
    ensures
        out == views(names@).contains(name@),
{
    let mut i: usize = 0;
    while i < names.len()
        invariant
            i <= names.len(),
            forall|e: int| 0 <= e < i ==> names@[e]@ != name@,
        decreases names.len() - i,
    {
        if names[i].as_str().eq(name) {
            assert(views(names@)[i as int] == name@);
            return true;
        }
        i += 1;
    }
    false
}

/// The globals that the first `n` blocked symbols belong to, each once, in
/// the order in which the table of blocked symbols first names them.
pub open spec fn denied_roots(n: nat) -> Seq<Seq<char>>
    decreases n,
{
    if n == 0 {
        Seq::empty()
    } else {
        let before = denied_roots((n - 1) as nat);
        let next = root_of(blocked_entry(n - 1).0);
        if before.contains(next) {
            before
        } else {
            before.push(next)
        }
    }
}

/// The denied globals are the globals that a blocked symbol belongs to, and
/// none is listed twice.
pub proof fn lemma_denied_roots(n: nat)
    requires
        n <= BLOCKED_LEN,
    ensures
        denied_roots(n).no_duplicates(),
        forall|name: Seq<char>|
            denied_roots(n).contains(name) <==> exists|i: int|
                0 <= i < n && #[trigger] root_of(blocked_entry(i).0) == name,
    decreases n,
{
    if n > 0 {
        lemma_denied_roots((n - 1) as nat);
        let before = denied_roots((n - 1) as nat);
        let next = root_of(blocked_entry(n - 1).0);
        assert forall|name: Seq<char>|
            denied_roots(n).contains(name) <==> exists|i: int|
                0 <= i < n && #[trigger] root_of(blocked_entry(i).0) == name by {
            crate::text::lemma_push_contains(before, next, name);
            if denied_roots(n).contains(name) {
                if before.contains(name) {
                    let i = choose|i: int|
                        0 <= i < n - 1 && #[trigger] root_of(blocked_entry(i).0) == name;
                    assert(0 <= i < n && root_of(blocked_entry(i).0) == name);
                } else {
                    assert(root_of(blocked_entry(n - 1).0) == name);
                }
            }
            if exists|i: int| 0 <= i < n && #[trigger] root_of(blocked_entry(i).0) == name {
                let i = choose|i: int| 0 <= i < n && #[trigger] root_of(blocked_entry(i).0) == name;
                if i < n - 1 {
                    assert(before.contains(name));
                }
            }
        }
    }
}

/// The globals that the blocked symbols belong to, each once. A script
/// finds none of them in a sealed scope.
pub fn denied_globals() -> (out: Vec<String>)
    ensures
        views(out@) == denied_roots(BLOCKED_LEN as nat),
        forall|name: Seq<char>| views(out@).contains(name) <==> is_denied(name),
        views(out@).no_duplicates(),
{
    let table = blocked_functions();
    let mut out: Vec<String> = Vec::new();
    let mut i: usize = 0;
    assert(views(out@) =~= denied_roots(0));
    while i < table.len()
        invariant
            i <= table.len(),
            table@.len() == BLOCKED_LEN,
            forall|e: int|
                0 <= e < BLOCKED_LEN ==> ((#[trigger] table@[e]).0@, table@[e].1@) == blocked_entry(
                    e,
                ),
            views(out@) == denied_roots(i as nat),
        decreases table.len() - i,
    {
        assert((table@[i as int].0@, table@[i as int].1@) == blocked_entry(i as int));
        let name = root(table[i].0);
        if !listed(&out, name.as_str()) {
            proof {
                lemma_views_push(out@, name);
            }
            out.push(name);
        }
        i += 1;
    }
    proof {
        lemma_denied_roots(BLOCKED_LEN as nat);
    }
    out
}

/// Whether `name` is a global that a blocked symbol belongs to.
pub fn is_denied_global(name: &str) -> (out: bool)
    ensures
        out == is_denied(name@),
{
    let denied = denied_globals();
    listed(&denied, name)
}

/// The script interpreter of the `rlua` crate. Nothing is known of what is
/// in it but the names that its global scope binds.
#[verifier::external_type_specification]
#[verifier::external_body]
pub struct ExLua(rlua::Lua);

/// The names that the global scope of `lua` binds to a value.
pub uninterp spec fn bound_globals(lua: rlua::Lua) -> Set<Seq<char>>;

/// Calls `rlua::Lua::globals` and, on the table it gives, `Table::raw_set`
/// with the value nil, which takes the entry under `name` out of the table
/// whatever metatable the table has. The call writes nothing but that one
/// entry, and where it fails before the write it writes nothing: so the
/// names bound afterwards are those bound before, with or without `name`,
/// and without it where the call succeeds.
#[verifier::external_body]
fn unbind(lua: &mut rlua::Lua, name: &str) -> (out: bool)
    ensures
        bound_globals(*final(lua)) == bound_globals(*old(lua)) || bound_globals(*final(lua))
            == bound_globals(*old(lua)).remove(name@),
        out ==> bound_globals(*final(lua)) == bound_globals(*old(lua)).remove(name@),
{
    lua.globals().raw_set(name, rlua::Value::Nil).is_ok()
}

/// Calls `rlua::Lua::globals` and, on the table it gives, `Table::pairs`,
/// which walks every entry of the table whatever metatable the table has,
/// and takes each key as text with `rlua::String::to_str`. Where every key
/// is a string of valid UTF-8 and the walk does not fail, the result holds
/// the names that are bound and no other; otherwise there is no result.
#[verifier::external_body]
fn bound_names(lua: &rlua::Lua) -> (out: Option<Vec<String>>)
    ensures
        out matches Some(names) ==> forall|name: Seq<char>|
            bound_globals(*lua).contains(name) <==> views(names@).contains(name),
{
    let mut names = Vec::new();
    for pair in lua.globals().pairs::<rlua::Value, rlua::Value>() {
        match pair {
            Ok((rlua::Value::String(key), _)) => names.push(key.to_str().ok()?.to_string()),
            _ => return None,
        }
    }
    Some(names)
}

/// The number of names of the language's own library that a script may use.
pub const BUILTINS_LEN: usize = 21;

/// Name `i` of those of the language's own library that a script may use:
/// what reads values and tables, handles errors, and works on strings,
/// numbers, tables and coroutines, and nothing that reaches a file, a
/// process, code that is loaded at run time, or the insides of a table.
pub open spec fn builtin_name(i: int) -> Seq<char> {
    if i == 0 {
        "assert"@
    } else if i == 1 {
        "error"@
    } else if i == 2 {
        "ipairs"@
    } else if i == 3 {
        "next"@
    } else if i == 4 {
        "pairs"@
    } else if i == 5 {
        "pcall"@
    } else if i == 6 {
        "print"@
    } else if i == 7 {
        "rawequal"@
    } else if i == 8 {
        "rawlen"@
    } else if i == 9 {
        "select"@
    } else if i == 10 {
        "tonumber"@
    } else if i == 11 {
        "tostring"@
    } else if i == 12 {
        "type"@
    } else if i == 13 {
        "xpcall"@
    } else if i == 14 {
        "_G"@
    } else if i == 15 {
        "_VERSION"@
    } else if i == 16 {
        "coroutine"@
    } else if i == 17 {
        "math"@
    } else if i == 18 {
        "string"@
    } else if i == 19 {
        "table"@
    } else {
        "utf8"@
    }
}

/// The names of the language's own library that a script may use.
pub fn builtin_globals() -> (out: Vec<&'static str>)
    ensures
        out@.len() == BUILTINS_LEN,
        forall|i: int| 0 <= i < BUILTINS_LEN ==> (#[trigger] out@[i])@ == builtin_name(i),
{
    let mut out: Vec<&'static str> = Vec::new();
    out.push("assert");
    out.push("error");
    out.push("ipairs");
    out.push("next");
    out.push("pairs");
    out.push("pcall");
    out.push("print");
    out.push("rawequal");
    out.push("rawlen");
    out.push("select");
    out.push("tonumber");
    out.push("tostring");
    out.push("type");
    out.push("xpcall");
    out.push("_G");
    out.push("_VERSION");
    out.push("coroutine");
    out.push("math");
    out.push("string");
    out.push("table");
    out.push("utf8");
    out
}

/// The name under which the host binds its library of helpers.
pub open spec fn helpers_name() -> Seq<char> {
    "liath"@
}

/// Whether a script may find `name` in its global scope: it is a name of the
/// language's own library that a script may use, the name of the host's
/// helpers, or the name of a function of the catalog.
pub open spec fn is_approved(name: Seq<char>) -> bool {
    ||| exists|i: int| 0 <= i < BUILTINS_LEN && #[trigger] builtin_name(i) == name
    ||| name == helpers_name()
    ||| function_named(name) is Some
}

/// Whether a script may find `name` in its global scope.
pub fn is_approved_global(name: &str) -> (out: bool)
    ensures
        out == is_approved(name@),
{
    let builtins = builtin_globals();
    let mut i: usize = 0;
    while i < builtins.len()
        invariant
            i <= builtins.len(),
            builtins@.len() == BUILTINS_LEN,
            forall|e: int| 0 <= e < BUILTINS_LEN ==> (#[trigger] builtins@[e])@ == builtin_name(e),
            forall|e: int| 0 <= e < i ==> #[trigger] builtin_name(e) != name@,
        decreases builtins.len() - i,
    {
        if builtins[i].eq(name) {
            assert(builtin_name(i as int) == name@);
            return true;
        }
        i += 1;
    }
    name.eq("liath") || CatalogFunction::lookup(name).is_some()
}

/// Whether a script may find every one of `names` in its global scope.
pub open spec fn all_approved_names(names: Seq<Seq<char>>) -> bool {
    forall|e: int| 0 <= e < names.len() ==> is_approved(#[trigger] names[e])
}

/// Whether a scope that binds exactly `names` binds only what a script may
/// find there.
pub fn all_approved(names: &Vec<String>) -> (out: bool)
    ensures
        out == all_approved_names(views(names@)),
{
    let mut i: usize = 0;
    while i < names.len()
        invariant
            i <= names.len(),
            forall|e: int| 0 <= e < i ==> is_approved(#[trigger] views(names@)[e]),
        decreases names.len() - i,
    {
        if !is_approved_global(names[i].as_str()) {
            assert(!is_approved(views(names@)[i as int]));
            return false;
        }
        i += 1;
    }
    true
}

/// Whether the global scope of `lua` binds only what a script may find
/// there.
pub open spec fn sealed(lua: rlua::Lua) -> bool {
    forall|name: Seq<char>| bound_globals(lua).contains(name) ==> is_approved(name)
}

/// Those of the names `globals` that a script may find in its global scope.
pub open spec fn approved_of(globals: Set<Seq<char>>) -> Set<Seq<char>> {
    Set::new(|name: Seq<char>| globals.contains(name) && is_approved(name))
}

/// Takes out of the global scope of `lua` every name that a script may not
/// find there, and says whether all of them could be taken out. Whatever
/// comes of it, no name is bound that was not bound before, and every name
/// that a script may find is bound as before. Where all could be taken out,
/// what is bound afterwards is what was bound before and a script may find.
pub fn seal(lua: &mut rlua::Lua) -> (out: bool)
    ensures
        forall|name: Seq<char>|
            bound_globals(*final(lua)).contains(name) ==> bound_globals(*old(lua)).contains(name),
        forall|name: Seq<char>|
            is_approved(name) ==> (bound_globals(*final(lua)).contains(name) == bound_globals(
                *old(lua),
            ).contains(name)),
        out ==> sealed(*final(lua)),
        out ==> bound_globals(*final(lua)) == approved_of(bound_globals(*old(lua))),
{
    let names = match bound_names(lua) {
        Some(names) => names,
        None => {
            return false;
        },
    };
    let mut removed: Vec<bool> = Vec::new();
    let mut i: usize = 0;
    while i < names.len()
        invariant
            i <= names.len(),
            forall|name: Seq<char>|
                bound_globals(*old(lua)).contains(name) <==> views(names@).contains(name),
            forall|name: Seq<char>|
                bound_globals(*lua).contains(name) ==> bound_globals(*old(lua)).contains(name),
            forall|name: Seq<char>|
                is_approved(name) ==> (bound_globals(*lua).contains(name) == bound_globals(
                    *old(lua),
                ).contains(name)),
            all_succeeded(removed@) ==> forall|name: Seq<char>|
                bound_globals(*lua).contains(name) ==> (is_approved(name) || !views(names@).take(
                    i as int,
                ).contains(name)),
        decreases names.len() - i,
    {
        let ghost gone = views(names@).take(i as int);
        let ghost earlier = removed@;
        let ghost before = bound_globals(*lua);
        let approved = is_approved_global(names[i].as_str());
        if !approved {
            removed.push(unbind(lua, names[i].as_str()));
        }
        i += 1;
        proof {
            let name_i = names@[i - 1]@;
            assert(views(names@)[i - 1] == name_i);
            assert(views(names@).take(i as int) =~= gone.push(name_i));
            if !approved {
                lemma_outcomes(earlier, removed@[removed@.len() - 1]);
                assert(removed@ =~= earlier.push(removed@[removed@.len() - 1]));
            }
            assert(bound_globals(*lua) == before || bound_globals(*lua) == before.remove(name_i));
            if all_succeeded(removed@) {
                assert forall|name: Seq<char>| bound_globals(*lua).contains(name) implies (
                is_approved(name) || !views(names@).take(i as int).contains(name)) by {
                    crate::text::lemma_push_contains(gone, name_i, name);
                }
            }
        }
    }
    let out = sealing_succeeded(&removed);
    proof {
        assert(views(names@).take(names@.len() as int) =~= views(names@));
        if out {
            assert(bound_globals(*lua) =~= approved_of(bound_globals(*old(lua))));
        }
    }
    out
}

/// Whether the global scope of `lua` binds only what a script may find
/// there, where that can be told: there is no answer where the interpreter
/// fails to list what it binds.
pub fn is_sealed(lua: &rlua::Lua) -> (out: Option<bool>)
    ensures
        out matches Some(answer) ==> answer == sealed(*lua),
{
    match bound_names(lua) {
        Some(names) => {
            let answer = all_approved(&names);
            proof {
                if answer {
                    assert forall|name: Seq<char>| bound_globals(*lua).contains(name) implies is_approved(
                        name,
                    ) by {
                        let e = choose|e: int|
                            0 <= e < views(names@).len() && views(names@)[e] == name;
                        assert(is_approved(views(names@)[e]));
                    }
                } else {
                    let e = choose|e: int|
                        0 <= e < views(names@).len() && !is_approved(#[trigger] views(names@)[e]);
                    assert(views(names@).contains(views(names@)[e]));
                    assert(bound_globals(*lua).contains(views(names@)[e]));
                }
            }
            Some(answer)
        },
        None => None,
    }
}

/// Everything succeeded with one more outcome where everything had
/// succeeded before and the outcome is a success.
proof fn lemma_outcomes(earlier: Seq<bool>, last: bool)
    ensures
        all_succeeded(earlier.push(last)) <==> all_succeeded(earlier) && last,
{
    let all = earlier.push(last);
    if all_succeeded(all) {
        assert(all[earlier.len() as int]);
        assert forall|e: int| 0 <= e < earlier.len() implies #[trigger] earlier[e] by {
            assert(all[e]);
        }
    }
}

/// Whether every one of `outcomes` is a success.
pub open spec fn all_succeeded(outcomes: Seq<bool>) -> bool {
    forall|e: int| 0 <= e < outcomes.len() ==> #[trigger] outcomes[e]
}

/// Whether sealing succeeded, where `outcomes` tells of each name that had
/// to go whether it could be taken out: it did if every one could.
pub fn sealing_succeeded(outcomes: &Vec<bool>) -> (out: bool)
    ensures
        out == all_succeeded(outcomes@),
{
    let mut i: usize = 0;
    while i < outcomes.len()
        invariant
            i <= outcomes.len(),
            forall|e: int| 0 <= e < i ==> #[trigger] outcomes@[e],
        decreases outcomes.len() - i,
    {
        if !outcomes[i] {
            return false;
        }
        i += 1;
    }
    true
}

/// The global that blocked symbol `i` belongs to, letter by letter.
spec fn denied_root(i: int) -> Seq<char> {
    if i == 0 {
        seq!['i', 'o']
    } else if i == 1 {
        seq!['i', 'o']
    } else if i == 2 {
        seq!['i', 'o']
    } else if i == 3 {
        seq!['o', 's']
    } else if i == 4 {
        seq!['o', 's']
    } else if i == 5 {
        seq!['o', 's']
    } else if i == 6 {
        seq!['o', 's']
    } else if i == 7 {
        seq!['r', 'e', 'q', 'u', 'i', 'r', 'e']
    } else if i == 8 {
        seq!['l', 'o', 'a', 'd', 'f', 'i', 'l', 'e']
    } else if i == 9 {
        seq!['d', 'o', 'f', 'i', 'l', 'e']
    } else if i == 10 {
        seq!['l', 'o', 'a', 'd']
    } else if i == 11 {
        seq!['l', 'o', 'a', 'd', 's', 't', 'r', 'i', 'n', 'g']
    } else if i == 12 {
        seq!['d', 'e', 'b', 'u', 'g']
    } else if i == 13 {
        seq!['d', 'e', 'b', 'u', 'g']
    } else if i == 14 {
        seq!['r', 'a', 'w', 'g', 'e', 't']
    } else if i == 15 {
        seq!['r', 'a', 'w', 's', 'e', 't']
    } else if i == 16 {
        seq!['s', 'e', 't', 'm', 'e', 't', 'a', 't', 'a', 'b', 'l', 'e']
    } else {
        seq!['g', 'e', 't', 'm', 'e', 't', 'a', 't', 'a', 'b', 'l', 'e']
    }
}

/// Where no `c` stands in `text` from `from` up to `at`, and one stands at
/// `at` or `text` ends there, the first `c` at or after `from` is found at
/// `at`.
proof fn lemma_next_char_at(text: Seq<char>, c: char, from: int, at: int)
    requires
        0 <= from <= at <= text.len(),
        forall|e: int| from <= e < at ==> text[e] != c,
        at < text.len() ==> text[at] == c,
    ensures
        next_char(text, c, from) == at,
    decreases at - from,
{
    if from < at {
        lemma_next_char_at(text, c, from + 1, at);
    }
}

/// The globals that the blocked symbols belong to, letter by letter.
proof fn lemma_roots()
    ensures
        forall|i: int| 0 <= i < BLOCKED_LEN ==> #[trigger] root_of(blocked_entry(i).0) == denied_root(i),
{
    assert(root_of(blocked_entry(0).0) == denied_root(0)) by {
        reveal_strlit("io.open");
        let symbol = "io.open"@;
        assert(symbol.len() == 7);
        assert forall|e: int| 0 <= e < 2 implies symbol[e] != '.' by {
            assert(symbol[0] != '.' && symbol[1] != '.');
        }
        lemma_next_char_at(symbol, '.', 0, 2);
        assert(symbol.take(2) =~= denied_root(0));
    }
    assert(root_of(blocked_entry(1).0) == denied_root(1)) by {
        reveal_strlit("io.read");
        let symbol = "io.read"@;
        assert(symbol.len() == 7);
        assert forall|e: int| 0 <= e < 2 implies symbol[e] != '.' by {
            assert(symbol[0] != '.' && symbol[1] != '.');
        }
        lemma_next_char_at(symbol, '.', 0, 2);
        assert(symbol.take(2) =~= denied_root(1));
    }
    assert(root_of(blocked_entry(2).0) == denied_root(2)) by {
        reveal_strlit("io.write");
        let symbol = "io.write"@;
        assert(symbol.len() == 8);
        assert forall|e: int| 0 <= e < 2 implies symbol[e] != '.' by {
            assert(symbol[0] != '.' && symbol[1] != '.');
        }
        lemma_next_char_at(symbol, '.', 0, 2);
        assert(symbol.take(2) =~= denied_root(2));
    }
    assert(root_of(blocked_entry(3).0) == denied_root(3)) by {
        reveal_strlit("os.execute");
        let symbol = "os.execute"@;
        assert(symbol.len() == 10);
        assert forall|e: int| 0 <= e < 2 implies symbol[e] != '.' by {
            assert(symbol[0] != '.' && symbol[1] != '.');
        }
        lemma_next_char_at(symbol, '.', 0, 2);
        assert(symbol.take(2) =~= denied_root(3));
    }
    assert(root_of(blocked_entry(4).0) == denied_root(4)) by {
        reveal_strlit("os.remove");
        let symbol = "os.remove"@;
        assert(symbol.len() == 9);
        assert forall|e: int| 0 <= e < 2 implies symbol[e] != '.' by {
            assert(symbol[0] != '.' && symbol[1] != '.');
        }
        lemma_next_char_at(symbol, '.', 0, 2);
        assert(symbol.take(2) =~= denied_root(4));
    }
    assert(root_of(blocked_entry(5).0) == denied_root(5)) by {
        reveal_strlit("os.rename");
        let symbol = "os.rename"@;
        assert(symbol.len() == 9);
        assert forall|e: int| 0 <= e < 2 implies symbol[e] != '.' by {
            assert(symbol[0] != '.' && symbol[1] != '.');
        }
        lemma_next_char_at(symbol, '.', 0, 2);
        assert(symbol.take(2) =~= denied_root(5));
    }
    assert(root_of(blocked_entry(6).0) == denied_root(6)) by {
        reveal_strlit("os.exit");
        let symbol = "os.exit"@;
        assert(symbol.len() == 7);
        assert forall|e: int| 0 <= e < 2 implies symbol[e] != '.' by {
            assert(symbol[0] != '.' && symbol[1] != '.');
        }
        lemma_next_char_at(symbol, '.', 0, 2);
        assert(symbol.take(2) =~= denied_root(6));
    }
    assert(root_of(blocked_entry(7).0) == denied_root(7)) by {
        reveal_strlit("require");
        let symbol = "require"@;
        assert(symbol.len() == 7);
        assert forall|e: int| 0 <= e < 7 implies symbol[e] != '.' by {
            assert(symbol[0] != '.' && symbol[1] != '.' && symbol[2] != '.' && symbol[3] != '.' && symbol[4] != '.' && symbol[5] != '.' && symbol[6] != '.');
        }
        lemma_next_char_at(symbol, '.', 0, 7);
        assert(symbol.take(7) =~= denied_root(7));
    }
    assert(root_of(blocked_entry(8).0) == denied_root(8)) by {
        reveal_strlit("loadfile");
        let symbol = "loadfile"@;
        assert(symbol.len() == 8);
        assert forall|e: int| 0 <= e < 8 implies symbol[e] != '.' by {
            assert(symbol[0] != '.' && symbol[1] != '.' && symbol[2] != '.' && symbol[3] != '.' && symbol[4] != '.' && symbol[5] != '.' && symbol[6] != '.' && symbol[7] != '.');
        }
        lemma_next_char_at(symbol, '.', 0, 8);
        assert(symbol.take(8) =~= denied_root(8));
    }
    assert(root_of(blocked_entry(9).0) == denied_root(9)) by {
        reveal_strlit("dofile");
        let symbol = "dofile"@;
        assert(symbol.len() == 6);
        assert forall|e: int| 0 <= e < 6 implies symbol[e] != '.' by {
            assert(symbol[0] != '.' && symbol[1] != '.' && symbol[2] != '.' && symbol[3] != '.' && symbol[4] != '.' && symbol[5] != '.');
        }
        lemma_next_char_at(symbol, '.', 0, 6);
        assert(symbol.take(6) =~= denied_root(9));
    }
    assert(root_of(blocked_entry(10).0) == denied_root(10)) by {
        reveal_strlit("load");
        let symbol = "load"@;
        assert(symbol.len() == 4);
        assert forall|e: int| 0 <= e < 4 implies symbol[e] != '.' by {
            assert(symbol[0] != '.' && symbol[1] != '.' && symbol[2] != '.' && symbol[3] != '.');
        }
        lemma_next_char_at(symbol, '.', 0, 4);
        assert(symbol.take(4) =~= denied_root(10));
    }
    assert(root_of(blocked_entry(11).0) == denied_root(11)) by {
        reveal_strlit("loadstring");
        let symbol = "loadstring"@;
        assert(symbol.len() == 10);
        assert forall|e: int| 0 <= e < 10 implies symbol[e] != '.' by {
            assert(symbol[0] != '.' && symbol[1] != '.' && symbol[2] != '.' && symbol[3] != '.' && symbol[4] != '.' && symbol[5] != '.' && symbol[6] != '.' && symbol[7] != '.' && symbol[8] != '.' && symbol[9] != '.');
        }
        lemma_next_char_at(symbol, '.', 0, 10);
        assert(symbol.take(10) =~= denied_root(11));
    }
    assert(root_of(blocked_entry(12).0) == denied_root(12)) by {
        reveal_strlit("debug.getinfo");
        let symbol = "debug.getinfo"@;
        assert(symbol.len() == 13);
        assert forall|e: int| 0 <= e < 5 implies symbol[e] != '.' by {
            assert(symbol[0] != '.' && symbol[1] != '.' && symbol[2] != '.' && symbol[3] != '.' && symbol[4] != '.');
        }
        lemma_next_char_at(symbol, '.', 0, 5);
        assert(symbol.take(5) =~= denied_root(12));
    }
    assert(root_of(blocked_entry(13).0) == denied_root(13)) by {
        reveal_strlit("debug.sethook");
        let symbol = "debug.sethook"@;
        assert(symbol.len() == 13);
        assert forall|e: int| 0 <= e < 5 implies symbol[e] != '.' by {
            assert(symbol[0] != '.' && symbol[1] != '.' && symbol[2] != '.' && symbol[3] != '.' && symbol[4] != '.');
        }
        lemma_next_char_at(symbol, '.', 0, 5);
        assert(symbol.take(5) =~= denied_root(13));
    }
    assert(root_of(blocked_entry(14).0) == denied_root(14)) by {
        reveal_strlit("rawget");
        let symbol = "rawget"@;
        assert(symbol.len() == 6);
        assert forall|e: int| 0 <= e < 6 implies symbol[e] != '.' by {
            assert(symbol[0] != '.' && symbol[1] != '.' && symbol[2] != '.' && symbol[3] != '.' && symbol[4] != '.' && symbol[5] != '.');
        }
        lemma_next_char_at(symbol, '.', 0, 6);
        assert(symbol.take(6) =~= denied_root(14));
    }
    assert(root_of(blocked_entry(15).0) == denied_root(15)) by {
        reveal_strlit("rawset");
        let symbol = "rawset"@;
        assert(symbol.len() == 6);
        assert forall|e: int| 0 <= e < 6 implies symbol[e] != '.' by {
            assert(symbol[0] != '.' && symbol[1] != '.' && symbol[2] != '.' && symbol[3] != '.' && symbol[4] != '.' && symbol[5] != '.');
        }
        lemma_next_char_at(symbol, '.', 0, 6);
        assert(symbol.take(6) =~= denied_root(15));
    }
    assert(root_of(blocked_entry(16).0) == denied_root(16)) by {
        reveal_strlit("setmetatable");
        let symbol = "setmetatable"@;
        assert(symbol.len() == 12);
        assert forall|e: int| 0 <= e < 12 implies symbol[e] != '.' by {
            assert(symbol[0] != '.' && symbol[1] != '.' && symbol[2] != '.' && symbol[3] != '.' && symbol[4] != '.' && symbol[5] != '.' && symbol[6] != '.' && symbol[7] != '.' && symbol[8] != '.' && symbol[9] != '.' && symbol[10] != '.' && symbol[11] != '.');
        }
        lemma_next_char_at(symbol, '.', 0, 12);
        assert(symbol.take(12) =~= denied_root(16));
    }
    assert(root_of(blocked_entry(17).0) == denied_root(17)) by {
        reveal_strlit("getmetatable");
        let symbol = "getmetatable"@;
        assert(symbol.len() == 12);
        assert forall|e: int| 0 <= e < 12 implies symbol[e] != '.' by {
            assert(symbol[0] != '.' && symbol[1] != '.' && symbol[2] != '.' && symbol[3] != '.' && symbol[4] != '.' && symbol[5] != '.' && symbol[6] != '.' && symbol[7] != '.' && symbol[8] != '.' && symbol[9] != '.' && symbol[10] != '.' && symbol[11] != '.');
        }
        lemma_next_char_at(symbol, '.', 0, 12);
        assert(symbol.take(12) =~= denied_root(17));
    }
    assert forall|i: int| 0 <= i < BLOCKED_LEN implies #[trigger] root_of(blocked_entry(i).0)
        == denied_root(i) by {
        assert(i == 0 || i == 1 || i == 2 || i == 3 || i == 4 || i == 5 || i == 6 || i == 7 || i == 8
            || i == 9 || i == 10 || i == 11 || i == 12 || i == 13 || i == 14 || i == 15 || i == 16
            || i == 17);
    }
}

/// No function of the catalog bears the name of a global that a blocked
/// symbol belongs to: binding the catalog binds nothing that sealing took
/// away.
pub proof fn lemma_catalog_not_denied(function: CatalogFunction)
    ensures
        !is_denied(function_name(function)),
{
    lemma_names_revealed();
    lemma_roots();
    let name = function_name(function);
    assert forall|i: int| 0 <= i < BLOCKED_LEN implies #[trigger] root_of(blocked_entry(i).0)
        != name by {
        assert(root_of(blocked_entry(i).0) == denied_root(i));
        assert(denied_root(i).len() != name.len() || denied_root(i)[0] != name[0] || denied_root(
            i,
        )[1] != name[1] || denied_root(i)[2] != name[2]);
    }
}

/// Whether two names differ in their length or in one of their first four
/// letters.
spec fn differ(a: Seq<char>, b: Seq<char>) -> bool {
    a.len() != b.len() || a[0] != b[0] || a[1] != b[1] || a[2] != b[2] || a[3] != b[3]
}

/// The names that a script may find, and the name of the module loader,
/// letter by letter.
proof fn lemma_builtins_revealed()
    ensures
        "assert"@ == seq!['a', 's', 's', 'e', 'r', 't'],
        "error"@ == seq!['e', 'r', 'r', 'o', 'r'],
        "ipairs"@ == seq!['i', 'p', 'a', 'i', 'r', 's'],
        "next"@ == seq!['n', 'e', 'x', 't'],
        "pairs"@ == seq!['p', 'a', 'i', 'r', 's'],
        "pcall"@ == seq!['p', 'c', 'a', 'l', 'l'],
        "print"@ == seq!['p', 'r', 'i', 'n', 't'],
        "rawequal"@ == seq!['r', 'a', 'w', 'e', 'q', 'u', 'a', 'l'],
        "rawlen"@ == seq!['r', 'a', 'w', 'l', 'e', 'n'],
        "select"@ == seq!['s', 'e', 'l', 'e', 'c', 't'],
        "tonumber"@ == seq!['t', 'o', 'n', 'u', 'm', 'b', 'e', 'r'],
        "tostring"@ == seq!['t', 'o', 's', 't', 'r', 'i', 'n', 'g'],
        "type"@ == seq!['t', 'y', 'p', 'e'],
        "xpcall"@ == seq!['x', 'p', 'c', 'a', 'l', 'l'],
        "_G"@ == seq!['_', 'G'],
        "_VERSION"@ == seq!['_', 'V', 'E', 'R', 'S', 'I', 'O', 'N'],
        "coroutine"@ == seq!['c', 'o', 'r', 'o', 'u', 't', 'i', 'n', 'e'],
        "math"@ == seq!['m', 'a', 't', 'h'],
        "string"@ == seq!['s', 't', 'r', 'i', 'n', 'g'],
        "table"@ == seq!['t', 'a', 'b', 'l', 'e'],
        "utf8"@ == seq!['u', 't', 'f', '8'],
        "liath"@ == seq!['l', 'i', 'a', 't', 'h'],
        "package"@ == seq!['p', 'a', 'c', 'k', 'a', 'g', 'e'],
{
    reveal_strlit("assert");
    assert("assert"@ =~= seq!['a', 's', 's', 'e', 'r', 't']);
    reveal_strlit("error");
    assert("error"@ =~= seq!['e', 'r', 'r', 'o', 'r']);
    reveal_strlit("ipairs");
    assert("ipairs"@ =~= seq!['i', 'p', 'a', 'i', 'r', 's']);
    reveal_strlit("next");
    assert("next"@ =~= seq!['n', 'e', 'x', 't']);
    reveal_strlit("pairs");
    assert("pairs"@ =~= seq!['p', 'a', 'i', 'r', 's']);
    reveal_strlit("pcall");
    assert("pcall"@ =~= seq!['p', 'c', 'a', 'l', 'l']);
    reveal_strlit("print");
    assert("print"@ =~= seq!['p', 'r', 'i', 'n', 't']);
    reveal_strlit("rawequal");
    assert("rawequal"@ =~= seq!['r', 'a', 'w', 'e', 'q', 'u', 'a', 'l']);
    reveal_strlit("rawlen");
    assert("rawlen"@ =~= seq!['r', 'a', 'w', 'l', 'e', 'n']);
    reveal_strlit("select");
    assert("select"@ =~= seq!['s', 'e', 'l', 'e', 'c', 't']);
    reveal_strlit("tonumber");
    assert("tonumber"@ =~= seq!['t', 'o', 'n', 'u', 'm', 'b', 'e', 'r']);
    reveal_strlit("tostring");
    assert("tostring"@ =~= seq!['t', 'o', 's', 't', 'r', 'i', 'n', 'g']);
    reveal_strlit("type");
    assert("type"@ =~= seq!['t', 'y', 'p', 'e']);
    reveal_strlit("xpcall");
    assert("xpcall"@ =~= seq!['x', 'p', 'c', 'a', 'l', 'l']);
    reveal_strlit("_G");
    assert("_G"@ =~= seq!['_', 'G']);
    reveal_strlit("_VERSION");
    assert("_VERSION"@ =~= seq!['_', 'V', 'E', 'R', 'S', 'I', 'O', 'N']);
    reveal_strlit("coroutine");
    assert("coroutine"@ =~= seq!['c', 'o', 'r', 'o', 'u', 't', 'i', 'n', 'e']);
    reveal_strlit("math");
    assert("math"@ =~= seq!['m', 'a', 't', 'h']);
    reveal_strlit("string");
    assert("string"@ =~= seq!['s', 't', 'r', 'i', 'n', 'g']);
    reveal_strlit("table");
    assert("table"@ =~= seq!['t', 'a', 'b', 'l', 'e']);
    reveal_strlit("utf8");
    assert("utf8"@ =~= seq!['u', 't', 'f', '8']);
    reveal_strlit("liath");
    assert("liath"@ =~= seq!['l', 'i', 'a', 't', 'h']);
    reveal_strlit("package");
    assert("package"@ =~= seq!['p', 'a', 'c', 'k', 'a', 'g', 'e']);
}

/// A name that the catalog knows is the name of the function it is known
/// for.
proof fn lemma_named(name: Seq<char>)
    requires
        function_named(name) is Some,
    ensures
        name == function_name(function_named(name)->0),
{
}

/// Nothing that a script may find in its global scope is a global that a
/// blocked symbol belongs to.
pub proof fn lemma_approved_not_denied(name: Seq<char>)
    requires
        is_approved(name),
    ensures
        !is_denied(name),
{
    lemma_roots();
    if function_named(name) is Some {
        lemma_named(name);
        lemma_catalog_not_denied(function_named(name)->0);
    } else {
        lemma_builtins_revealed();
        assert forall|i: int| 0 <= i < BLOCKED_LEN implies #[trigger] root_of(blocked_entry(i).0)
            != name by {
            assert(root_of(blocked_entry(i).0) == denied_root(i));
            if name == helpers_name() {
                assert(differ(denied_root(i), name));
            } else {
                let k = choose|k: int| 0 <= k < BUILTINS_LEN && #[trigger] builtin_name(k) == name;
                assert(differ(denied_root(i), builtin_name(k)));
            }
        }
    }
}

/// Every function of the catalog is something that a script may find in its
/// global scope: binding the catalog leaves a sealed scope sealed.
pub proof fn lemma_catalog_approved(function: CatalogFunction)
    ensures
        is_approved(function_name(function)),
{
    lemma_lookup_of_name(function);
}

/// The module loader is nothing that a script may find in its global scope.
pub proof fn lemma_loader_not_approved()
    ensures
        !is_approved("package"@),
{
    lemma_builtins_revealed();
    lemma_names_revealed();
    let name = "package"@;
    assert forall|k: int| 0 <= k < BUILTINS_LEN implies #[trigger] builtin_name(k) != name by {
        assert(differ(builtin_name(k), name));
    }
    assert(differ(helpers_name(), name));
    if function_named(name) is Some {
        lemma_named(name);
        assert(differ(function_name(function_named(name)->0), name));
    }
}

/// A sealed scope binds no global that a blocked symbol belongs to, and so
/// none of the modules and functions that reach a file, a process, code that
/// is loaded at run time or the interpreter's internals; nor does it bind
/// the module loader.
pub proof fn lemma_sealed_hides(lua: rlua::Lua)
    requires
        sealed(lua),
    ensures
        forall|name: Seq<char>| is_denied(name) ==> !bound_globals(lua).contains(name),
        !bound_globals(lua).contains("io"@),
        !bound_globals(lua).contains("os"@),
        !bound_globals(lua).contains("require"@),
        !bound_globals(lua).contains("load"@),
        !bound_globals(lua).contains("loadfile"@),
        !bound_globals(lua).contains("dofile"@),
        !bound_globals(lua).contains("loadstring"@),
        !bound_globals(lua).contains("debug"@),
        !bound_globals(lua).contains("package"@),
{
    assert forall|name: Seq<char>| is_denied(name) implies !bound_globals(lua).contains(name) by {
        if is_approved(name) {
            lemma_approved_not_denied(name);
        }
    }
    lemma_roots();
    reveal_strlit("io");
    assert("io"@ =~= denied_root(0));
    assert(root_of(blocked_entry(0).0) == "io"@);
    assert(is_denied("io"@));
    reveal_strlit("os");
    assert("os"@ =~= denied_root(3));
    assert(root_of(blocked_entry(3).0) == "os"@);
    assert(is_denied("os"@));
    reveal_strlit("require");
    assert("require"@ =~= denied_root(7));
    assert(root_of(blocked_entry(7).0) == "require"@);
    assert(is_denied("require"@));
    reveal_strlit("load");
    assert("load"@ =~= denied_root(10));
    assert(root_of(blocked_entry(10).0) == "load"@);
    assert(is_denied("load"@));
    reveal_strlit("loadfile");
    assert("loadfile"@ =~= denied_root(8));
    assert(root_of(blocked_entry(8).0) == "loadfile"@);
    assert(is_denied("loadfile"@));
    reveal_strlit("dofile");
    assert("dofile"@ =~= denied_root(9));
    assert(root_of(blocked_entry(9).0) == "dofile"@);
    assert(is_denied("dofile"@));
    reveal_strlit("loadstring");
    assert("loadstring"@ =~= denied_root(11));
    assert(root_of(blocked_entry(11).0) == "loadstring"@);
    assert(is_denied("loadstring"@));
    reveal_strlit("debug");
    assert("debug"@ =~= denied_root(12));
    assert(root_of(blocked_entry(12).0) == "debug"@);
    assert(is_denied("debug"@));
    lemma_loader_not_approved();
}

} // verus!
