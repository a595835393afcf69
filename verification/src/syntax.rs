//! What the script compiler says of a script, and what to make of it.
//!
//! A script is compiled, never run, to find its syntax errors. The
//! compiler's message is searched for a line number and for turns of phrase
//! that have a known remedy.

use crate::patterns::{lowercase, pattern_group, regex_group, to_lowercase};
use crate::text::{
    all_digits, char_index, char_index_at, chars_of, contains_sub, digits_value, edit_distance,
    holds_sub, levenshtein_chars, parse_number, replace_all, replaced, string_of, string_of_range,
    views,
};
use vstd::prelude::*;
use vstd::string::StringExecFns;

verus! {

/// What the compiler says of the script `code` when it is compiled under
/// the name `name`: its message where the script does not compile, nothing
/// where it does.
pub uninterp spec fn compile_diagnostic(name: Seq<char>, code: Seq<char>) -> Option<Seq<char>>;

/// The name under which the validator has a script compiled. The compiler
/// cites it in its messages, in the form that `chunk_mark` gives.
pub const CHUNK_NAME: &'static str = "...";

/// How the compiler cites a script named `name` before a line number, for a
/// short name on one line that begins with neither `=` nor `@`.
pub open spec fn mark_of(name: Seq<char>) -> Seq<char> {
    "[string \""@ + name + "\"]:"@
}

/// How the compiler cites a script that is compiled under `CHUNK_NAME`.
pub open spec fn chunk_mark() -> Seq<char> {
    mark_of(CHUNK_NAME@)
}

/// How the compiler cites a script named `name` before a line number.
pub fn mark(name: &str) -> (out: Vec<char>)
    ensures
        out@ == mark_of(name@),
{
    let mut out = chars_of("[string \"");
    let mut middle = chars_of(name);
    let mut end = chars_of("\"]:");
    out.append(&mut middle);
    out.append(&mut end);
    out
}

/// Calls `rlua::Lua::new`, then `load` on the script, `set_name` with
/// `name`, and `into_function`, which compiles the script under that name in
/// a fresh interpreter and runs nothing of it. Where that fails, the error's
/// `to_string` is the diagnostic. The contract names the diagnostic.
#[verifier::external_body]
pub(crate) fn check_syntax(name: &str, code: &str) -> (out: Option<String>)
    ensures
        match compile_diagnostic(name@, code@) {
            Some(text) => out matches Some(t) && t@ == text,
            None => out is None,
        },
{
    match rlua::Lua::new().load(code).set_name(name).into_function() {
        Ok(_) => None,
        Err(e) => Some(e.to_string()),
    }
}

/// The part of `text` between the byte offsets `span` of its UTF-8 encoding.
pub open spec fn span_of(text: Seq<char>, span: (usize, usize)) -> Seq<char> {
    let start = char_index(text, span.0 as int);
    let end = char_index(text, span.1 as int);
    if start <= end {
        text.subrange(start, end)
    } else {
        Seq::empty()
    }
}

/// The bounds among the characters of `text` of the part between the byte
/// offsets `span` of its UTF-8 encoding.
pub fn span_range(text: &Vec<char>, span: (usize, usize)) -> (out: (usize, usize))
    ensures
        out.0 <= out.1 <= text@.len(),
        text@.subrange(out.0 as int, out.1 as int) == span_of(text@, span),
        out.0 == char_index(text@, span.0 as int),
{
    let start = char_index_at(text, span.0);
    let end = char_index_at(text, span.1);
    if start <= end {
        (start, end)
    } else {
        assert(text@.subrange(start as int, start as int) =~= Seq::<char>::empty());
        (start, start)
    }
}

/// The number that `digits` write, as `parse` reads it.
pub open spec fn number_of(digits: Seq<char>) -> Option<usize> {
    if digits.len() > 0 && all_digits(digits) && digits_value(digits, digits.len() as int)
        <= usize::MAX {
        Some(digits_value(digits, digits.len() as int) as usize)
    } else {
        None
    }
}

/// The regular expression that finds the line number in a diagnostic.
pub open spec fn line_pattern() -> Seq<char> {
    "\\]:(\\d+):"@
}

/// The regular expression that finds the name of the global that a
/// diagnostic speaks of.
pub open spec fn name_pattern() -> Seq<char> {
    "global '(\\w+)'"@
}

/// The line number that `diagnostic` holds at `span`, if it holds one there.
pub open spec fn line_in(diagnostic: Seq<char>, span: Option<(usize, usize)>) -> Option<usize> {
    match span {
        Some(span) => number_of(span_of(diagnostic, span)),
        None => None,
    }
}

/// The line number that `diagnostic` gives.
pub open spec fn diagnostic_line(diagnostic: Seq<char>) -> Option<usize> {
    line_in(diagnostic, pattern_group(line_pattern(), diagnostic))
}

/// `diagnostic` with every citation of the script before a line number
/// replaced by the word `Line`: the citation under the name that the
/// validator has it compiled by, and the one under the name that evaluating
/// a script gives it.
pub open spec fn clean_message(diagnostic: Seq<char>) -> Seq<char> {
    replaced(replaced(diagnostic, chunk_mark(), "Line "@), mark_of("<eval>"@), "Line "@)
}

/// The line number that `diagnostic` holds at `span`, if it holds one there.
pub fn line_from(diagnostic: &str, span: Option<(usize, usize)>) -> (out: Option<usize>)
    ensures
        out == line_in(diagnostic@, span),
{
    match span {
        Some(span) => {
            let text = chars_of(diagnostic);
            let range = span_range(&text, span);
            let ghost digits = text@.subrange(range.0 as int, range.1 as int);
            parse_number(&text, range.0, range.1)
        },
        None => None,
    }
}

/// The message to show for the compiler's `diagnostic`, and the line that
/// the diagnostic gives.
pub fn parse_lua_error(diagnostic: &str) -> (out: (String, Option<usize>))
    ensures
        out.0@ == clean_message(diagnostic@),
        out.1 == diagnostic_line(diagnostic@),
{
    let line = line_from(diagnostic, regex_group("\\]:(\\d+):", diagnostic));
    let text = chars_of(diagnostic);
    let once = replace_all(&text, &mark(CHUNK_NAME), &chars_of("Line "));
    let twice = replace_all(&once, &mark("<eval>"), &chars_of("Line "));
    (string_of(&twice), line)
}

/// Whether the called name `name` is near the function name `function`,
/// both in lower case: `function` begins with the first three characters of
/// `name`, or with all of it where it has fewer, or the two are at most two
/// edits apart.
pub open spec fn is_similar(name: Seq<char>, function: Seq<char>) -> bool {
    let lead = if name.len() < 3 {
        name
    } else {
        name.take(3)
    };
    lead.is_prefix_of(function) || edit_distance(
        name,
        function,
        name.len() as int,
        function.len() as int,
    ) <= 2
}

/// The first of the first `n` of `names` whose lower-case form in `lowered`
/// is near `name`.
pub open spec fn similar_in(
    name: Seq<char>,
    lowered: Seq<Seq<char>>,
    names: Seq<Seq<char>>,
    n: nat,
) -> Option<Seq<char>>
    decreases n,
{
    if n == 0 || n > names.len() || n > lowered.len() {
        None
    } else {
        match similar_in(name, lowered, names, (n - 1) as nat) {
            Some(found) => Some(found),
            None => if is_similar(name, lowered[n - 1]) {
                Some(names[n - 1])
            } else {
                None
            },
        }
    }
}

/// `names`, each in lower case.
pub open spec fn lowered_all(names: Seq<Seq<char>>) -> Seq<Seq<char>> {
    Seq::new(names.len(), |i: int| lowercase(names[i]))
}

/// The first of `names` that is near the called name `name`, whatever the
/// case of either.
pub open spec fn similar(names: Seq<Seq<char>>, name: Seq<char>) -> Option<Seq<char>> {
    similar_in(lowercase(name), lowered_all(names), names, names.len())
}

/// Whether the called name `name` is near the function name `function`.
pub fn near(name: &Vec<char>, function: &Vec<char>) -> (out: bool)
    ensures
        out == is_similar(name@, function@),
{
    let lead_len: usize = if name.len() < 3 {
        name.len()
    } else {
        3
    };
    let ghost lead = if name@.len() < 3 {
        name@
    } else {
        name@.take(3)
    };
    let mut begins = lead_len <= function.len();
    let mut i: usize = 0;
    while begins && i < lead_len
        invariant
            i <= lead_len <= name@.len(),
            lead_len == lead.len(),
            lead =~= name@.take(lead_len as int),
            begins ==> lead_len <= function@.len(),
            begins ==> forall|e: int| 0 <= e < i ==> function@[e] == lead[e],
            !begins ==> !lead.is_prefix_of(function@),
        decreases lead_len - i + if begins {
                1nat
            } else {
                0nat
            },
    {
        if function[i] != name[i] {
            assert(lead[i as int] != function@[i as int]);
            assert(function@.subrange(0, lead.len() as int)[i as int] != lead[i as int]);
            begins = false;
        } else {
            i += 1;
        }
    }
    if begins {
        assert(function@.subrange(0, lead.len() as int) =~= lead);
        return true;
    }
    levenshtein_chars(name, function) <= 2
}

/// The first of `names` whose lower-case form in `lowered` is near the
/// called name `name`, which is in lower case too.
pub fn similar_among(name: &str, lowered: &Vec<String>, names: &Vec<String>) -> (out: Option<
    String,
>)
    ensures
        match similar_in(name@, views(lowered@), views(names@), names@.len()) {
            Some(found) => out matches Some(text) && text@ == found,
            None => out is None,
        },
{
    if lowered.len() < names.len() {
        return None;
    }
    let called = chars_of(name);
    let mut i: usize = 0;
    while i < names.len()
        invariant
            i <= names.len() <= lowered.len(),
            called@ == name@,
            similar_in(name@, views(lowered@), views(names@), i as nat) is None,
        decreases names.len() - i,
    {
        let function = chars_of(lowered[i].as_str());
        if near(&called, &function) {
            proof {
                lemma_similar_found(
                    name@,
                    views(lowered@),
                    views(names@),
                    i + 1,
                    names@.len() as int,
                );
            }
            return Some(String::from_str(names[i].as_str()));
        }
        i += 1;
    }
    None
}

/// What was found among the first `k` names is what is found among more.
proof fn lemma_similar_found(
    name: Seq<char>,
    lowered: Seq<Seq<char>>,
    names: Seq<Seq<char>>,
    k: int,
    n: int,
)
    requires
        0 <= k <= n <= names.len(),
        n <= lowered.len(),
        similar_in(name, lowered, names, k as nat) is Some,
    ensures
        similar_in(name, lowered, names, n as nat) == similar_in(name, lowered, names, k as nat),
    decreases n - k,
{
    if k < n {
        lemma_similar_found(name, lowered, names, k, n - 1);
    }
}

/// The remedy for a diagnostic whose lower-case form is `lower`, where
/// `hint` is a function with a name near the one that the script called, if
/// one is known.
pub open spec fn fix_for(lower: Seq<char>, hint: Option<Seq<char>>) -> Seq<char> {
    if holds_sub(lower, "unexpected symbol near"@) {
        if holds_sub(lower, "'='"@) {
            "Check for assignment vs comparison: use '=' for assignment, '==' for comparison."@
        } else if holds_sub(lower, "')'"@) {
            "Check for matching parentheses. You may have an extra ')'."@
        } else if holds_sub(lower, "'('"@) {
            "Check for matching parentheses. You may be missing '(' or have an extra one."@
        } else {
            "Check the syntax around the unexpected symbol."@
        }
    } else if holds_sub(lower, "'end' expected"@) {
        "Add 'end' to close your function, if, for, or while block."@
    } else if holds_sub(lower, "'then' expected"@) {
        "Add 'then' after your 'if' condition."@
    } else if holds_sub(lower, "'do' expected"@) {
        "Add 'do' after your 'for' or 'while' statement."@
    } else if holds_sub(lower, "unfinished string"@) {
        "Close your string with a matching quote (' or \")."@
    } else if holds_sub(lower, "attempt to call"@) {
        match hint {
            Some(name) => "Did you mean '"@ + name + "'? Check the function name."@,
            None => "Check that the function exists and is spelled correctly."@,
        }
    } else {
        "Review the Lua syntax. Ensure all blocks are properly closed and punctuation is correct."@
    }
}

/// Whether `text` holds the phrase `phrase`.
fn mentions(text: &Vec<char>, phrase: &str) -> (out: bool)
    ensures
        out == holds_sub(text@, phrase@),
{
    contains_sub(text, &chars_of(phrase))
}

/// The remedy for a diagnostic whose lower-case form is `lower`, where
/// `hint` is a function with a name near the one that the script called, if
/// one is known.
pub fn remedy(lower: &str, hint: Option<&str>) -> (out: String)
    ensures
        out@ == fix_for(
            lower@,
            match hint {
                Some(name) => Some(name@),
                None => None,
            },
        ),
{
    let text = chars_of(lower);
    if mentions(&text, "unexpected symbol near") {
        if mentions(&text, "'='") {
            String::from_str(
                "Check for assignment vs comparison: use '=' for assignment, '==' for comparison.",
            )
        } else if mentions(&text, "')'") {
            String::from_str("Check for matching parentheses. You may have an extra ')'.")
        } else if mentions(&text, "'('") {
            String::from_str(
                "Check for matching parentheses. You may be missing '(' or have an extra one.",
            )
        } else {
            String::from_str("Check the syntax around the unexpected symbol.")
        }
    } else if mentions(&text, "'end' expected") {
        String::from_str("Add 'end' to close your function, if, for, or while block.")
    } else if mentions(&text, "'then' expected") {
        String::from_str("Add 'then' after your 'if' condition.")
    } else if mentions(&text, "'do' expected") {
        String::from_str("Add 'do' after your 'for' or 'while' statement.")
    } else if mentions(&text, "unfinished string") {
        String::from_str("Close your string with a matching quote (' or \").")
    } else if mentions(&text, "attempt to call") {
        match hint {
            Some(name) => {
                let mut out = String::from_str("Did you mean '");
                out.append(name);
                out.append("'? Check the function name.");
                out
            },
            None => String::from_str("Check that the function exists and is spelled correctly."),
        }
    } else {
        String::from_str(
            "Review the Lua syntax. Ensure all blocks are properly closed and punctuation is correct.",
        )
    }
}

/// The name that `message` holds at `span`, if there is a span.
pub open spec fn name_in(message: Seq<char>, span: Option<(usize, usize)>) -> Option<Seq<char>> {
    match span {
        Some(span) => Some(span_of(message, span)),
        None => None,
    }
}

/// The name of the global that `message` speaks of, if it speaks of one.
pub open spec fn called_name(message: Seq<char>) -> Option<Seq<char>> {
    name_in(message, pattern_group(name_pattern(), message))
}

/// The name that `message` holds at `span`, if there is a span.
pub fn name_from(message: &str, span: Option<(usize, usize)>) -> (out: Option<String>)
    ensures
        match name_in(message@, span) {
            Some(name) => out matches Some(text) && text@ == name,
            None => out is None,
        },
{
    match span {
        Some(span) => {
            let text = chars_of(message);
            let range = span_range(&text, span);
            Some(string_of_range(&text, range.0, range.1))
        },
        None => None,
    }
}

/// The name of the global that `message` speaks of, if it speaks of one.
pub fn extract_function_name(message: &str) -> (out: Option<String>)
    ensures
        match called_name(message@) {
            Some(name) => out matches Some(text) && text@ == name,
            None => out is None,
        },
{
    name_from(message, regex_group("global '(\\w+)'", message))
}

/// The first of `names` that is near the called name `name`, whatever the
/// case of either.
pub fn find_similar_function(names: &Vec<String>, name: &str) -> (out: Option<String>)
    ensures
        match similar(views(names@), name@) {
            Some(found) => out matches Some(text) && text@ == found,
            None => out is None,
        },
{
    let called = to_lowercase(name);
    let mut lowered: Vec<String> = Vec::new();
    let mut i: usize = 0;
    while i < names.len()
        invariant
            i <= names.len(),
            lowered@.len() == i,
            forall|e: int| 0 <= e < i ==> (#[trigger] lowered@[e])@ == lowercase(names@[e]@),
        decreases names.len() - i,
    {
        lowered.push(to_lowercase(names[i].as_str()));
        i += 1;
    }
    assert(views(lowered@) =~= lowered_all(views(names@)));
    similar_among(called.as_str(), &lowered, names)
}

/// The function to point the script's author to, where `message` says that
/// the script called a name that is no function.
pub open spec fn hint_for(names: Seq<Seq<char>>, message: Seq<char>) -> Option<Seq<char>> {
    match called_name(message) {
        Some(name) => similar(names, name),
        None => None,
    }
}

/// The remedy for the compiler's message `message`, where `names` are the
/// names of the functions that a script may call.
pub open spec fn suggestion_for(names: Seq<Seq<char>>, message: Seq<char>) -> Seq<char> {
    let lower = lowercase(message);
    fix_for(
        lower,
        if holds_sub(lower, "attempt to call"@) {
            hint_for(names, message)
        } else {
            None
        },
    )
}

/// The remedy for the compiler's message `message`, where `names` are the
/// names of the functions that a script may call.
pub fn suggest_fix(names: &Vec<String>, message: &str) -> (out: String)
    ensures
        out@ == suggestion_for(views(names@), message@),
{
    let lower = to_lowercase(message);
    let text = chars_of(lower.as_str());
    let hint = if mentions(&text, "attempt to call") {
        match extract_function_name(message) {
            Some(name) => find_similar_function(names, name.as_str()),
            None => None,
        }
    } else {
        None
    };
    match &hint {
        Some(name) => remedy(lower.as_str(), Some(name.as_str())),
        None => remedy(lower.as_str(), None),
    }
}

} // verus!
