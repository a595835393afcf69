//! The check of a script before it runs.
//!
//! The check reads the script as text. It looks for calls of functions that
//! no script may call, compiles the script to find syntax errors, and warns
//! where the script returns nothing. It is advice: what a script can do is
//! decided by what the runtime binds, not here.

use crate::errors::{
    available_functions, blocked_entry, blocked_functions, function_entry, duplicate_functions,
    error_views, function_views, missing_return_warning, warning_views, ErrorType, FunctionInfo,
    FunctionInfoView, ValidationError, ValidationErrorView, ValidationResult, ValidationResultView,
    ValidationWarning, ValidationWarningView, BLOCKED_LEN, FUNCTIONS_LEN,
};
use crate::patterns::{pattern_match, regex_find};
use crate::syntax::{
    check_syntax, clean_message, compile_diagnostic, diagnostic_line, parse_lua_error, span_of,
    span_range, suggest_fix, suggestion_for, CHUNK_NAME,
};
use crate::text::{
    char_index, char_index_at, chars_of, count_char, count_of, edit_distance, find_char, find_sub,
    find_line_break, first_at, lemma_views_push, levenshtein_chars, line_break, line_of, next_char,
    nth_line, occurs_at, replace_all, replaced, string_of, string_of_range, strip_end,
    stripped_end, trim_range, trimmed, views,
};
use vstd::prelude::*;
use vstd::string::StringExecFns;

verus! {

/// One pattern that no script should match, with the advice to give where
/// a script does.
#[derive(Debug)]
pub struct BlockedPattern {
    /// The pattern, a regular expression.
    pub pattern: String,
    /// What to do instead.
    pub suggestion: String,
}

/// The mathematical content of a [`BlockedPattern`].
pub ghost struct PatternView {
    pub pattern: Seq<char>,
    pub suggestion: Seq<char>,
}

impl View for BlockedPattern {
    type V = PatternView;

    open spec fn view(&self) -> PatternView {
        PatternView { pattern: self.pattern@, suggestion: self.suggestion@ }
    }
}

/// The views of a sequence of patterns.
pub open spec fn pattern_views(patterns: Seq<BlockedPattern>) -> Seq<PatternView> {
    Seq::new(patterns.len(), |i: int| patterns[i]@)
}

/// The regular expression for a call of `symbol`: the symbol as a word of
/// its own, with its dots taken literally, then an opening parenthesis,
/// with or without white space between the two.
pub open spec fn call_pattern(symbol: Seq<char>) -> Seq<char> {
    "\\b"@ + replaced(symbol, "."@, "\\."@) + "\\s*\\("@
}

/// The regular expression for a use of the module `module`: its name as a
/// word of its own, then a dot.
pub open spec fn module_pattern(module: Seq<char>) -> Seq<char> {
    "\\b"@ + module + "\\."@
}

/// The advice for a use of the module `module`, where `suggestion` is the
/// advice for the blocked symbol that belongs to it.
pub open spec fn module_suggestion(module: Seq<char>, suggestion: Seq<char>) -> Seq<char> {
    "The '"@ + module + "' module is not available. "@ + suggestion
}

/// The patterns for the blocked symbol `symbol`: one for a call of it, and,
/// where it belongs to a module, one for any use of that module.
pub open spec fn patterns_of(symbol: Seq<char>, suggestion: Seq<char>) -> Seq<PatternView> {
    let call = PatternView { pattern: call_pattern(symbol), suggestion };
    let dot = next_char(symbol, '.', 0);
    if dot < symbol.len() {
        let module = symbol.take(dot);
        seq![
            call,
            PatternView {
                pattern: module_pattern(module),
                suggestion: module_suggestion(module, suggestion),
            },
        ]
    } else {
        seq![call]
    }
}

/// The patterns for the first `n` entries of the table of blocked symbols.
pub open spec fn all_patterns(n: nat) -> Seq<PatternView>
    decreases n,
{
    if n == 0 {
        Seq::empty()
    } else {
        let entry = blocked_entry(n - 1);
        all_patterns((n - 1) as nat) + patterns_of(entry.0, entry.1)
    }
}

/// The names of the first `n` of the functions that are shown to the
/// authors of scripts.
pub open spec fn known_names(n: nat) -> Seq<Seq<char>>
    decreases n,
{
    if n == 0 {
        Seq::empty()
    } else {
        known_names((n - 1) as nat).push(function_entry(n - 1).name)
    }
}

/// What a validator knows.
pub ghost struct ValidatorView {
    /// The patterns that it looks for, in the order in which it looks.
    pub patterns: Seq<PatternView>,
    /// The names of the functions that a script may call.
    pub names: Seq<Seq<char>>,
    /// What is known of each of those functions.
    pub functions: Seq<FunctionInfoView>,
}

/// What every validator knows: the patterns of all blocked symbols and the
/// whole list of functions.
pub open spec fn standard() -> ValidatorView {
    ValidatorView {
        patterns: all_patterns(BLOCKED_LEN as nat),
        names: known_names(FUNCTIONS_LEN as nat),
        functions: Seq::new(FUNCTIONS_LEN as nat, |i: int| function_entry(i)),
    }
}

/// The line, counted from one, on which byte `offset` of the UTF-8 encoding
/// of `code` stands: one more than the number of line breaks before it.
pub open spec fn line_at(code: Seq<char>, offset: int) -> nat {
    count_of(code, '\n', char_index(code, offset)) + 1
}

/// The text of `code` around byte `offset` of its UTF-8 encoding: up to
/// `context` characters to either side, without white space at the ends, and
/// with an ellipsis at each end at which text was cut off.
pub open spec fn snippet(code: Seq<char>, offset: int, context: nat) -> Seq<char> {
    let at = char_index(code, offset);
    let start = if at > context {
        at - context
    } else {
        0
    };
    let end = if at + context < code.len() {
        at + context
    } else {
        code.len() as int
    };
    (if start > 0 {
        "..."@
    } else {
        Seq::empty()
    }) + trimmed(code, start, end) + (if end < code.len() {
        "..."@
    } else {
        Seq::empty()
    })
}

/// The number of characters that a snippet shows to either side.
pub const SNIPPET_CONTEXT: usize = 40;

/// `text` without the opening parentheses at its end.
pub open spec fn without_call(text: Seq<char>) -> Seq<char> {
    text.take(stripped_end(text, '(', text.len() as int))
}

/// The error for a match of a blocked pattern in `code` at the byte offsets
/// `span`, where `suggestion` is the advice that goes with the pattern.
pub open spec fn forbidden_error(
    code: Seq<char>,
    suggestion: Seq<char>,
    span: (usize, usize),
) -> ValidationErrorView {
    ValidationErrorView {
        error_type: ErrorType::ForbiddenFunction,
        message: "Forbidden function call detected: '"@ + without_call(span_of(code, span))
            + "'"@,
        line: Some(usize_of(line_at(code, span.0 as int))),
        column: None,
        suggestion,
        code_snippet: Some(snippet(code, span.0 as int, SNIPPET_CONTEXT as nat)),
    }
}

/// `n` as a `usize`, or the greatest `usize` where `n` is beyond it.
pub open spec fn usize_of(n: nat) -> usize {
    if n <= usize::MAX {
        n as usize
    } else {
        usize::MAX
    }
}

/// The errors for the first `n` of `patterns`: one for each pattern that
/// matches somewhere in `code`, in the order of the patterns.
pub open spec fn forbidden_errors(patterns: Seq<PatternView>, code: Seq<char>, n: nat) -> Seq<
    ValidationErrorView,
>
    decreases n,
{
    if n == 0 || n > patterns.len() {
        Seq::empty()
    } else {
        let before = forbidden_errors(patterns, code, (n - 1) as nat);
        match pattern_match(patterns[n - 1].pattern, code) {
            Some(span) => before.push(forbidden_error(code, patterns[n - 1].suggestion, span)),
            None => before,
        }
    }
}

/// The error for the compiler's `diagnostic` of `code`, where `names` are
/// the names of the functions that a script may call.
pub open spec fn syntax_error(
    names: Seq<Seq<char>>,
    code: Seq<char>,
    diagnostic: Seq<char>,
) -> ValidationErrorView {
    let line = diagnostic_line(diagnostic);
    ValidationErrorView {
        error_type: ErrorType::SyntaxError,
        message: clean_message(diagnostic),
        line,
        column: None,
        suggestion: suggestion_for(names, clean_message(diagnostic)),
        code_snippet: match line {
            Some(number) => Some(
                nth_line(
                    code,
                    0,
                    if number > 0 {
                        (number - 1) as nat
                    } else {
                        0
                    },
                ),
            ),
            None => None,
        },
    }
}

/// Where the line `text[from..stop]` stops being code: where its first `--`
/// begins, or at its end.
pub open spec fn code_end(text: Seq<char>, from: int, stop: int) -> int {
    if exists|at: int| first_at(text, "--"@, from, at) && at + 2 <= stop {
        choose|at: int| first_at(text, "--"@, from, at) && at + 2 <= stop
    } else {
        stop
    }
}

/// Whether the line `text[from..stop]` holds the word `return` in its code.
pub open spec fn line_returns(text: Seq<char>, from: int, stop: int) -> bool {
    exists|at: int|
        from <= at && at + 6 <= code_end(text, from, stop) && #[trigger] occurs_at(
            text,
            at,
            "return"@,
        )
}

/// Whether one of the lines of `text` from `from` on holds the word `return`
/// in its code.
pub open spec fn has_return_from(text: Seq<char>, from: int) -> bool
    decreases text.len() - from,
{
    if from >= text.len() || from < 0 {
        false
    } else {
        let stop = line_break(text, from);
        if line_returns(text, from, stop) {
            true
        } else if from <= stop < text.len() {
            has_return_from(text, stop + 1)
        } else {
            false
        }
    }
}

/// The warnings for `code`: one if it is not blank and none of its lines
/// holds the word `return` outside a comment.
pub open spec fn warnings_for(code: Seq<char>) -> Seq<ValidationWarningView> {
    if !has_return_from(code, 0) && trimmed(code, 0, code.len() as int).len() > 0 {
        seq![missing_return_warning()]
    } else {
        Seq::empty()
    }
}

/// All errors for `code`: those for the blocked patterns, then the syntax
/// error if there is one.
pub open spec fn errors_for(validator: ValidatorView, code: Seq<char>) -> Seq<ValidationErrorView> {
    let forbidden = forbidden_errors(validator.patterns, code, validator.patterns.len());
    match compile_diagnostic(CHUNK_NAME@, code) {
        Some(diagnostic) => forbidden.push(syntax_error(validator.names, code, diagnostic)),
        None => forbidden,
    }
}

/// What the check of `code` finds.
pub open spec fn validation(validator: ValidatorView, code: Seq<char>) -> ValidationResultView {
    let errors = errors_for(validator, code);
    ValidationResultView {
        valid: errors.len() == 0,
        errors,
        warnings: warnings_for(code),
        available_functions: validator.functions,
    }
}

/// Whether one of `patterns` matches somewhere in `code`.
pub open spec fn is_blocked(patterns: Seq<PatternView>, code: Seq<char>) -> bool {
    exists|i: int| 0 <= i < patterns.len() && pattern_match(#[trigger] patterns[i].pattern, code) is Some
}

/// Where one of the first `n` patterns matches, there is an error, and
/// every error for a pattern is of the kind for blocked functions.
pub proof fn lemma_forbidden(patterns: Seq<PatternView>, code: Seq<char>, n: nat)
    requires
        n <= patterns.len(),
    ensures
        forall|j: int|
            0 <= j < forbidden_errors(patterns, code, n).len() ==> (#[trigger] forbidden_errors(
                patterns,
                code,
                n,
            )[j]).error_type == ErrorType::ForbiddenFunction,
        (exists|i: int| 0 <= i < n && pattern_match(#[trigger] patterns[i].pattern, code) is Some)
            ==> forbidden_errors(patterns, code, n).len() > 0,
    decreases n,
{
    if n > 0 {
        lemma_forbidden(patterns, code, (n - 1) as nat);
        if exists|i: int| 0 <= i < n && pattern_match(#[trigger] patterns[i].pattern, code) is Some {
            let i = choose|i: int|
                0 <= i < n && pattern_match(#[trigger] patterns[i].pattern, code) is Some;
            if i < n - 1 {
                assert(forbidden_errors(patterns, code, (n - 1) as nat).len() > 0);
            }
        }
    }
}

/// A script in which a blocked pattern matches is not valid, and the first
/// error found in it is of the kind for blocked functions.
pub proof fn lemma_blocked_is_invalid(validator: ValidatorView, code: Seq<char>)
    requires
        is_blocked(validator.patterns, code),
    ensures
        !validation(validator, code).valid,
        validation(validator, code).errors.len() > 0,
        validation(validator, code).errors[0].error_type == ErrorType::ForbiddenFunction,
{
    lemma_forbidden(validator.patterns, code, validator.patterns.len());
    let i = choose|i: int|
        0 <= i < validator.patterns.len() && pattern_match(
            #[trigger] validator.patterns[i].pattern,
            code,
        ) is Some;
    assert(0 <= i < validator.patterns.len() && pattern_match(validator.patterns[i].pattern, code)
        is Some);
    let forbidden = forbidden_errors(validator.patterns, code, validator.patterns.len());
    assert(forbidden.len() > 0);
    assert(forbidden[0].error_type == ErrorType::ForbiddenFunction);
}

/// `n` as a `usize`, or the greatest `usize` where `n + 1` is beyond it.
fn next_number(n: usize) -> (out: usize)
    ensures
        out == usize_of((n + 1) as nat),
{
    if n == usize::MAX {
        usize::MAX
    } else {
        n + 1
    }
}

/// The line, counted from one, on which byte `offset` of the UTF-8 encoding
/// of `code` stands.
pub fn line_number(code: &str, offset: usize) -> (out: usize)
    ensures
        out == usize_of(line_at(code@, offset as int)),
{
    let text = chars_of(code);
    line_number_in(&text, offset)
}

/// The line on which byte `offset` of the encoding of `text` stands.
fn line_number_in(text: &Vec<char>, offset: usize) -> (out: usize)
    ensures
        out == usize_of(line_at(text@, offset as int)),
{
    let at = char_index_at(text, offset);
    next_number(count_char(text, '\n', at))
}

/// The text of `code` around byte `offset` of its UTF-8 encoding: up to
/// `context` characters to either side, without white space at the ends, and
/// with an ellipsis at each end at which text was cut off.
pub fn extract_snippet(code: &str, offset: usize, context: usize) -> (out: String)
    ensures
        out@ == snippet(code@, offset as int, context as nat),
{
    let text = chars_of(code);
    extract_snippet_in(&text, offset, context)
}

/// The text of `text` around byte `offset` of its encoding.
fn extract_snippet_in(text: &Vec<char>, offset: usize, context: usize) -> (out: String)
    ensures
        out@ == snippet(text@, offset as int, context as nat),
{
    let at = char_index_at(text, offset);
    let start: usize = if at > context {
        at - context
    } else {
        0
    };
    let end: usize = if context < text.len() - at {
        at + context
    } else {
        text.len()
    };
    let range = trim_range(text, start, end);
    let mut out = String::new();
    if start > 0 {
        out.append("...");
    }
    out.append(string_of_range(text, range.0, range.1).as_str());
    if end < text.len() {
        out.append("...");
    }
    proof {
        let middle = trimmed(text@, start as int, end as int);
        let head = if start > 0 {
            "..."@
        } else {
            Seq::<char>::empty()
        };
        let foot = if end < text@.len() {
            "..."@
        } else {
            Seq::<char>::empty()
        };
        assert(out@ =~= head + middle + foot);
    }
    out
}

/// Line `line_num`, counted from one, of `code`, or the empty text if
/// `code` has not so many lines. Line zero counts as line one.
pub fn get_line(code: &str, line_num: usize) -> (out: String)
    ensures
        out@ == nth_line(
            code@,
            0,
            if line_num > 0 {
                (line_num - 1) as nat
            } else {
                0
            },
        ),
{
    let text = chars_of(code);
    line_of(
        &text,
        if line_num > 0 {
            line_num - 1
        } else {
            0
        },
    )
}

/// Whether the line `text[from..stop]` holds the word `return` in its code.
fn returns_in(text: &Vec<char>, from: usize, stop: usize) -> (out: bool)
    requires
        from <= stop <= text.len(),
    ensures
        out == line_returns(text@, from as int, stop as int),
{
    let dashes = chars_of("--");
    let word = chars_of("return");
    proof {
        reveal_strlit("--");
        reveal_strlit("return");
        assert(dashes@.len() == 2);
        assert(word@.len() == 6);
    }
    let end = match find_sub(text, &dashes, from, stop) {
        Some(at) => {
            proof {
                let found = choose|w: int| first_at(text@, "--"@, from as int, w) && w + 2 <= stop;
                if found < at {
                    assert(!occurs_at(text@, found, "--"@));
                }
                if at < found {
                    assert(!occurs_at(text@, at as int, "--"@));
                }
            }
            at
        },
        None => {
            assert forall|w: int| !(first_at(text@, "--"@, from as int, w) && w + 2 <= stop) by {
                if first_at(text@, "--"@, from as int, w) && w + 2 <= stop {
                    assert(!occurs_at(text@, w, dashes@));
                }
            }
            stop
        },
    };
    assert(end == code_end(text@, from as int, stop as int));
    match find_sub(text, &word, from, end) {
        Some(at) => {
            assert(from <= at && at + 6 <= end && occurs_at(text@, at as int, "return"@));
            true
        },
        None => {
            assert forall|w: int|
                !(from <= w && w + 6 <= end && #[trigger] occurs_at(text@, w, "return"@)) by {}
            false
        },
    }
}

/// Whether one of the lines of `code` holds the word `return` outside a
/// comment.
pub fn has_return_statement(code: &str) -> (out: bool)
    ensures
        out == has_return_from(code@, 0),
{
    let text = chars_of(code);
    has_return_in(&text)
}

/// Whether one of the lines of `text` holds the word `return` outside a
/// comment.
fn has_return_in(text: &Vec<char>) -> (out: bool)
    ensures
        out == has_return_from(text@, 0),
{
    let mut from: usize = 0;
    while from < text.len()
        invariant
            from <= text.len(),
            has_return_from(text@, 0) == has_return_from(text@, from as int),
        decreases text.len() - from,
    {
        let stop = find_line_break(text, from);
        if returns_in(text, from, stop) {
            return true;
        }
        if stop >= text.len() {
            return false;
        }
        from = stop + 1;
    }
    false
}

/// The error for a match of a blocked pattern in `code` at the byte offsets
/// `span`, where `suggestion` is the advice that goes with the pattern.
pub fn forbidden_error_at(code: &str, suggestion: &str, span: (usize, usize)) -> (out:
    ValidationError)
    ensures
        out@ == forbidden_error(code@, suggestion@, span),
{
    let text = chars_of(code);
    forbidden_error_in(&text, suggestion, span)
}

/// The error for a match of a blocked pattern in `text` at `span`.
fn forbidden_error_in(text: &Vec<char>, suggestion: &str, span: (usize, usize)) -> (out:
    ValidationError)
    ensures
        out@ == forbidden_error(text@, suggestion@, span),
{
    let range = span_range(text, span);
    let end = strip_end(text, '(', range.0, range.1);
    let mut message = String::from_str("Forbidden function call detected: '");
    message.append(string_of_range(text, range.0, end).as_str());
    message.append("'");
    proof {
        let matched = span_of(text@, span);
        assert(text@.subrange(range.0 as int, end as int) =~= without_call(matched));
    }
    ValidationError {
        error_type: ErrorType::ForbiddenFunction,
        message,
        line: Some(line_number_in(text, span.0)),
        column: None,
        suggestion: String::from_str(suggestion),
        code_snippet: Some(extract_snippet_in(text, span.0, SNIPPET_CONTEXT)),
    }
}

/// The error for the compiler's `diagnostic` of `code`, where `names` are
/// the names of the functions that a script may call.
pub fn syntax_error_for(names: &Vec<String>, code: &str, diagnostic: &str) -> (out:
    ValidationError)
    ensures
        out@ == syntax_error(views(names@), code@, diagnostic@),
{
    let parsed = parse_lua_error(diagnostic);
    let message = parsed.0;
    let line = parsed.1;
    let suggestion = suggest_fix(names, message.as_str());
    ValidationError {
        error_type: ErrorType::SyntaxError,
        message,
        line,
        column: None,
        suggestion,
        code_snippet: match line {
            Some(number) => Some(get_line(code, number)),
            None => None,
        },
    }
}

/// The text of the help for the first `n` of `functions`.
pub open spec fn help_text(functions: Seq<FunctionInfoView>, n: nat) -> Seq<char>
    decreases n,
{
    if n == 0 || n > functions.len() {
        "Available Liath functions:\n\n"@
    } else {
        help_text(functions, (n - 1) as nat) + help_entry(functions[n - 1])
    }
}

/// The text of the help for one function.
pub open spec fn help_entry(function: FunctionInfoView) -> Seq<char> {
    "  "@ + function.signature + " - "@ + function.description + "\n"@ + (match function.example {
        Some(example) => "    Example: "@ + example + "\n"@,
        None => Seq::empty(),
    }) + "\n"@
}

/// The validator of scripts.
///
/// The names of the functions a script may call are kept as a list in the
/// order of the catalog, not as a hash set: the function that is nearest to
/// a misspelt name is then the first such function of the catalog on every
/// run, where the walk of a hash set would pick one by chance.
pub struct LuaValidator {
    blocked_patterns: Vec<BlockedPattern>,
    available_functions: Vec<String>,
    function_info: Vec<FunctionInfo>,
}

/// The patterns for the blocked symbol `symbol`.
fn make_patterns(symbol: &str, suggestion: &str, out: &mut Vec<BlockedPattern>)
    ensures
        pattern_views(final(out)@) == pattern_views(old(out)@) + patterns_of(symbol@, suggestion@),
{
    let text = chars_of(symbol);
    let escaped = replace_all(&text, &chars_of("."), &chars_of("\\."));
    let mut call = String::from_str("\\b");
    call.append(string_of(&escaped).as_str());
    call.append("\\s*\\(");
    let ghost before = out@;
    out.push(BlockedPattern { pattern: call, suggestion: String::from_str(suggestion) });
    let dot = find_char(&text, '.', 0);
    if dot < text.len() {
        let module = string_of_range(&text, 0, dot);
        let mut pattern = String::from_str("\\b");
        pattern.append(module.as_str());
        pattern.append("\\.");
        let mut advice = String::from_str("The '");
        advice.append(module.as_str());
        advice.append("' module is not available. ");
        advice.append(suggestion);
        out.push(BlockedPattern { pattern, suggestion: advice });
        assert(text@.subrange(0, dot as int) =~= symbol@.take(dot as int));
    }
    assert(pattern_views(out@) =~= pattern_views(before) + patterns_of(symbol@, suggestion@));
}

impl Default for LuaValidator {
    /// A validator that knows the patterns of all blocked symbols and the
    /// whole list of functions.
    fn default() -> (out: Self)
        ensures
            out@ == standard(),
    {
        LuaValidator::new()
    }
}

impl LuaValidator {
    /// What this validator knows.
    pub closed spec fn view(&self) -> ValidatorView {
        ValidatorView {
            patterns: pattern_views(self.blocked_patterns@),
            names: views(self.available_functions@),
            functions: function_views(self.function_info@),
        }
    }

    /// A validator that knows the patterns of all blocked symbols and the
    /// whole list of functions.
    pub fn new() -> (out: Self)
        ensures
            out@ == standard(),
    {
        let table = blocked_functions();
        let mut blocked_patterns: Vec<BlockedPattern> = Vec::new();
        let mut i: usize = 0;
        assert(pattern_views(blocked_patterns@) =~= all_patterns(0));
        while i < table.len()
            invariant
                i <= table.len(),
                table@.len() == BLOCKED_LEN,
                forall|e: int|
                    0 <= e < BLOCKED_LEN ==> ((#[trigger] table@[e]).0@, table@[e].1@)
                        == blocked_entry(e),
                pattern_views(blocked_patterns@) == all_patterns(i as nat),
            decreases table.len() - i,
        {
            assert((table@[i as int].0@, table@[i as int].1@) == blocked_entry(i as int));
            make_patterns(table[i].0, table[i].1, &mut blocked_patterns);
            i += 1;
        }
        let function_info = available_functions();
        let mut names: Vec<String> = Vec::new();
        let mut j: usize = 0;
        assert(views(names@) =~= known_names(0));
        while j < function_info.len()
            invariant
                j <= function_info.len(),
                function_info@.len() == FUNCTIONS_LEN,
                forall|e: int|
                    0 <= e < FUNCTIONS_LEN ==> (#[trigger] function_info@[e])@ == function_entry(e),
                views(names@) == known_names(j as nat),
            decreases function_info.len() - j,
        {
            let ghost before = names@;
            let name = String::from_str(function_info[j].name.as_str());
            assert(function_info@[j as int]@ == function_entry(j as int));
            proof {
                lemma_views_push(before, name);
            }
            names.push(name);
            j += 1;
        }
        let out = LuaValidator { blocked_patterns, available_functions: names, function_info };
        assert(out@.functions =~= standard().functions);
        out
    }

    /// What the check of `code` finds.
    ///
    /// The check is advice: a script that it finds invalid can still be run,
    /// and what the script can do then is decided by what the runtime binds.
    pub fn validate(&self, code: &str) -> (out: ValidationResult)
        ensures
            out@ == validation(self@, code@),
            is_blocked(self@.patterns, code@) ==> !out.valid && out@.errors.len() > 0
                && out@.errors[0].error_type == ErrorType::ForbiddenFunction,
    {
        let text = chars_of(code);
        let ghost patterns = pattern_views(self.blocked_patterns@);
        let mut errors: Vec<ValidationError> = Vec::new();
        let mut i: usize = 0;
        assert(error_views(errors@) =~= forbidden_errors(patterns, code@, 0));
        while i < self.blocked_patterns.len()
            invariant
                i <= self.blocked_patterns.len(),
                text@ == code@,
                patterns == pattern_views(self.blocked_patterns@),
                error_views(errors@) == forbidden_errors(patterns, code@, i as nat),
            decreases self.blocked_patterns.len() - i,
        {
            let blocked = &self.blocked_patterns[i];
            assert(patterns[i as int] == blocked@);
            match regex_find(blocked.pattern.as_str(), code) {
                Some(span) => {
                    let ghost before = errors@;
                    let error = forbidden_error_in(&text, blocked.suggestion.as_str(), span);
                    errors.push(error);
                    assert(error_views(errors@) =~= error_views(before).push(error@));
                },
                None => {},
            }
            i += 1;
        }
        match check_syntax(CHUNK_NAME, code) {
            Some(diagnostic) => {
                let ghost before = errors@;
                let error = syntax_error_for(&self.available_functions, code, diagnostic.as_str());
                errors.push(error);
                assert(error_views(errors@) =~= error_views(before).push(error@));
            },
            None => {},
        }
        let mut warnings: Vec<ValidationWarning> = Vec::new();
        let blank = {
            let range = trim_range(&text, 0, text.len());
            range.0 == range.1
        };
        if !has_return_in(&text) && !blank {
            warnings.push(ValidationWarning::missing_return());
        }
        assert(warning_views(warnings@) =~= warnings_for(code@));
        let functions = duplicate_functions(&self.function_info);
        proof {
            if is_blocked(self@.patterns, code@) {
                lemma_blocked_is_invalid(self@, code@);
            }
        }
        let valid = errors.len() == 0;
        ValidationResult { valid, errors, warnings, available_functions: functions }
    }

    /// What is known of the functions that a script may call.
    pub fn get_available_functions(&self) -> (out: &Vec<FunctionInfo>)
        ensures
            function_views(out@) == self@.functions,
    {
        &self.function_info
    }

    /// The help text: every function with what it does and, where one is
    /// known, an example.
    pub fn format_help(&self) -> (out: String)
        ensures
            out@ == help_text(self@.functions, self@.functions.len()),
    {
        let mut help = String::from_str("Available Liath functions:\n\n");
        let ghost functions = function_views(self.function_info@);
        let mut i: usize = 0;
        while i < self.function_info.len()
            invariant
                i <= self.function_info.len(),
                functions == function_views(self.function_info@),
                help@ == help_text(functions, i as nat),
            decreases self.function_info.len() - i,
        {
            let function = &self.function_info[i];
            let ghost before = help@;
            assert(functions[i as int] == function@);
            help.append("  ");
            help.append(function.signature.as_str());
            help.append(" - ");
            help.append(function.description.as_str());
            help.append("\n");
            match &function.example {
                Some(example) => {
                    help.append("    Example: ");
                    help.append(example.as_str());
                    help.append("\n");
                },
                None => {},
            }
            help.append("\n");
            assert(help@ =~= before + help_entry(function@));
            i += 1;
        }
        help
    }

    /// The least number of single-character insertions, deletions and
    /// replacements that turn `a` into `b`.
    pub fn levenshtein(a: &str, b: &str) -> (out: usize)
        ensures
            out == edit_distance(a@, b@, a@.len() as int, b@.len() as int),
    {
        levenshtein_chars(&chars_of(a), &chars_of(b))
    }
}

} // verus!
