//! Structured diagnostics for validating and running scripts.
//!
//! Every diagnostic carries a kind from a closed set, a message for a human
//! reader and a suggestion that says what to do about it.

use crate::text::{decimal, decimal_string, join, joined, views};
use crate::value::{ScriptValue, Value};
use vstd::prelude::*;
use vstd::string::StringExecFns;

verus! {

/// The view of an optional string.
pub open spec fn opt_view(s: Option<String>) -> Option<Seq<char>> {
    match s {
        Some(s) => Some(s@),
        None => None,
    }
}

/// The kinds of validation error.
#[derive(Debug, Clone, Copy, PartialEq, Eq, Structural)]
pub enum ErrorType {
    /// The script does not parse.
    SyntaxError,
    /// The script names a function that no script may call.
    ForbiddenFunction,
    /// The script reads a variable that is never defined.
    UndefinedVariable,
    /// A function is called with a value of the wrong type.
    TypeMismatch,
    /// The script gives no value back.
    MissingReturn,
    /// The script is too large or too deeply nested.
    ComplexityExceeded,
}

/// The kinds of warning.
#[derive(Debug, Clone, Copy, PartialEq, Eq, Structural)]
pub enum WarningType {
    /// The script gives no value back.
    MissingReturn,
    /// A variable is defined and never read.
    UnusedVariable,
    /// A function is on its way out.
    DeprecatedFunction,
}

/// The name of the error kind `kind`, as it is written where a result is
/// handed on as text.
pub open spec fn error_kind_name(kind: ErrorType) -> Seq<char> {
    match kind {
        ErrorType::SyntaxError => "syntax_error"@,
        ErrorType::ForbiddenFunction => "forbidden_function"@,
        ErrorType::UndefinedVariable => "undefined_variable"@,
        ErrorType::TypeMismatch => "type_mismatch"@,
        ErrorType::MissingReturn => "missing_return"@,
        ErrorType::ComplexityExceeded => "complexity_exceeded"@,
    }
}

/// The name of the warning kind `kind`, as it is written where a result is
/// handed on as text.
pub open spec fn warning_kind_name(kind: WarningType) -> Seq<char> {
    match kind {
        WarningType::MissingReturn => "missing_return"@,
        WarningType::UnusedVariable => "unused_variable"@,
        WarningType::DeprecatedFunction => "deprecated_function"@,
    }
}

impl ErrorType {
    /// The name of this kind of error.
    pub fn as_str(&self) -> (out: &'static str)
        ensures
            out@ == error_kind_name(*self),
    {
        match self {
            ErrorType::SyntaxError => "syntax_error",
            ErrorType::ForbiddenFunction => "forbidden_function",
            ErrorType::UndefinedVariable => "undefined_variable",
            ErrorType::TypeMismatch => "type_mismatch",
            ErrorType::MissingReturn => "missing_return",
            ErrorType::ComplexityExceeded => "complexity_exceeded",
        }
    }
}

impl WarningType {
    /// The name of this kind of warning.
    pub fn as_str(&self) -> (out: &'static str)
        ensures
            out@ == warning_kind_name(*self),
    {
        match self {
            WarningType::MissingReturn => "missing_return",
            WarningType::UnusedVariable => "unused_variable",
            WarningType::DeprecatedFunction => "deprecated_function",
        }
    }
}

/// What is known about one function that scripts may call.
#[derive(Debug, Clone)]
pub struct FunctionInfo {
    /// The name under which scripts call it.
    pub name: String,
    /// Its name with its parameters.
    pub signature: String,
    /// One line on what it does.
    pub description: String,
    /// The type of its result.
    pub return_type: String,
    /// A call of it, if one is given.
    pub example: Option<String>,
}

/// The mathematical content of a [`FunctionInfo`].
pub ghost struct FunctionInfoView {
    pub name: Seq<char>,
    pub signature: Seq<char>,
    pub description: Seq<char>,
    pub return_type: Seq<char>,
    pub example: Option<Seq<char>>,
}

impl View for FunctionInfo {
    type V = FunctionInfoView;

    open spec fn view(&self) -> FunctionInfoView {
        FunctionInfoView {
            name: self.name@,
            signature: self.signature@,
            description: self.description@,
            return_type: self.return_type@,
            example: opt_view(self.example),
        }
    }
}

impl FunctionInfo {
    /// An entry without an example.
    pub fn new(name: &str, signature: &str, description: &str, return_type: &str) -> (out: Self)
        ensures
            out@ == (FunctionInfoView {
                name: name@,
                signature: signature@,
                description: description@,
                return_type: return_type@,
                example: None,
            }),
    {
        FunctionInfo {
            name: String::from_str(name),
            signature: String::from_str(signature),
            description: String::from_str(description),
            return_type: String::from_str(return_type),
            example: None,
        }
    }

    /// The same entry with `example` as its example.
    pub fn with_example(self, example: &str) -> (out: Self)
        ensures
            out@ == (FunctionInfoView { example: Some(example@), ..self@ }),
    {
        FunctionInfo {
            name: self.name,
            signature: self.signature,
            description: self.description,
            return_type: self.return_type,
            example: Some(String::from_str(example)),
        }
    }

    /// A copy of this entry.
    pub fn duplicate(&self) -> (out: Self)
        ensures
            out@ == self@,
    {
        FunctionInfo {
            name: self.name.clone(),
            signature: self.signature.clone(),
            description: self.description.clone(),
            return_type: self.return_type.clone(),
            example: match &self.example {
                Some(e) => Some(e.clone()),
                None => None,
            },
        }
    }
}

/// The views of a sequence of catalog entries.
pub open spec fn function_views(items: Seq<FunctionInfo>) -> Seq<FunctionInfoView> {
    items.map_values(|f: FunctionInfo| f@)
}

/// A copy of `items`.
pub fn duplicate_functions(items: &Vec<FunctionInfo>) -> (out: Vec<FunctionInfo>)
    ensures
        function_views(out@) == function_views(items@),
{
    let mut out: Vec<FunctionInfo> = Vec::new();
    let mut i: usize = 0;
    while i < items.len()
        invariant
            i <= items.len(),
            function_views(out@) == function_views(items@).take(i as int),
        decreases items.len() - i,
    {
        let ghost before = function_views(out@);
        out.push(items[i].duplicate());
        i += 1;
        assert(function_views(out@) =~= before.push(items@[i - 1]@));
        assert(function_views(items@).take(i as int) =~= function_views(items@).take(
            i - 1,
        ).push(items@[i - 1]@));
    }
    assert(function_views(items@).take(items.len() as int) =~= function_views(items@));
    out
}

/// One error found in a script before it runs.
#[derive(Debug, Clone)]
pub struct ValidationError {
    /// The kind of error.
    pub error_type: ErrorType,
    /// What is wrong, for a human reader.
    pub message: String,
    /// The line it is on, counted from one.
    pub line: Option<usize>,
    /// The column it is at, counted from one.
    pub column: Option<usize>,
    /// What to do about it.
    pub suggestion: String,
    /// The text around it.
    pub code_snippet: Option<String>,
}

/// The mathematical content of a [`ValidationError`].
pub ghost struct ValidationErrorView {
    pub error_type: ErrorType,
    pub message: Seq<char>,
    pub line: Option<usize>,
    pub column: Option<usize>,
    pub suggestion: Seq<char>,
    pub code_snippet: Option<Seq<char>>,
}

impl View for ValidationError {
    type V = ValidationErrorView;

    open spec fn view(&self) -> ValidationErrorView {
        ValidationErrorView {
            error_type: self.error_type,
            message: self.message@,
            line: self.line,
            column: self.column,
            suggestion: self.suggestion@,
            code_snippet: opt_view(self.code_snippet),
        }
    }
}

impl ValidationError {
    /// A syntax error with the given message, line and suggestion.
    pub fn syntax(message: &str, line: Option<usize>, suggestion: &str) -> (out: Self)
        ensures
            out@ == (ValidationErrorView {
                error_type: ErrorType::SyntaxError,
                message: message@,
                line: line,
                column: None,
                suggestion: suggestion@,
                code_snippet: None,
            }),
    {
        ValidationError {
            error_type: ErrorType::SyntaxError,
            message: String::from_str(message),
            line,
            column: None,
            suggestion: String::from_str(suggestion),
            code_snippet: None,
        }
    }

    /// The error for a call of `function`, which no script may call.
    pub fn forbidden_function(function: &str, suggestion: &str) -> (out: Self)
        ensures
            out@ == (ValidationErrorView {
                error_type: ErrorType::ForbiddenFunction,
                message: "Function '"@ + function@ + "' is not allowed for security reasons"@,
                line: None,
                column: None,
                suggestion: suggestion@,
                code_snippet: None,
            }),
    {
        let mut message = String::from_str("Function '");
        message.append(function);
        message.append("' is not allowed for security reasons");
        ValidationError {
            error_type: ErrorType::ForbiddenFunction,
            message,
            line: None,
            column: None,
            suggestion: String::from_str(suggestion),
            code_snippet: None,
        }
    }

    /// The error for a read of `variable`, which is not defined; `did_you_mean`
    /// is a defined name close to it, if there is one.
    pub fn undefined_variable(variable: &str, did_you_mean: Option<&str>) -> (out: Self)
        ensures
            out@ == (ValidationErrorView {
                error_type: ErrorType::UndefinedVariable,
                message: "Undefined variable '"@ + variable@ + "'"@,
                line: None,
                column: None,
                suggestion: match did_you_mean {
                    Some(s) => "Did you mean '"@ + s@ + "'?"@,
                    None => "Check that the variable is defined before use"@,
                },
                code_snippet: None,
            }),
    {
        let suggestion = match did_you_mean {
            Some(s) => {
                let mut text = String::from_str("Did you mean '");
                text.append(s);
                text.append("'?");
                text
            },
            None => String::from_str("Check that the variable is defined before use"),
        };
        let mut message = String::from_str("Undefined variable '");
        message.append(variable);
        message.append("'");
        ValidationError {
            error_type: ErrorType::UndefinedVariable,
            message,
            line: None,
            column: None,
            suggestion,
            code_snippet: None,
        }
    }

    /// The same error with `snippet` as the text around it.
    pub fn with_snippet(self, snippet: &str) -> (out: Self)
        ensures
            out@ == (ValidationErrorView { code_snippet: Some(snippet@), ..self@ }),
    {
        ValidationError {
            error_type: self.error_type,
            message: self.message,
            line: self.line,
            column: self.column,
            suggestion: self.suggestion,
            code_snippet: Some(String::from_str(snippet)),
        }
    }

    /// The same error placed at `line` and `column`.
    pub fn at_location(self, line: usize, column: Option<usize>) -> (out: Self)
        ensures
            out@ == (ValidationErrorView { line: Some(line), column: column, ..self@ }),
    {
        ValidationError {
            error_type: self.error_type,
            message: self.message,
            line: Some(line),
            column,
            suggestion: self.suggestion,
            code_snippet: self.code_snippet,
        }
    }
}

/// Something in a script that is allowed and probably not meant.
#[derive(Debug, Clone)]
pub struct ValidationWarning {
    /// The kind of warning.
    pub warning_type: WarningType,
    /// What was noticed, for a human reader.
    pub message: String,
    /// The line it is on, counted from one.
    pub line: Option<usize>,
    /// What to do about it.
    pub suggestion: String,
}

/// The mathematical content of a [`ValidationWarning`].
pub ghost struct ValidationWarningView {
    pub warning_type: WarningType,
    pub message: Seq<char>,
    pub line: Option<usize>,
    pub suggestion: Seq<char>,
}

impl View for ValidationWarning {
    type V = ValidationWarningView;

    open spec fn view(&self) -> ValidationWarningView {
        ValidationWarningView {
            warning_type: self.warning_type,
            message: self.message@,
            line: self.line,
            suggestion: self.suggestion@,
        }
    }
}

/// The warning for a script that gives no value back.
pub open spec fn missing_return_warning() -> ValidationWarningView {
    ValidationWarningView {
        warning_type: WarningType::MissingReturn,
        message: "Code does not have an explicit return statement"@,
        line: None,
        suggestion: "Add 'return <value>' at the end to return a result"@,
    }
}

impl ValidationWarning {
    /// The warning for a script that gives no value back.
    pub fn missing_return() -> (out: Self)
        ensures
            out@ == missing_return_warning(),
    {
        ValidationWarning {
            warning_type: WarningType::MissingReturn,
            message: String::from_str("Code does not have an explicit return statement"),
            line: None,
            suggestion: String::from_str("Add 'return <value>' at the end to return a result"),
        }
    }

    /// The warning for the variable `name`, defined at `line` and never read.
    pub fn unused_variable(name: &str, line: Option<usize>) -> (out: Self)
        ensures
            out@ == (ValidationWarningView {
                warning_type: WarningType::UnusedVariable,
                message: "Variable '"@ + name@ + "' is defined but never used"@,
                line: line,
                suggestion: "Remove unused variables or use them in your code"@,
            }),
    {
        let mut message = String::from_str("Variable '");
        message.append(name);
        message.append("' is defined but never used");
        ValidationWarning {
            warning_type: WarningType::UnusedVariable,
            message,
            line,
            suggestion: String::from_str("Remove unused variables or use them in your code"),
        }
    }
}

/// The views of a sequence of errors.
pub open spec fn error_views(items: Seq<ValidationError>) -> Seq<ValidationErrorView> {
    items.map_values(|e: ValidationError| e@)
}

/// The views of a sequence of warnings.
pub open spec fn warning_views(items: Seq<ValidationWarning>) -> Seq<ValidationWarningView> {
    items.map_values(|w: ValidationWarning| w@)
}

/// What validating one script found.
#[derive(Debug, Clone)]
pub struct ValidationResult {
    /// Whether the script has no error.
    pub valid: bool,
    /// The errors found.
    pub errors: Vec<ValidationError>,
    /// The warnings, which make no script invalid.
    pub warnings: Vec<ValidationWarning>,
    /// The functions a script may call, for the caller's reference.
    pub available_functions: Vec<FunctionInfo>,
}

/// The mathematical content of a [`ValidationResult`].
pub ghost struct ValidationResultView {
    pub valid: bool,
    pub errors: Seq<ValidationErrorView>,
    pub warnings: Seq<ValidationWarningView>,
    pub available_functions: Seq<FunctionInfoView>,
}

impl View for ValidationResult {
    type V = ValidationResultView;

    open spec fn view(&self) -> ValidationResultView {
        ValidationResultView {
            valid: self.valid,
            errors: error_views(self.errors@),
            warnings: warning_views(self.warnings@),
            available_functions: function_views(self.available_functions@),
        }
    }
}

impl ValidationResult {
    /// The result for a script in which nothing was found.
    pub fn valid() -> (out: Self)
        ensures
            out@ == (ValidationResultView {
                valid: true,
                errors: Seq::empty(),
                warnings: Seq::empty(),
                available_functions: Seq::empty(),
            }),
    {
        let out = ValidationResult {
            valid: true,
            errors: Vec::new(),
            warnings: Vec::new(),
            available_functions: Vec::new(),
        };
        assert(out@.errors =~= Seq::empty());
        assert(out@.warnings =~= Seq::empty());
        assert(out@.available_functions =~= Seq::empty());
        out
    }

    /// The result for a script with the given errors.
    pub fn invalid(errors: Vec<ValidationError>) -> (out: Self)
        ensures
            out@ == (ValidationResultView {
                valid: false,
                errors: error_views(errors@),
                warnings: Seq::empty(),
                available_functions: Seq::empty(),
            }),
    {
        let out = ValidationResult {
            valid: false,
            errors,
            warnings: Vec::new(),
            available_functions: Vec::new(),
        };
        assert(out@.warnings =~= Seq::empty());
        assert(out@.available_functions =~= Seq::empty());
        out
    }

    /// The same result with `functions` as the list of functions attached to
    /// it.
    pub fn with_functions(self, functions: Vec<FunctionInfo>) -> (out: Self)
        ensures
            out@ == (ValidationResultView {
                available_functions: function_views(functions@),
                ..self@
            }),
    {
        ValidationResult {
            valid: self.valid,
            errors: self.errors,
            warnings: self.warnings,
            available_functions: functions,
        }
    }
}

/// The kinds of error that end the run of a script.
#[derive(Debug, Clone, PartialEq)]
pub enum RuntimeErrorType {
    /// No namespace has the name; `available` lists those that exist.
    NamespaceNotFound { namespace: String, available: Vec<String> },
    /// The namespace holds nothing under the key.
    KeyNotFound { key: String },
    /// A value has another type than the one asked for.
    TypeError { expected: String, got: String },
    /// The caller may not call the function.
    AuthorizationDenied { function: String, user: String },
    /// The run took too long.
    Timeout,
    /// Any other error.
    LuaError,
}

/// The mathematical content of a [`RuntimeErrorType`].
pub ghost enum RuntimeErrorTypeView {
    NamespaceNotFound { namespace: Seq<char>, available: Seq<Seq<char>> },
    KeyNotFound { key: Seq<char> },
    TypeError { expected: Seq<char>, got: Seq<char> },
    AuthorizationDenied { function: Seq<char>, user: Seq<char> },
    Timeout,
    LuaError,
}

impl View for RuntimeErrorType {
    type V = RuntimeErrorTypeView;

    open spec fn view(&self) -> RuntimeErrorTypeView {
        match self {
            RuntimeErrorType::NamespaceNotFound { namespace, available } => {
                RuntimeErrorTypeView::NamespaceNotFound {
                    namespace: namespace@,
                    available: views(available@),
                }
            },
            RuntimeErrorType::KeyNotFound { key } => RuntimeErrorTypeView::KeyNotFound {
                key: key@,
            },
            RuntimeErrorType::TypeError { expected, got } => RuntimeErrorTypeView::TypeError {
                expected: expected@,
                got: got@,
            },
            RuntimeErrorType::AuthorizationDenied {
                function,
                user,
            } => RuntimeErrorTypeView::AuthorizationDenied { function: function@, user: user@ },
            RuntimeErrorType::Timeout => RuntimeErrorTypeView::Timeout,
            RuntimeErrorType::LuaError => RuntimeErrorTypeView::LuaError,
        }
    }
}

/// The name of the kind of the runtime error `kind`, as it is written where
/// an error is handed on as text.
pub open spec fn runtime_kind_name(kind: RuntimeErrorTypeView) -> Seq<char> {
    match kind {
        RuntimeErrorTypeView::NamespaceNotFound { .. } => "namespace_not_found"@,
        RuntimeErrorTypeView::KeyNotFound { .. } => "key_not_found"@,
        RuntimeErrorTypeView::TypeError { .. } => "type_error"@,
        RuntimeErrorTypeView::AuthorizationDenied { .. } => "authorization_denied"@,
        RuntimeErrorTypeView::Timeout => "timeout"@,
        RuntimeErrorTypeView::LuaError => "lua_error"@,
    }
}

impl RuntimeErrorType {
    /// The name of this kind of error.
    pub fn as_str(&self) -> (out: &'static str)
        ensures
            out@ == runtime_kind_name(self@),
    {
        match self {
            RuntimeErrorType::NamespaceNotFound { .. } => "namespace_not_found",
            RuntimeErrorType::KeyNotFound { .. } => "key_not_found",
            RuntimeErrorType::TypeError { .. } => "type_error",
            RuntimeErrorType::AuthorizationDenied { .. } => "authorization_denied",
            RuntimeErrorType::Timeout => "timeout",
            RuntimeErrorType::LuaError => "lua_error",
        }
    }
}

/// The error that ends the run of a script.
#[derive(Debug, Clone, PartialEq)]
pub struct RuntimeError {
    /// The kind of error, with what it is about.
    pub error_type: RuntimeErrorType,
    /// What went wrong, for a human reader.
    pub message: String,
    /// The script's call stack at the error, if it is known.
    pub lua_traceback: Option<String>,
    /// What to do about it.
    pub suggestion: String,
}

/// The mathematical content of a [`RuntimeError`].
pub ghost struct RuntimeErrorView {
    pub error_type: RuntimeErrorTypeView,
    pub message: Seq<char>,
    pub lua_traceback: Option<Seq<char>>,
    pub suggestion: Seq<char>,
}

impl View for RuntimeError {
    type V = RuntimeErrorView;

    open spec fn view(&self) -> RuntimeErrorView {
        RuntimeErrorView {
            error_type: self.error_type@,
            message: self.message@,
            lua_traceback: opt_view(self.lua_traceback),
            suggestion: self.suggestion@,
        }
    }
}

/// The error for the namespace `namespace`, which does not exist, where
/// `available` are the names of those that do.
pub open spec fn namespace_not_found_error(
    namespace: Seq<char>,
    available: Seq<Seq<char>>,
) -> RuntimeErrorView {
    RuntimeErrorView {
        error_type: RuntimeErrorTypeView::NamespaceNotFound { namespace, available },
        message: "Namespace '"@ + namespace + "' not found"@,
        lua_traceback: None,
        suggestion: if available.len() == 0 {
            "No namespaces exist. Create one first with create_namespace()."@
        } else {
            "Available namespaces: "@ + joined(available, ", "@)
                + ". Use one of these or create '"@ + namespace + "'."@
        },
    }
}

/// The error for a value of type `got` where `context` asks for `expected`.
pub open spec fn type_error_view(
    expected: Seq<char>,
    got: Seq<char>,
    context: Seq<char>,
) -> RuntimeErrorView {
    RuntimeErrorView {
        error_type: RuntimeErrorTypeView::TypeError { expected, got },
        message: "Type error in "@ + context + ": expected "@ + expected + ", got "@ + got,
        lua_traceback: None,
        suggestion: "Convert the value to "@ + expected + " or use a different function."@,
    }
}

/// The error for `user`, who may not call `function`.
pub open spec fn unauthorized_error(function: Seq<char>, user: Seq<char>) -> RuntimeErrorView {
    RuntimeErrorView {
        error_type: RuntimeErrorTypeView::AuthorizationDenied { function, user },
        message: "User '"@ + user + "' is not authorized to call '"@ + function + "'"@,
        lua_traceback: None,
        suggestion: "Contact an administrator to grant permissions for this operation."@,
    }
}

/// The error with the given message and no more specific kind.
pub open spec fn generic_error(message: Seq<char>) -> RuntimeErrorView {
    RuntimeErrorView {
        error_type: RuntimeErrorTypeView::LuaError,
        message,
        lua_traceback: None,
        suggestion: "Check the Lua code for errors. Ensure all functions are called correctly."@,
    }
}

impl RuntimeError {
    /// The error for the namespace `namespace`, which does not exist, where
    /// `available` are the names of those that do.
    pub fn namespace_not_found(namespace: &str, available: Vec<String>) -> (out: Self)
        ensures
            out@ == namespace_not_found_error(namespace@, views(available@)),
    {
        let suggestion = if available.len() == 0 {
            String::from_str("No namespaces exist. Create one first with create_namespace().")
        } else {
            let mut text = String::from_str("Available namespaces: ");
            let list = join(&available, ", ");
            text.append(list.as_str());
            text.append(". Use one of these or create '");
            text.append(namespace);
            text.append("'.");
            text
        };
        let mut message = String::from_str("Namespace '");
        message.append(namespace);
        message.append("' not found");
        RuntimeError {
            error_type: RuntimeErrorType::NamespaceNotFound {
                namespace: String::from_str(namespace),
                available,
            },
            message,
            lua_traceback: None,
            suggestion,
        }
    }

    /// The error for `key`, under which `namespace` holds nothing.
    pub fn key_not_found(key: &str, namespace: &str) -> (out: Self)
        ensures
            out@ == (RuntimeErrorView {
                error_type: RuntimeErrorTypeView::KeyNotFound { key: key@ },
                message: "Key '"@ + key@ + "' not found in namespace '"@ + namespace@ + "'"@,
                lua_traceback: None,
                suggestion: "Check that the key exists. Use get() which returns nil for missing keys, or store a value first with put()."@,
            }),
    {
        let mut message = String::from_str("Key '");
        message.append(key);
        message.append("' not found in namespace '");
        message.append(namespace);
        message.append("'");
        RuntimeError {
            error_type: RuntimeErrorType::KeyNotFound { key: String::from_str(key) },
            message,
            lua_traceback: None,
            suggestion: String::from_str(
                "Check that the key exists. Use get() which returns nil for missing keys, or store a value first with put().",
            ),
        }
    }

    /// The error for a value of type `got` where `context` asks for
    /// `expected`.
    pub fn type_error(expected: &str, got: &str, context: &str) -> (out: Self)
        ensures
            out@ == type_error_view(expected@, got@, context@),
    {
        let mut message = String::from_str("Type error in ");
        message.append(context);
        message.append(": expected ");
        message.append(expected);
        message.append(", got ");
        message.append(got);
        let mut suggestion = String::from_str("Convert the value to ");
        suggestion.append(expected);
        suggestion.append(" or use a different function.");
        RuntimeError {
            error_type: RuntimeErrorType::TypeError {
                expected: String::from_str(expected),
                got: String::from_str(got),
            },
            message,
            lua_traceback: None,
            suggestion,
        }
    }

    /// The error for `user`, who may not call `function`.
    pub fn unauthorized(function: &str, user: &str) -> (out: Self)
        ensures
            out@ == unauthorized_error(function@, user@),
    {
        let mut message = String::from_str("User '");
        message.append(user);
        message.append("' is not authorized to call '");
        message.append(function);
        message.append("'");
        RuntimeError {
            error_type: RuntimeErrorType::AuthorizationDenied {
                function: String::from_str(function),
                user: String::from_str(user),
            },
            message,
            lua_traceback: None,
            suggestion: String::from_str(
                "Contact an administrator to grant permissions for this operation.",
            ),
        }
    }

    /// The error for a run that was stopped after `duration_ms` milliseconds.
    pub fn timeout(duration_ms: u64) -> (out: Self)
        ensures
            out@ == (RuntimeErrorView {
                error_type: RuntimeErrorTypeView::Timeout,
                message: "Execution timed out after "@ + decimal(duration_ms as nat) + "ms"@,
                lua_traceback: None,
                suggestion: "Simplify your query or process data in smaller batches to avoid timeouts."@,
            }),
    {
        let mut message = String::from_str("Execution timed out after ");
        let digits = decimal_string(duration_ms);
        message.append(digits.as_str());
        message.append("ms");
        RuntimeError {
            error_type: RuntimeErrorType::Timeout,
            message,
            lua_traceback: None,
            suggestion: String::from_str(
                "Simplify your query or process data in smaller batches to avoid timeouts.",
            ),
        }
    }

    /// The error with the given message and no more specific kind.
    pub fn lua_error(message: &str) -> (out: Self)
        ensures
            out@ == generic_error(message@),
    {
        RuntimeError {
            error_type: RuntimeErrorType::LuaError,
            message: String::from_str(message),
            lua_traceback: None,
            suggestion: String::from_str(
                "Check the Lua code for errors. Ensure all functions are called correctly.",
            ),
        }
    }

    /// The same error with `traceback` as its call stack.
    pub fn with_traceback(self, traceback: &str) -> (out: Self)
        ensures
            out@ == (RuntimeErrorView { lua_traceback: Some(traceback@), ..self@ }),
    {
        RuntimeError {
            error_type: self.error_type,
            message: self.message,
            lua_traceback: Some(String::from_str(traceback)),
            suggestion: self.suggestion,
        }
    }
}

/// What came of checking and running one script.
#[derive(Debug)]
pub struct ExecutionResult {
    /// Whether the script ran to its end.
    pub success: bool,
    /// The value that the script ended with, if it ran to its end.
    pub value: Option<ScriptValue>,
    /// The errors that the check found, if it found any.
    pub validation_errors: Vec<ValidationError>,
    /// The error that ended the run, if one did.
    pub runtime_error: Option<RuntimeError>,
}

/// The mathematical content of an [`ExecutionResult`].
pub ghost struct ExecutionResultView {
    pub success: bool,
    pub value: Option<Value>,
    pub validation_errors: Seq<ValidationErrorView>,
    pub runtime_error: Option<RuntimeErrorView>,
}

impl View for ExecutionResult {
    type V = ExecutionResultView;

    open spec fn view(&self) -> ExecutionResultView {
        ExecutionResultView {
            success: self.success,
            value: match self.value {
                Some(v) => Some(v@),
                None => None,
            },
            validation_errors: error_views(self.validation_errors@),
            runtime_error: match self.runtime_error {
                Some(e) => Some(e@),
                None => None,
            },
        }
    }
}

impl ExecutionResult {
    /// The result of a script that ran to its end with `value`.
    pub fn success(value: ScriptValue) -> (out: Self)
        ensures
            out@ == (ExecutionResultView {
                success: true,
                value: Some(value@),
                validation_errors: Seq::empty(),
                runtime_error: None,
            }),
    {
        let out = ExecutionResult {
            success: true,
            value: Some(value),
            validation_errors: Vec::new(),
            runtime_error: None,
        };
        assert(out@.validation_errors =~= Seq::empty());
        out
    }

    /// The result of a script that the check refused with `errors`.
    pub fn validation_failed(errors: Vec<ValidationError>) -> (out: Self)
        ensures
            out@ == (ExecutionResultView {
                success: false,
                value: None,
                validation_errors: error_views(errors@),
                runtime_error: None,
            }),
    {
        ExecutionResult {
            success: false,
            value: None,
            validation_errors: errors,
            runtime_error: None,
        }
    }

    /// The result of a script whose run `error` ended.
    pub fn runtime_failed(error: RuntimeError) -> (out: Self)
        ensures
            out@ == (ExecutionResultView {
                success: false,
                value: None,
                validation_errors: Seq::empty(),
                runtime_error: Some(error@),
            }),
    {
        let out = ExecutionResult {
            success: false,
            value: None,
            validation_errors: Vec::new(),
            runtime_error: Some(error),
        };
        assert(out@.validation_errors =~= Seq::empty());
        out
    }
}

/// The number of functions that are shown to the authors of scripts.
pub const FUNCTIONS_LEN: usize = 12;

/// The number of entries in the table of blocked symbols.
pub const BLOCKED_LEN: usize = 18;

/// Function `i` of those that are shown to the authors of scripts.
pub open spec fn function_entry(i: int) -> FunctionInfoView {
    if i == 0 {
        FunctionInfoView {
            name: "put"@,
            signature: "put(namespace, key, value)"@,
            description: "Store a value"@,
            return_type: "nil"@,
            example: Some("put('config', 'theme', 'dark')"@),
        }
    } else if i == 1 {
        FunctionInfoView {
            name: "get"@,
            signature: "get(namespace, key)"@,
            description: "Retrieve a value"@,
            return_type: "string|nil"@,
            example: Some("local theme = get('config', 'theme')"@),
        }
    } else if i == 2 {
        FunctionInfoView {
            name: "delete"@,
            signature: "delete(namespace, key)"@,
            description: "Delete a key"@,
            return_type: "nil"@,
            example: Some("delete('config', 'old_key')"@),
        }
    } else if i == 3 {
        FunctionInfoView {
            name: "store_with_embedding"@,
            signature: "store_with_embedding(namespace, id, content)"@,
            description: "Store text with auto-generated embedding"@,
            return_type: "nil"@,
            example: Some("store_with_embedding('docs', 'doc1', 'Hello world')"@),
        }
    } else if i == 4 {
        FunctionInfoView {
            name: "semantic_search"@,
            signature: "semantic_search(namespace, query, limit)"@,
            description: "Search by text similarity"@,
            return_type: "list of {id, content, distance}"@,
            example: Some("local results = semantic_search('docs', 'greeting', 5)"@),
        }
    } else if i == 5 {
        FunctionInfoView {
            name: "json.encode"@,
            signature: "json.encode(value)"@,
            description: "Convert Lua value to JSON string"@,
            return_type: "string"@,
            example: Some("return json.encode({name = 'test'})"@),
        }
    } else if i == 6 {
        FunctionInfoView {
            name: "json.decode"@,
            signature: "json.decode(string)"@,
            description: "Parse JSON string to Lua value"@,
            return_type: "table"@,
            example: Some("local data = json.decode('{\"a\": 1}')"@),
        }
    } else if i == 7 {
        FunctionInfoView {
            name: "filter"@,
            signature: "filter(list, fn)"@,
            description: "Filter list by predicate"@,
            return_type: "list"@,
            example: Some("filter(items, function(x) return x.age > 18 end)"@),
        }
    } else if i == 8 {
        FunctionInfoView {
            name: "map"@,
            signature: "map(list, fn)"@,
            description: "Transform each list element"@,
            return_type: "list"@,
            example: Some("map(items, function(x) return x.name end)"@),
        }
    } else if i == 9 {
        FunctionInfoView {
            name: "reduce"@,
            signature: "reduce(list, fn, initial)"@,
            description: "Reduce list to single value"@,
            return_type: "any"@,
            example: Some("reduce(nums, function(a, b) return a + b end, 0)"@),
        }
    } else if i == 10 {
        FunctionInfoView {
            name: "now"@,
            signature: "now()"@,
            description: "Get current Unix timestamp"@,
            return_type: "number"@,
            example: Some("local timestamp = now()"@),
        }
    } else {
        FunctionInfoView {
            name: "id"@,
            signature: "id()"@,
            description: "Generate unique ID"@,
            return_type: "string"@,
            example: Some("local unique_id = id()"@),
        }
    }
}

/// The functions that a script may call, for the caller's reference.
pub fn available_functions() -> (out: Vec<FunctionInfo>)
    ensures
        out@.len() == FUNCTIONS_LEN,
        forall|i: int| 0 <= i < FUNCTIONS_LEN ==> (#[trigger] out@[i])@ == function_entry(i),
{
    let mut out: Vec<FunctionInfo> = Vec::new();
    out.push(
        FunctionInfo::new("put", "put(namespace, key, value)", "Store a value", "nil").with_example(
            "put('config', 'theme', 'dark')",
        ),
    );
    out.push(
        FunctionInfo::new("get", "get(namespace, key)", "Retrieve a value", "string|nil").with_example(
            "local theme = get('config', 'theme')",
        ),
    );
    out.push(
        FunctionInfo::new("delete", "delete(namespace, key)", "Delete a key", "nil").with_example(
            "delete('config', 'old_key')",
        ),
    );
    out.push(
        FunctionInfo::new("store_with_embedding", "store_with_embedding(namespace, id, content)", "Store text with auto-generated embedding", "nil").with_example(
            "store_with_embedding('docs', 'doc1', 'Hello world')",
        ),
    );
    out.push(
        FunctionInfo::new("semantic_search", "semantic_search(namespace, query, limit)", "Search by text similarity", "list of {id, content, distance}").with_example(
            "local results = semantic_search('docs', 'greeting', 5)",
        ),
    );
    out.push(
        FunctionInfo::new("json.encode", "json.encode(value)", "Convert Lua value to JSON string", "string").with_example(
            "return json.encode({name = 'test'})",
        ),
    );
    out.push(
        FunctionInfo::new("json.decode", "json.decode(string)", "Parse JSON string to Lua value", "table").with_example(
            "local data = json.decode('{\"a\": 1}')",
        ),
    );
    out.push(
        FunctionInfo::new("filter", "filter(list, fn)", "Filter list by predicate", "list").with_example(
            "filter(items, function(x) return x.age > 18 end)",
        ),
    );
    out.push(
        FunctionInfo::new("map", "map(list, fn)", "Transform each list element", "list").with_example(
            "map(items, function(x) return x.name end)",
        ),
    );
    out.push(
        FunctionInfo::new("reduce", "reduce(list, fn, initial)", "Reduce list to single value", "any").with_example(
            "reduce(nums, function(a, b) return a + b end, 0)",
        ),
    );
    out.push(
        FunctionInfo::new("now", "now()", "Get current Unix timestamp", "number").with_example(
            "local timestamp = now()",
        ),
    );
    out.push(
        FunctionInfo::new("id", "id()", "Generate unique ID", "string").with_example(
            "local unique_id = id()",
        ),
    );
    out
}

/// Entry `i` of the table of blocked symbols: the symbol and the advice given
/// for it.
pub open spec fn blocked_entry(i: int) -> (Seq<char>, Seq<char>) {
    if i == 0 {
        ("io.open"@, "File I/O is not allowed. Store data using put() instead."@)
    } else if i == 1 {
        ("io.read"@, "File I/O is not allowed. Retrieve data using get() instead."@)
    } else if i == 2 {
        ("io.write"@, "File I/O is not allowed. Store data using put() instead."@)
    } else if i == 3 {
        ("os.execute"@, "System commands are not allowed for security."@)
    } else if i == 4 {
        ("os.remove"@, "File deletion is not allowed. Use delete() for keys."@)
    } else if i == 5 {
        ("os.rename"@, "File operations are not allowed."@)
    } else if i == 6 {
        ("os.exit"@, "Exiting is not allowed."@)
    } else if i == 7 {
        ("require"@, "Loading external modules is not allowed."@)
    } else if i == 8 {
        ("loadfile"@, "Loading files is not allowed."@)
    } else if i == 9 {
        ("dofile"@, "Executing files is not allowed."@)
    } else if i == 10 {
        ("load"@, "Loading code strings is not allowed."@)
    } else if i == 11 {
        ("loadstring"@, "Loading code strings is not allowed."@)
    } else if i == 12 {
        ("debug.getinfo"@, "Debug functions are not allowed."@)
    } else if i == 13 {
        ("debug.sethook"@, "Debug functions are not allowed."@)
    } else if i == 14 {
        ("rawget"@, "Raw table access is not allowed. Use normal indexing."@)
    } else if i == 15 {
        ("rawset"@, "Raw table access is not allowed. Use normal indexing."@)
    } else if i == 16 {
        ("setmetatable"@, "Metatable manipulation is not allowed."@)
    } else {
        ("getmetatable"@, "Metatable access is not allowed."@)
    }
}

/// The symbols that no script may use, each with the advice given for it.
pub fn blocked_functions() -> (out: Vec<(&'static str, &'static str)>)
    ensures
        out@.len() == BLOCKED_LEN,
        forall|i: int|
            0 <= i < BLOCKED_LEN ==> ((#[trigger] out@[i]).0@, out@[i].1@) == blocked_entry(i),
{
    let mut out: Vec<(&'static str, &'static str)> = Vec::new();
    out.push(("io.open", "File I/O is not allowed. Store data using put() instead."));
    out.push(("io.read", "File I/O is not allowed. Retrieve data using get() instead."));
    out.push(("io.write", "File I/O is not allowed. Store data using put() instead."));
    out.push(("os.execute", "System commands are not allowed for security."));
    out.push(("os.remove", "File deletion is not allowed. Use delete() for keys."));
    out.push(("os.rename", "File operations are not allowed."));
    out.push(("os.exit", "Exiting is not allowed."));
    out.push(("require", "Loading external modules is not allowed."));
    out.push(("loadfile", "Loading files is not allowed."));
    out.push(("dofile", "Executing files is not allowed."));
    out.push(("load", "Loading code strings is not allowed."));
    out.push(("loadstring", "Loading code strings is not allowed."));
    out.push(("debug.getinfo", "Debug functions are not allowed."));
    out.push(("debug.sethook", "Debug functions are not allowed."));
    out.push(("rawget", "Raw table access is not allowed. Use normal indexing."));
    out.push(("rawset", "Raw table access is not allowed. Use normal indexing."));
    out.push(("setmetatable", "Metatable manipulation is not allowed."));
    out.push(("getmetatable", "Metatable access is not allowed."));
    out
}

} // verus!
