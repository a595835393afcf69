//! Reading the arguments that a script hands to a catalog function.
//!
//! An argument that is missing counts as null. An argument of the wrong type
//! is a type error that names the function, the type asked for and the type
//! found.

use crate::catalog::{function_name, CatalogFunction};
use crate::effect::pair_views;
use crate::errors::{type_error_view, RuntimeError, RuntimeErrorView};
use crate::text::{lemma_views_push, views};
use crate::value::{
    field_views, is_null, kind_name_of, lemma_fields_of, lemma_object_view, lemma_value_views,
    lemma_value_views_push, value_views, ScriptValue, Value,
};
use vstd::prelude::*;

verus! {

/// Argument `i` of `args`, or null where there is none.
pub open spec fn arg(args: Seq<Value>, i: int) -> Value {
    if 0 <= i < args.len() {
        args[i]
    } else {
        Value::Null
    }
}

/// The error of `function` for the value `got` where `expected` names the
/// type asked for.
pub open spec fn wrong_type(
    function: CatalogFunction,
    expected: Seq<char>,
    got: Value,
) -> RuntimeErrorView {
    type_error_view(expected, kind_name_of(got), function_name(function))
}

/// Argument `i` as a string.
pub open spec fn text_arg(function: CatalogFunction, args: Seq<Value>, i: int) -> Result<
    Seq<char>,
    RuntimeErrorView,
> {
    match arg(args, i) {
        Value::String(s) => Ok(s),
        other => Err(wrong_type(function, "string"@, other)),
    }
}

/// Argument `i` as a count: an integer that is not negative.
pub open spec fn count_arg(function: CatalogFunction, args: Seq<Value>, i: int) -> Result<
    usize,
    RuntimeErrorView,
> {
    match arg(args, i) {
        Value::Int(n) => if 0 <= n <= usize::MAX {
            Ok(n as usize)
        } else {
            Err(wrong_type(function, "non-negative integer"@, Value::Int(n)))
        },
        other => Err(wrong_type(function, "non-negative integer"@, other)),
    }
}

/// Argument `i` as an id: an integer that is not negative.
pub open spec fn id_arg(function: CatalogFunction, args: Seq<Value>, i: int) -> Result<
    u64,
    RuntimeErrorView,
> {
    match arg(args, i) {
        Value::Int(n) => if 0 <= n {
            Ok(n as u64)
        } else {
            Err(wrong_type(function, "non-negative integer"@, Value::Int(n)))
        },
        other => Err(wrong_type(function, "non-negative integer"@, other)),
    }
}

/// Whether every one of `items` is a string.
pub open spec fn all_text(items: Seq<Value>) -> bool {
    forall|j: int| 0 <= j < items.len() ==> #[trigger] items[j] is String
}

/// The strings that `items` are.
pub open spec fn texts_of(items: Seq<Value>) -> Seq<Seq<char>> {
    Seq::new(items.len(), |j: int| items[j]->String_0)
}

/// Whether every one of `items` is a number.
pub open spec fn all_numbers(items: Seq<Value>) -> bool {
    forall|j: int| 0 <= j < items.len() ==> ((#[trigger] items[j]) is Int || items[j] is Float)
}

/// Argument `i` as a list of strings.
pub open spec fn texts_arg(function: CatalogFunction, args: Seq<Value>, i: int) -> Result<
    Seq<Seq<char>>,
    RuntimeErrorView,
> {
    match arg(args, i) {
        Value::Array(items) => if all_text(items) {
            Ok(texts_of(items))
        } else {
            Err(wrong_type(function, "array of strings"@, Value::Array(items)))
        },
        other => Err(wrong_type(function, "array of strings"@, other)),
    }
}

/// Argument `i` as a list of strings, where a missing argument stands for
/// the empty list.
pub open spec fn optional_texts_arg(
    function: CatalogFunction,
    args: Seq<Value>,
    i: int,
) -> Result<Seq<Seq<char>>, RuntimeErrorView> {
    match arg(args, i) {
        Value::Null => Ok(Seq::empty()),
        _ => texts_arg(function, args, i),
    }
}

/// Argument `i` as a vector: a list of numbers.
pub open spec fn vector_arg(function: CatalogFunction, args: Seq<Value>, i: int) -> Result<
    Seq<Value>,
    RuntimeErrorView,
> {
    match arg(args, i) {
        Value::Array(items) => if all_numbers(items) {
            Ok(items)
        } else {
            Err(wrong_type(function, "array of numbers"@, Value::Array(items)))
        },
        other => Err(wrong_type(function, "array of numbers"@, other)),
    }
}

/// Argument `i` as a count, where a missing argument stands for `default`.
pub open spec fn optional_count_arg(
    function: CatalogFunction,
    args: Seq<Value>,
    i: int,
    default: usize,
) -> Result<usize, RuntimeErrorView> {
    match arg(args, i) {
        Value::Null => Ok(default),
        _ => count_arg(function, args, i),
    }
}

/// The value of the field `name` of `fields`: that of the first field with
/// the name among the first `n`, or null if there is none.
pub open spec fn field_of(fields: Seq<(Seq<char>, Value)>, name: Seq<char>, n: nat) -> Value
    decreases n,
{
    if n == 0 || n > fields.len() {
        Value::Null
    } else {
        let before = field_of(fields, name, (n - 1) as nat);
        if before is Null && fields[n - 1].0 == name {
            fields[n - 1].1
        } else {
            before
        }
    }
}

/// The value of the field `name` of the object `v`, or null if `v` is no
/// object or has no such field.
pub open spec fn member(v: Value, name: Seq<char>) -> Value {
    match v {
        Value::Object(fields) => field_of(fields, name, fields.len()),
        _ => Value::Null,
    }
}

/// Whether `item` is an object with a string under `key` and a string under
/// `value`.
pub open spec fn is_pair(item: Value) -> bool {
    member(item, "key"@) is String && member(item, "value"@) is String
}

/// Whether every one of `items` is such an object.
pub open spec fn all_pairs(items: Seq<Value>) -> bool {
    forall|j: int| 0 <= j < items.len() ==> is_pair(#[trigger] items[j])
}

/// The keys and values that `items` hold.
pub open spec fn pairs_of(items: Seq<Value>) -> Seq<(Seq<char>, Seq<char>)> {
    Seq::new(
        items.len(),
        |j: int| (member(items[j], "key"@)->String_0, member(items[j], "value"@)->String_0),
    )
}

/// Argument `i` as a list of keys and values: a list of objects, each with
/// a string under `key` and a string under `value`.
pub open spec fn pairs_arg(function: CatalogFunction, args: Seq<Value>, i: int) -> Result<
    Seq<(Seq<char>, Seq<char>)>,
    RuntimeErrorView,
> {
    match arg(args, i) {
        Value::Array(items) => if all_pairs(items) {
            Ok(pairs_of(items))
        } else {
            Err(wrong_type(function, "array of {key, value}"@, Value::Array(items)))
        },
        other => Err(wrong_type(function, "array of {key, value}"@, other)),
    }
}

/// Whether the list-of-pairs result `out` is what `model` says.
pub open spec fn pairs_result(
    out: Result<Vec<(String, String)>, RuntimeError>,
    model: Result<Seq<(Seq<char>, Seq<char>)>, RuntimeErrorView>,
) -> bool {
    match model {
        Ok(s) => out matches Ok(t) && pair_views(t@) == s,
        Err(e) => out matches Err(x) && x@ == e,
    }
}

/// The strings `texts` as values.
pub open spec fn text_values(texts: Seq<Seq<char>>) -> Seq<Value> {
    Seq::new(texts.len(), |j: int| Value::String(texts[j]))
}

/// Whether the string result `out` is what `model` says.
pub open spec fn text_result(
    out: Result<String, RuntimeError>,
    model: Result<Seq<char>, RuntimeErrorView>,
) -> bool {
    match model {
        Ok(s) => out matches Ok(t) && t@ == s,
        Err(e) => out matches Err(x) && x@ == e,
    }
}

/// Whether the result `out` is what `model` says.
pub open spec fn plain_result<T>(
    out: Result<T, RuntimeError>,
    model: Result<T, RuntimeErrorView>,
) -> bool {
    match model {
        Ok(s) => out matches Ok(t) && t == s,
        Err(e) => out matches Err(x) && x@ == e,
    }
}

/// Whether the list-of-strings result `out` is what `model` says.
pub open spec fn texts_result(
    out: Result<Vec<String>, RuntimeError>,
    model: Result<Seq<Seq<char>>, RuntimeErrorView>,
) -> bool {
    match model {
        Ok(s) => out matches Ok(t) && views(t@) == s,
        Err(e) => out matches Err(x) && x@ == e,
    }
}

/// Whether the list-of-values result `out` is what `model` says.
pub open spec fn values_result(
    out: Result<Vec<ScriptValue>, RuntimeError>,
    model: Result<Seq<Value>, RuntimeErrorView>,
) -> bool {
    match model {
        Ok(s) => out matches Ok(t) && value_views(t@) == s,
        Err(e) => out matches Err(x) && x@ == e,
    }
}

/// The error of `function` for argument `i` of `args`, where `expected`
/// names the type asked for.
fn mismatch(function: CatalogFunction, expected: &str, args: &Vec<ScriptValue>, i: usize) -> (out:
    RuntimeError)
    ensures
        out@ == wrong_type(function, expected@, arg(value_views(args@), i as int)),
{
    proof {
        lemma_value_views(args@);
    }
    let got = if i < args.len() {
        args[i].kind_name()
    } else {
        "nil"
    };
    RuntimeError::type_error(expected, got, function.name())
}

/// Argument `i` as a string.
pub fn get_text(function: CatalogFunction, args: &Vec<ScriptValue>, i: usize) -> (out: Result<
    String,
    RuntimeError,
>)
    ensures
        text_result(out, text_arg(function, value_views(args@), i as int)),
{
    proof {
        lemma_value_views(args@);
    }
    if i < args.len() {
        match &args[i] {
            ScriptValue::String(s) => {
                return Ok(s.clone());
            },
            _ => {},
        }
    }
    Err(mismatch(function, "string", args, i))
}

/// Argument `i` as a count: an integer that is not negative.
pub fn get_count(function: CatalogFunction, args: &Vec<ScriptValue>, i: usize) -> (out: Result<
    usize,
    RuntimeError,
>)
    ensures
        plain_result(out, count_arg(function, value_views(args@), i as int)),
{
    proof {
        lemma_value_views(args@);
    }
    if i < args.len() {
        match &args[i] {
            ScriptValue::Int(n) => {
                let n: i64 = *n;
                if n >= 0 && (n as u64) <= (usize::MAX as u64) {
                    return Ok(n as usize);
                }
            },
            _ => {},
        }
    }
    Err(mismatch(function, "non-negative integer", args, i))
}

/// Argument `i` as a count, where a missing argument stands for `default`.
pub fn get_optional_count(
    function: CatalogFunction,
    args: &Vec<ScriptValue>,
    i: usize,
    default: usize,
) -> (out: Result<usize, RuntimeError>)
    ensures
        plain_result(out, optional_count_arg(function, value_views(args@), i as int, default)),
{
    proof {
        lemma_value_views(args@);
    }
    if i >= args.len() {
        return Ok(default);
    }
    match &args[i] {
        ScriptValue::Null => Ok(default),
        _ => get_count(function, args, i),
    }
}

/// Argument `i` as an id: an integer that is not negative.
pub fn get_id(function: CatalogFunction, args: &Vec<ScriptValue>, i: usize) -> (out: Result<
    u64,
    RuntimeError,
>)
    ensures
        plain_result(out, id_arg(function, value_views(args@), i as int)),
{
    proof {
        lemma_value_views(args@);
    }
    if i < args.len() {
        match &args[i] {
            ScriptValue::Int(n) => {
                let n: i64 = *n;
                if n >= 0 {
                    return Ok(n as u64);
                }
            },
            _ => {},
        }
    }
    Err(mismatch(function, "non-negative integer", args, i))
}

/// The strings that `items` are, if every one of them is a string.
pub fn texts_in(items: &Vec<ScriptValue>) -> (out: Option<Vec<String>>)
    ensures
        out is Some <==> all_text(value_views(items@)),
        out matches Some(texts) ==> views(texts@) == texts_of(value_views(items@)),
{
    proof {
        lemma_value_views(items@);
    }
    let mut texts: Vec<String> = Vec::new();
    let mut j: usize = 0;
    while j < items.len()
        invariant
            j <= items.len(),
            value_views(items@).len() == items@.len(),
            forall|e: int| 0 <= e < items@.len() ==> #[trigger] value_views(items@)[e] == items@[e]@,
            forall|e: int| 0 <= e < j ==> #[trigger] value_views(items@)[e] is String,
            views(texts@) == texts_of(value_views(items@)).take(j as int),
        decreases items.len() - j,
    {
        match &items[j] {
            ScriptValue::String(s) => {
                let ghost before = texts@;
                let copy = s.clone();
                texts.push(copy);
                proof {
                    lemma_views_push(before, copy);
                    assert(texts_of(value_views(items@)).take(j + 1) =~= texts_of(
                        value_views(items@),
                    ).take(j as int).push(s@));
                }
            },
            _ => {
                assert(!(value_views(items@)[j as int] is String));
                return None;
            },
        }
        j += 1;
    }
    assert(texts_of(value_views(items@)).take(items.len() as int) =~= texts_of(
        value_views(items@),
    ));
    Some(texts)
}

/// Argument `i` as a list of strings.
pub fn get_texts(function: CatalogFunction, args: &Vec<ScriptValue>, i: usize) -> (out: Result<
    Vec<String>,
    RuntimeError,
>)
    ensures
        texts_result(out, texts_arg(function, value_views(args@), i as int)),
{
    proof {
        lemma_value_views(args@);
    }
    if i < args.len() {
        match &args[i] {
            ScriptValue::Array(items) => {
                proof {
                    crate::value::lemma_array_view(*items);
                }
                match texts_in(items) {
                    Some(texts) => {
                        return Ok(texts);
                    },
                    None => {},
                }
            },
            _ => {},
        }
    }
    Err(mismatch(function, "array of strings", args, i))
}

/// Argument `i` as a list of strings, where a missing argument stands for
/// the empty list.
pub fn get_optional_texts(function: CatalogFunction, args: &Vec<ScriptValue>, i: usize) -> (out:
    Result<Vec<String>, RuntimeError>)
    ensures
        texts_result(out, optional_texts_arg(function, value_views(args@), i as int)),
{
    proof {
        lemma_value_views(args@);
    }
    if i >= args.len() {
        let empty: Vec<String> = Vec::new();
        assert(views(empty@) =~= Seq::<Seq<char>>::empty());
        return Ok(empty);
    }
    match &args[i] {
        ScriptValue::Null => {
            let empty: Vec<String> = Vec::new();
            assert(views(empty@) =~= Seq::<Seq<char>>::empty());
            Ok(empty)
        },
        _ => get_texts(function, args, i),
    }
}

/// Whether every one of `items` is a number.
pub fn are_numbers(items: &Vec<ScriptValue>) -> (out: bool)
    ensures
        out == all_numbers(value_views(items@)),
{
    proof {
        lemma_value_views(items@);
    }
    let mut j: usize = 0;
    while j < items.len()
        invariant
            j <= items.len(),
            value_views(items@).len() == items@.len(),
            forall|e: int| 0 <= e < items@.len() ==> #[trigger] value_views(items@)[e] == items@[e]@,
            forall|e: int|
                0 <= e < j ==> ((#[trigger] value_views(items@)[e]) is Int || value_views(
                    items@,
                )[e] is Float),
        decreases items.len() - j,
    {
        match &items[j] {
            ScriptValue::Int(_) => {},
            ScriptValue::Float(_) => {},
            _ => {
                assert(!(value_views(items@)[j as int] is Int || value_views(items@)[j as int]
                    is Float));
                return false;
            },
        }
        j += 1;
    }
    true
}

/// Argument `i` as a vector: a list of numbers.
pub fn get_vector(function: CatalogFunction, args: &Vec<ScriptValue>, i: usize) -> (out: Result<
    Vec<ScriptValue>,
    RuntimeError,
>)
    ensures
        values_result(out, vector_arg(function, value_views(args@), i as int)),
{
    proof {
        lemma_value_views(args@);
    }
    if i < args.len() {
        match &args[i] {
            ScriptValue::Array(items) => {
                proof {
                    crate::value::lemma_array_view(*items);
                }
                if are_numbers(items) {
                    return Ok(crate::value::duplicate_values(items));
                }
            },
            _ => {},
        }
    }
    Err(mismatch(function, "array of numbers", args, i))
}

/// The value of the field `name` of the object `value`, where it is not
/// null.
pub fn member_of<'a>(value: &'a ScriptValue, name: &str) -> (out: Option<&'a ScriptValue>)
    ensures
        match out {
            Some(v) => v@ == member(value@, name@) && !(v@ is Null),
            None => member(value@, name@) is Null,
        },
{
    match value {
        ScriptValue::Object(fields) => {
            proof {
                lemma_object_view(*fields);
                lemma_fields_of(fields@, fields@.len());
            }
            let ghost fv = field_views(fields@);
            let mut found: Option<&'a ScriptValue> = None;
            let mut j: usize = 0;
            while j < fields.len()
                invariant
                    j <= fields.len(),
                    fv == field_views(fields@),
                    fv.len() == fields@.len(),
                    forall|e: int|
                        0 <= e < fields@.len() ==> #[trigger] fv[e] == (
                            fields@[e].0@,
                            fields@[e].1@,
                        ),
                    match found {
                        Some(v) => v@ == field_of(fv, name@, j as nat) && !(v@ is Null),
                        None => field_of(fv, name@, j as nat) is Null,
                    },
                decreases fields.len() - j,
            {
                if found.is_none() && fields[j].0.as_str().eq(name) {
                    if !is_null(&fields[j].1) {
                        found = Some(&fields[j].1);
                    }
                }
                j += 1;
            }
            found
        },
        _ => None,
    }
}

/// The keys and values that `items` hold, if every one of them is an object
/// with a string under `key` and a string under `value`.
fn pairs_in(items: &Vec<ScriptValue>) -> (out: Option<Vec<(String, String)>>)
    ensures
        out is Some <==> all_pairs(value_views(items@)),
        out matches Some(pairs) ==> pair_views(pairs@) == pairs_of(value_views(items@)),
{
    proof {
        lemma_value_views(items@);
    }
    let ghost iv = value_views(items@);
    let mut pairs: Vec<(String, String)> = Vec::new();
    let mut j: usize = 0;
    while j < items.len()
        invariant
            j <= items.len(),
            iv == value_views(items@),
            iv.len() == items@.len(),
            forall|e: int| 0 <= e < items@.len() ==> #[trigger] iv[e] == items@[e]@,
            forall|e: int| 0 <= e < j ==> is_pair(#[trigger] iv[e]),
            pairs@.len() == j,
            forall|e: int|
                0 <= e < j ==> (#[trigger] pairs@[e]).0@ == member(iv[e], "key"@)->String_0
                    && pairs@[e].1@ == member(iv[e], "value"@)->String_0,
        decreases items.len() - j,
    {
        let key = match member_of(&items[j], "key") {
            Some(ScriptValue::String(s)) => s.clone(),
            _ => {
                assert(!is_pair(iv[j as int]));
                return None;
            },
        };
        let value = match member_of(&items[j], "value") {
            Some(ScriptValue::String(s)) => s.clone(),
            _ => {
                assert(!is_pair(iv[j as int]));
                return None;
            },
        };
        pairs.push((key, value));
        j += 1;
    }
    assert(pair_views(pairs@) =~= pairs_of(iv));
    Some(pairs)
}

/// Argument `i` as a list of keys and values.
pub fn get_pairs(function: CatalogFunction, args: &Vec<ScriptValue>, i: usize) -> (out: Result<
    Vec<(String, String)>,
    RuntimeError,
>)
    ensures
        pairs_result(out, pairs_arg(function, value_views(args@), i as int)),
{
    proof {
        lemma_value_views(args@);
    }
    if i < args.len() {
        match &args[i] {
            ScriptValue::Array(items) => {
                proof {
                    crate::value::lemma_array_view(*items);
                }
                match pairs_in(items) {
                    Some(pairs) => {
                        return Ok(pairs);
                    },
                    None => {},
                }
            },
            _ => {},
        }
    }
    Err(mismatch(function, "array of {key, value}", args, i))
}

/// The strings `texts` as values.
pub fn values_of_texts(texts: &Vec<String>) -> (out: Vec<ScriptValue>)
    ensures
        value_views(out@) == text_values(views(texts@)),
{
    let mut out: Vec<ScriptValue> = Vec::new();
    let mut j: usize = 0;
    assert(value_views(out@) =~= text_values(views(texts@)).take(0));
    while j < texts.len()
        invariant
            j <= texts.len(),
            value_views(out@) == text_values(views(texts@)).take(j as int),
        decreases texts.len() - j,
    {
        let ghost before = out@;
        let item = ScriptValue::String(texts[j].clone());
        out.push(item);
        proof {
            lemma_value_views_push(before, item);
            assert(text_values(views(texts@)).take(j + 1) =~= text_values(views(texts@)).take(
                j as int,
            ).push(item@));
        }
        j += 1;
    }
    assert(text_values(views(texts@)).take(texts.len() as int) =~= text_values(views(texts@)));
    out
}

} // verus!
