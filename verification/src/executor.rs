//! The start of a call: from the function's name, the caller and the
//! arguments to the first thing the call does.
//!
//! Every call is checked against the caller's permissions before anything
//! else happens, and the check is made anew for every call.

use crate::args::{
    arg, count_arg, get_count, get_id, get_optional_count, get_optional_texts, get_pairs,
    get_text, get_texts, get_vector, id_arg, optional_count_arg, optional_texts_arg, pairs_arg,
    text_arg, text_values, texts_arg, values_of_texts, vector_arg,
};
use crate::auth::{authorized, AuthManager, Grants};
use crate::catalog::{function_named, CatalogFunction};
use crate::effect::{
    blank, option_views, pair_views, Effect, EffectView, Stage, Step, StepView, Suspended,
    SuspendedView,
};
use crate::errors::{
    generic_error, namespace_not_found_error, unauthorized_error, RuntimeError, RuntimeErrorView,
};
use crate::namespace::{metric_named, parse_metric, parse_scalar, scalar_named, NamespaceManager};
use crate::text::{decimal, decimal_string, single, views};
use crate::value::{lemma_array_view, lemma_value_views, value_views, ScriptValue, Value};
use vstd::prelude::*;
use vstd::string::StringExecFns;

verus! {

/// The number of entries that a scan returns where the script names none.
pub const DEFAULT_SCAN_LIMIT: usize = 100;

/// What a call needs to know of the namespaces: the dimensions of each, and
/// their names in the order in which they were created.
pub ghost struct Shapes {
    pub dimensions: Map<Seq<char>, usize>,
    pub names: Seq<Seq<char>>,
}

/// What `manager` lets a call know of its namespaces.
pub open spec fn shapes_of<D, V>(manager: NamespaceManager<D, V>) -> Shapes {
    Shapes {
        dimensions: Map::new(
            |name: Seq<char>| manager@.contains_key(name),
            |name: Seq<char>| manager@[name].dimensions,
        ),
        names: manager.names(),
    }
}

/// The error for the namespace `name` if it does not exist.
pub open spec fn missing(shapes: Shapes, name: Seq<char>) -> Option<RuntimeErrorView> {
    if shapes.dimensions.contains_key(name) {
        None
    } else {
        Some(namespace_not_found_error(name, shapes.names))
    }
}

/// The error for a vector of `len` components in the namespace `name`, whose
/// vectors have `dimensions` components.
pub open spec fn dimension_error(name: Seq<char>, len: nat, dimensions: nat) -> RuntimeErrorView {
    generic_error(
        "Vector has "@ + decimal(len) + " dimensions, namespace '"@ + name + "' expects "@
            + decimal(dimensions),
    )
}

/// The error for a vector `vector` in the namespace `name`, if it has not as
/// many components as the namespace's vectors have.
pub open spec fn misfit(shapes: Shapes, name: Seq<char>, vector: Seq<Value>) -> Option<
    RuntimeErrorView,
> {
    if vector.len() == shapes.dimensions[name] {
        None
    } else {
        Some(dimension_error(name, vector.len(), shapes.dimensions[name] as nat))
    }
}

/// The call of `function` that waits for its one effect to be done and then
/// returns `result`.
pub open spec fn finishing(function: CatalogFunction, result: Value) -> SuspendedView {
    SuspendedView { result, ..blank(Stage::Finish, function) }
}

/// The number `n` as a script's integer, or the greatest integer where `n`
/// is beyond it.
pub open spec fn count_value(n: nat) -> i64 {
    if n <= i64::MAX {
        n as i64
    } else {
        i64::MAX
    }
}

/// The keys `keys`, each one present.
pub open spec fn present(keys: Seq<Seq<char>>) -> Seq<Option<Seq<char>>> {
    Seq::new(keys.len(), |j: int| Some(keys[j]))
}

/// What a call of `function` with the arguments `args` does first, once the
/// caller is known to be allowed to make it.
pub open spec fn start(shapes: Shapes, function: CatalogFunction, args: Seq<Value>) -> StepView {
    match function {
        CatalogFunction::CreateNamespace => start_create_namespace(shapes, args),
        CatalogFunction::DeleteNamespace => start_delete_namespace(shapes, args),
        CatalogFunction::ListNamespaces => StepView::Return(
            Value::Array(text_values(shapes.names)),
        ),
        CatalogFunction::NamespaceExists => match text_arg(function, args, 0) {
            Err(e) => StepView::Raise(e),
            Ok(name) => StepView::Return(Value::Bool(shapes.dimensions.contains_key(name))),
        },
        CatalogFunction::Get => start_keyed(shapes, function, Stage::ReturnTextOrNull, args),
        CatalogFunction::Delete => start_keyed(shapes, function, Stage::Finish, args),
        CatalogFunction::SelectJson => start_keyed(shapes, function, Stage::JsonFetched, args),
        CatalogFunction::Put => start_put(shapes, args),
        CatalogFunction::BatchPut => start_batch_put(shapes, args),
        CatalogFunction::BatchSelect => start_batch_select(shapes, args),
        CatalogFunction::Scan => start_scan(shapes, args),
        CatalogFunction::AddVector => start_add_vector(shapes, args),
        CatalogFunction::SimilaritySearch => start_similarity_search(shapes, args),
        CatalogFunction::GenerateEmbedding => match texts_arg(function, args, 0) {
            Err(e) => StepView::Raise(e),
            Ok(texts) => StepView::Perform(
                blank(Stage::ReturnAny, function),
                EffectView::Embed { texts },
            ),
        },
        CatalogFunction::StoreDocument => start_store_document(shapes, args),
        CatalogFunction::SemanticSearch => start_query(shapes, function, Stage::QueryEmbedded, args),
        CatalogFunction::MemoryRecall => start_query(shapes, function, Stage::RecallEmbedded, args),
        CatalogFunction::JsonEncode => StepView::Perform(
            blank(Stage::ReturnText, function),
            EffectView::JsonEncode { value: arg(args, 0) },
        ),
        CatalogFunction::JsonDecode => match text_arg(function, args, 0) {
            Err(e) => StepView::Raise(e),
            Ok(text) => StepView::Perform(
                blank(Stage::ReturnAny, function),
                EffectView::JsonDecode { text },
            ),
        },
        CatalogFunction::InsertJson => start_insert_json(shapes, args),
        CatalogFunction::MemoryStore => start_memory_store(shapes, args),
        CatalogFunction::Save => StepView::Perform(
            finishing(function, Value::Null),
            EffectView::SaveAll,
        ),
        CatalogFunction::Uuid => StepView::Perform(
            blank(Stage::ReturnText, function),
            EffectView::FreshUuid,
        ),
        CatalogFunction::Timestamp => StepView::Perform(
            blank(Stage::Seconds, function),
            EffectView::Clock,
        ),
        CatalogFunction::Sleep => match id_arg(function, args, 0) {
            Err(e) => StepView::Raise(e),
            Ok(millis) => StepView::Perform(
                finishing(function, Value::Null),
                EffectView::Sleep { millis },
            ),
        },
    }
}

/// `create_namespace(name, dimensions, metric, scalar)`.
pub open spec fn start_create_namespace(shapes: Shapes, args: Seq<Value>) -> StepView {
    let function = CatalogFunction::CreateNamespace;
    match text_arg(function, args, 0) {
        Err(e) => StepView::Raise(e),
        Ok(name) => match count_arg(function, args, 1) {
            Err(e) => StepView::Raise(e),
            Ok(dimensions) => match text_arg(function, args, 2) {
                Err(e) => StepView::Raise(e),
                Ok(metric_text) => match text_arg(function, args, 3) {
                    Err(e) => StepView::Raise(e),
                    Ok(scalar_text) => match metric_named(metric_text) {
                        None => StepView::Raise(generic_error("Invalid metric kind"@)),
                        Some(metric) => match scalar_named(scalar_text) {
                            None => StepView::Raise(generic_error("Invalid scalar kind"@)),
                            Some(scalar) => if shapes.dimensions.contains_key(name) {
                                StepView::Raise(
                                    generic_error(
                                        "Failed to create namespace: Namespace '"@ + name
                                            + "' already exists"@,
                                    ),
                                )
                            } else {
                                StepView::Perform(
                                    finishing(function, Value::Null),
                                    EffectView::CreateNamespace {
                                        name,
                                        dimensions,
                                        metric,
                                        scalar,
                                    },
                                )
                            },
                        },
                    },
                },
            },
        },
    }
}

/// `delete_namespace(name)`.
pub open spec fn start_delete_namespace(shapes: Shapes, args: Seq<Value>) -> StepView {
    let function = CatalogFunction::DeleteNamespace;
    match text_arg(function, args, 0) {
        Err(e) => StepView::Raise(e),
        Ok(name) => match missing(shapes, name) {
            Some(e) => StepView::Raise(e),
            None => StepView::Perform(
                finishing(function, Value::Null),
                EffectView::DeleteNamespace { name },
            ),
        },
    }
}

/// A call with the arguments `(namespace, key)`: `get` and `select_json`
/// read the key and go on at `stage`, `delete` removes it.
pub open spec fn start_keyed(
    shapes: Shapes,
    function: CatalogFunction,
    stage: Stage,
    args: Seq<Value>,
) -> StepView {
    match text_arg(function, args, 0) {
        Err(e) => StepView::Raise(e),
        Ok(namespace) => match text_arg(function, args, 1) {
            Err(e) => StepView::Raise(e),
            Ok(key) => match missing(shapes, namespace) {
                Some(e) => StepView::Raise(e),
                None => StepView::Perform(
                    blank(stage, function),
                    if function == CatalogFunction::Delete {
                        EffectView::KvDelete { namespace, key }
                    } else {
                        EffectView::KvGet { namespace, key }
                    },
                ),
            },
        },
    }
}

/// `put(namespace, key, value)`.
pub open spec fn start_put(shapes: Shapes, args: Seq<Value>) -> StepView {
    let function = CatalogFunction::Put;
    match text_arg(function, args, 0) {
        Err(e) => StepView::Raise(e),
        Ok(namespace) => match text_arg(function, args, 1) {
            Err(e) => StepView::Raise(e),
            Ok(key) => match text_arg(function, args, 2) {
                Err(e) => StepView::Raise(e),
                Ok(value) => match missing(shapes, namespace) {
                    Some(e) => StepView::Raise(e),
                    None => StepView::Perform(
                        finishing(function, Value::Null),
                        EffectView::KvPut { namespace, key, value },
                    ),
                },
            },
        },
    }
}

/// `batch_put(namespace, items)`, where each item is an object with a string
/// under `key` and a string under `value`. Returns the number of items.
pub open spec fn start_batch_put(shapes: Shapes, args: Seq<Value>) -> StepView {
    let function = CatalogFunction::BatchPut;
    match text_arg(function, args, 0) {
        Err(e) => StepView::Raise(e),
        Ok(namespace) => match pairs_arg(function, args, 1) {
            Err(e) => StepView::Raise(e),
            Ok(items) => match missing(shapes, namespace) {
                Some(e) => StepView::Raise(e),
                None => StepView::Perform(
                    finishing(function, Value::Int(count_value(items.len()))),
                    EffectView::KvBatchPut { namespace, items },
                ),
            },
        },
    }
}

/// `batch_select(namespace, keys)`.
pub open spec fn start_batch_select(shapes: Shapes, args: Seq<Value>) -> StepView {
    let function = CatalogFunction::BatchSelect;
    match text_arg(function, args, 0) {
        Err(e) => StepView::Raise(e),
        Ok(namespace) => match texts_arg(function, args, 1) {
            Err(e) => StepView::Raise(e),
            Ok(keys) => match missing(shapes, namespace) {
                Some(e) => StepView::Raise(e),
                None => StepView::Perform(
                    SuspendedView {
                        values: text_values(keys),
                        ..blank(Stage::Selected, function)
                    },
                    EffectView::KvGetMany { namespace, keys: present(keys) },
                ),
            },
        },
    }
}

/// `scan(namespace, prefix, limit)`, where the limit may be left out.
pub open spec fn start_scan(shapes: Shapes, args: Seq<Value>) -> StepView {
    let function = CatalogFunction::Scan;
    match text_arg(function, args, 0) {
        Err(e) => StepView::Raise(e),
        Ok(namespace) => match text_arg(function, args, 1) {
            Err(e) => StepView::Raise(e),
            Ok(prefix) => match optional_count_arg(function, args, 2, DEFAULT_SCAN_LIMIT) {
                Err(e) => StepView::Raise(e),
                Ok(limit) => match missing(shapes, namespace) {
                    Some(e) => StepView::Raise(e),
                    None => StepView::Perform(
                        SuspendedView { text: prefix, limit, ..blank(Stage::Scanned, function) },
                        EffectView::KvScan { namespace, prefix },
                    ),
                },
            },
        },
    }
}

/// `add_vector(namespace, id, vector)`.
pub open spec fn start_add_vector(shapes: Shapes, args: Seq<Value>) -> StepView {
    let function = CatalogFunction::AddVector;
    match text_arg(function, args, 0) {
        Err(e) => StepView::Raise(e),
        Ok(namespace) => match id_arg(function, args, 1) {
            Err(e) => StepView::Raise(e),
            Ok(id) => match vector_arg(function, args, 2) {
                Err(e) => StepView::Raise(e),
                Ok(vector) => match missing(shapes, namespace) {
                    Some(e) => StepView::Raise(e),
                    None => match misfit(shapes, namespace, vector) {
                        Some(e) => StepView::Raise(e),
                        None => StepView::Perform(
                            finishing(function, Value::Null),
                            EffectView::VectorAdd { namespace, id, vector },
                        ),
                    },
                },
            },
        },
    }
}

/// `similarity_search(namespace, vector, k)`.
pub open spec fn start_similarity_search(shapes: Shapes, args: Seq<Value>) -> StepView {
    let function = CatalogFunction::SimilaritySearch;
    match text_arg(function, args, 0) {
        Err(e) => StepView::Raise(e),
        Ok(namespace) => match vector_arg(function, args, 1) {
            Err(e) => StepView::Raise(e),
            Ok(vector) => match count_arg(function, args, 2) {
                Err(e) => StepView::Raise(e),
                Ok(k) => match missing(shapes, namespace) {
                    Some(e) => StepView::Raise(e),
                    None => match misfit(shapes, namespace, vector) {
                        Some(e) => StepView::Raise(e),
                        None => StepView::Perform(
                            blank(Stage::Hits, function),
                            EffectView::VectorSearch { namespace, vector, k },
                        ),
                    },
                },
            },
        },
    }
}

/// `store_document(namespace, id, key, text)`: the text is embedded first.
pub open spec fn start_store_document(shapes: Shapes, args: Seq<Value>) -> StepView {
    let function = CatalogFunction::StoreDocument;
    match text_arg(function, args, 0) {
        Err(e) => StepView::Raise(e),
        Ok(namespace) => match id_arg(function, args, 1) {
            Err(e) => StepView::Raise(e),
            Ok(id) => match text_arg(function, args, 2) {
                Err(e) => StepView::Raise(e),
                Ok(key) => match text_arg(function, args, 3) {
                    Err(e) => StepView::Raise(e),
                    Ok(text) => match missing(shapes, namespace) {
                        Some(e) => StepView::Raise(e),
                        None => StepView::Perform(
                            SuspendedView {
                                namespace,
                                id,
                                key,
                                text,
                                ..blank(Stage::DocEmbedded, function)
                            },
                            EffectView::Embed { texts: seq![text] },
                        ),
                    },
                },
            },
        },
    }
}

/// A call with the arguments `(namespace, query, k)`: `semantic_search` and
/// `memory_recall`. The query is embedded first.
pub open spec fn start_query(
    shapes: Shapes,
    function: CatalogFunction,
    stage: Stage,
    args: Seq<Value>,
) -> StepView {
    match text_arg(function, args, 0) {
        Err(e) => StepView::Raise(e),
        Ok(namespace) => match text_arg(function, args, 1) {
            Err(e) => StepView::Raise(e),
            Ok(query) => match count_arg(function, args, 2) {
                Err(e) => StepView::Raise(e),
                Ok(k) => match missing(shapes, namespace) {
                    Some(e) => StepView::Raise(e),
                    None => StepView::Perform(
                        SuspendedView { namespace, limit: k, ..blank(stage, function) },
                        EffectView::Embed { texts: seq![query] },
                    ),
                },
            },
        },
    }
}

/// `insert_json(namespace, key, value)`: the value is written as JSON first.
pub open spec fn start_insert_json(shapes: Shapes, args: Seq<Value>) -> StepView {
    let function = CatalogFunction::InsertJson;
    match text_arg(function, args, 0) {
        Err(e) => StepView::Raise(e),
        Ok(namespace) => match text_arg(function, args, 1) {
            Err(e) => StepView::Raise(e),
            Ok(key) => match missing(shapes, namespace) {
                Some(e) => StepView::Raise(e),
                None => StepView::Perform(
                    SuspendedView { namespace, key, ..blank(Stage::JsonEncoded, function) },
                    EffectView::JsonEncode { value: arg(args, 2) },
                ),
            },
        },
    }
}

/// `memory_store(namespace, content, tags)`, where the tags may be left out.
/// The clock is read first: the time of the call is the memory's id.
pub open spec fn start_memory_store(shapes: Shapes, args: Seq<Value>) -> StepView {
    let function = CatalogFunction::MemoryStore;
    match text_arg(function, args, 0) {
        Err(e) => StepView::Raise(e),
        Ok(namespace) => match text_arg(function, args, 1) {
            Err(e) => StepView::Raise(e),
            Ok(content) => match optional_texts_arg(function, args, 2) {
                Err(e) => StepView::Raise(e),
                Ok(tags) => match missing(shapes, namespace) {
                    Some(e) => StepView::Raise(e),
                    None => StepView::Perform(
                        SuspendedView {
                            namespace,
                            text: content,
                            values: text_values(tags),
                            ..blank(Stage::MemoryClock, function)
                        },
                        EffectView::Clock,
                    ),
                },
            },
        },
    }
}

/// What a call of the function named `function` by `principal` with the
/// arguments `args` does first. A name that is not in the catalog is an
/// error; a caller without the permission that bears the function's name is
/// refused before anything else is looked at.
pub open spec fn begin_spec(
    grants: Grants,
    shapes: Shapes,
    principal: Seq<char>,
    function: Seq<char>,
    args: Seq<Value>,
) -> StepView {
    match function_named(function) {
        None => StepView::Raise(
            generic_error("attempt to call a nil value (global '"@ + function + "')"@),
        ),
        Some(f) => if authorized(grants, principal, function) {
            start(shapes, f, args)
        } else {
            StepView::Raise(unauthorized_error(function, principal))
        },
    }
}

/// The error for the namespace `name` if it does not exist.
fn check_namespace<D, V>(namespaces: &NamespaceManager<D, V>, name: &str) -> (out: Option<
    RuntimeError,
>)
    ensures
        match missing(shapes_of(*namespaces), name@) {
            Some(e) => out matches Some(x) && x@ == e,
            None => out is None,
        },
{
    if namespaces.namespace_exists(name) {
        None
    } else {
        Some(RuntimeError::namespace_not_found(name, namespaces.list_namespaces()))
    }
}

/// The error for `vector` in the namespace `name`, which exists, if the
/// vector has not as many components as the namespace's vectors have.
fn check_vector<D, V>(
    namespaces: &NamespaceManager<D, V>,
    name: &str,
    vector: &Vec<ScriptValue>,
) -> (out: Option<RuntimeError>)
    requires
        namespaces@.contains_key(name@),
    ensures
        match misfit(shapes_of(*namespaces), name@, value_views(vector@)) {
            Some(e) => out matches Some(x) && x@ == e,
            None => out is None,
        },
{
    proof {
        lemma_value_views(vector@);
    }
    let dimensions = match namespaces.get_namespace(name) {
        Ok(namespace) => namespace.dimensions,
        Err(_) => 0,
    };
    if vector.len() == dimensions {
        None
    } else {
        let mut text = String::from_str("Vector has ");
        text.append(decimal_string(vector.len() as u64).as_str());
        text.append(" dimensions, namespace '");
        text.append(name);
        text.append("' expects ");
        text.append(decimal_string(dimensions as u64).as_str());
        Some(RuntimeError::lua_error(text.as_str()))
    }
}

/// The call of `function` that waits for its one effect to be done and then
/// returns `result`.
fn finish(function: CatalogFunction, result: ScriptValue) -> (out: Suspended)
    ensures
        out@ == finishing(function, result@),
{
    let mut out = Suspended::new(Stage::Finish, function);
    out.result = result;
    out
}

/// The keys `keys`, each one present.
fn all_present(keys: &Vec<String>) -> (out: Vec<Option<String>>)
    ensures
        option_views(out@) == present(views(keys@)),
{
    let mut out: Vec<Option<String>> = Vec::new();
    let mut j: usize = 0;
    while j < keys.len()
        invariant
            j <= keys.len(),
            out@.len() == j,
            forall|e: int|
                0 <= e < j ==> ((#[trigger] out@[e]) matches Some(s) && s@ == keys@[e]@),
        decreases keys.len() - j,
    {
        out.push(Some(keys[j].clone()));
        j += 1;
    }
    assert(option_views(out@) =~= present(views(keys@)));
    out
}

/// Starts `create_namespace(name, dimensions, metric, scalar)`.
fn begin_create_namespace<D, V>(namespaces: &NamespaceManager<D, V>, args: &Vec<ScriptValue>) -> (out:
    Step)
    ensures
        out@ == start_create_namespace(shapes_of(*namespaces), value_views(args@)),
{
    let function = CatalogFunction::CreateNamespace;
    let name = match get_text(function, args, 0) {
        Ok(v) => v,
        Err(e) => {
            return Step::Raise(e);
        },
    };
    let dimensions = match get_count(function, args, 1) {
        Ok(v) => v,
        Err(e) => {
            return Step::Raise(e);
        },
    };
    let metric_text = match get_text(function, args, 2) {
        Ok(v) => v,
        Err(e) => {
            return Step::Raise(e);
        },
    };
    let scalar_text = match get_text(function, args, 3) {
        Ok(v) => v,
        Err(e) => {
            return Step::Raise(e);
        },
    };
    let metric = match parse_metric(metric_text.as_str()) {
        Ok(v) => v,
        Err(_) => {
            return Step::Raise(RuntimeError::lua_error("Invalid metric kind"));
        },
    };
    let scalar = match parse_scalar(scalar_text.as_str()) {
        Ok(v) => v,
        Err(_) => {
            return Step::Raise(RuntimeError::lua_error("Invalid scalar kind"));
        },
    };
    if namespaces.namespace_exists(name.as_str()) {
        let mut text = String::from_str("Failed to create namespace: Namespace '");
        text.append(name.as_str());
        text.append("' already exists");
        return Step::Raise(RuntimeError::lua_error(text.as_str()));
    }
    Step::Perform(
        finish(function, ScriptValue::Null),
        Effect::CreateNamespace { name, dimensions, metric, scalar },
    )
}

/// Starts `delete_namespace(name)`.
fn begin_delete_namespace<D, V>(namespaces: &NamespaceManager<D, V>, args: &Vec<ScriptValue>) -> (out:
    Step)
    ensures
        out@ == start_delete_namespace(shapes_of(*namespaces), value_views(args@)),
{
    let function = CatalogFunction::DeleteNamespace;
    let name = match get_text(function, args, 0) {
        Ok(v) => v,
        Err(e) => {
            return Step::Raise(e);
        },
    };
    match check_namespace(namespaces, name.as_str()) {
        Some(e) => {
            return Step::Raise(e);
        },
        None => {},
    }
    Step::Perform(finish(function, ScriptValue::Null), Effect::DeleteNamespace { name })
}

/// Starts a call with the arguments `(namespace, key)`.
fn begin_keyed<D, V>(
    namespaces: &NamespaceManager<D, V>,
    function: CatalogFunction,
    stage: Stage,
    args: &Vec<ScriptValue>,
) -> (out: Step)
    ensures
        out@ == start_keyed(shapes_of(*namespaces), function, stage, value_views(args@)),
{
    let namespace = match get_text(function, args, 0) {
        Ok(v) => v,
        Err(e) => {
            return Step::Raise(e);
        },
    };
    let key = match get_text(function, args, 1) {
        Ok(v) => v,
        Err(e) => {
            return Step::Raise(e);
        },
    };
    match check_namespace(namespaces, namespace.as_str()) {
        Some(e) => {
            return Step::Raise(e);
        },
        None => {},
    }
    let effect = match function {
        CatalogFunction::Delete => Effect::KvDelete { namespace, key },
        _ => Effect::KvGet { namespace, key },
    };
    Step::Perform(Suspended::new(stage, function), effect)
}

/// Starts `put(namespace, key, value)`.
fn begin_put<D, V>(namespaces: &NamespaceManager<D, V>, args: &Vec<ScriptValue>) -> (out: Step)
    ensures
        out@ == start_put(shapes_of(*namespaces), value_views(args@)),
{
    let function = CatalogFunction::Put;
    let namespace = match get_text(function, args, 0) {
        Ok(v) => v,
        Err(e) => {
            return Step::Raise(e);
        },
    };
    let key = match get_text(function, args, 1) {
        Ok(v) => v,
        Err(e) => {
            return Step::Raise(e);
        },
    };
    let value = match get_text(function, args, 2) {
        Ok(v) => v,
        Err(e) => {
            return Step::Raise(e);
        },
    };
    match check_namespace(namespaces, namespace.as_str()) {
        Some(e) => {
            return Step::Raise(e);
        },
        None => {},
    }
    Step::Perform(finish(function, ScriptValue::Null), Effect::KvPut { namespace, key, value })
}

/// Starts `batch_put(namespace, items)`.
fn begin_batch_put<D, V>(namespaces: &NamespaceManager<D, V>, args: &Vec<ScriptValue>) -> (out: Step)
    ensures
        out@ == start_batch_put(shapes_of(*namespaces), value_views(args@)),
{
    let function = CatalogFunction::BatchPut;
    let namespace = match get_text(function, args, 0) {
        Ok(v) => v,
        Err(e) => {
            return Step::Raise(e);
        },
    };
    let items = match get_pairs(function, args, 1) {
        Ok(v) => v,
        Err(e) => {
            return Step::Raise(e);
        },
    };
    match check_namespace(namespaces, namespace.as_str()) {
        Some(e) => {
            return Step::Raise(e);
        },
        None => {},
    }
    assert(pair_views(items@).len() == items@.len());
    let count: i64 = if (items.len() as u64) <= 0x7fff_ffff_ffff_ffffu64 {
        items.len() as i64
    } else {
        i64::MAX
    };
    Step::Perform(finish(function, ScriptValue::Int(count)), Effect::KvBatchPut { namespace, items })
}

/// Starts `batch_select(namespace, keys)`.
fn begin_batch_select<D, V>(namespaces: &NamespaceManager<D, V>, args: &Vec<ScriptValue>) -> (out:
    Step)
    ensures
        out@ == start_batch_select(shapes_of(*namespaces), value_views(args@)),
{
    let function = CatalogFunction::BatchSelect;
    let namespace = match get_text(function, args, 0) {
        Ok(v) => v,
        Err(e) => {
            return Step::Raise(e);
        },
    };
    let keys = match get_texts(function, args, 1) {
        Ok(v) => v,
        Err(e) => {
            return Step::Raise(e);
        },
    };
    match check_namespace(namespaces, namespace.as_str()) {
        Some(e) => {
            return Step::Raise(e);
        },
        None => {},
    }
    let mut suspended = Suspended::new(Stage::Selected, function);
    suspended.values = values_of_texts(&keys);
    Step::Perform(suspended, Effect::KvGetMany { namespace, keys: all_present(&keys) })
}

/// Starts `scan(namespace, prefix, limit)`.
fn begin_scan<D, V>(namespaces: &NamespaceManager<D, V>, args: &Vec<ScriptValue>) -> (out: Step)
    ensures
        out@ == start_scan(shapes_of(*namespaces), value_views(args@)),
{
    let function = CatalogFunction::Scan;
    let namespace = match get_text(function, args, 0) {
        Ok(v) => v,
        Err(e) => {
            return Step::Raise(e);
        },
    };
    let prefix = match get_text(function, args, 1) {
        Ok(v) => v,
        Err(e) => {
            return Step::Raise(e);
        },
    };
    let limit = match get_optional_count(function, args, 2, DEFAULT_SCAN_LIMIT) {
        Ok(v) => v,
        Err(e) => {
            return Step::Raise(e);
        },
    };
    match check_namespace(namespaces, namespace.as_str()) {
        Some(e) => {
            return Step::Raise(e);
        },
        None => {},
    }
    let mut suspended = Suspended::new(Stage::Scanned, function);
    suspended.text = prefix.clone();
    suspended.limit = limit;
    Step::Perform(suspended, Effect::KvScan { namespace, prefix })
}

/// Starts `add_vector(namespace, id, vector)`.
fn begin_add_vector<D, V>(namespaces: &NamespaceManager<D, V>, args: &Vec<ScriptValue>) -> (out:
    Step)
    ensures
        out@ == start_add_vector(shapes_of(*namespaces), value_views(args@)),
{
    let function = CatalogFunction::AddVector;
    let namespace = match get_text(function, args, 0) {
        Ok(v) => v,
        Err(e) => {
            return Step::Raise(e);
        },
    };
    let id = match get_id(function, args, 1) {
        Ok(v) => v,
        Err(e) => {
            return Step::Raise(e);
        },
    };
    let vector = match get_vector(function, args, 2) {
        Ok(v) => v,
        Err(e) => {
            return Step::Raise(e);
        },
    };
    match check_namespace(namespaces, namespace.as_str()) {
        Some(e) => {
            return Step::Raise(e);
        },
        None => {},
    }
    match check_vector(namespaces, namespace.as_str(), &vector) {
        Some(e) => {
            return Step::Raise(e);
        },
        None => {},
    }
    Step::Perform(finish(function, ScriptValue::Null), Effect::VectorAdd { namespace, id, vector })
}

/// Starts `similarity_search(namespace, vector, k)`.
fn begin_similarity_search<D, V>(namespaces: &NamespaceManager<D, V>, args: &Vec<ScriptValue>) -> (out:
    Step)
    ensures
        out@ == start_similarity_search(shapes_of(*namespaces), value_views(args@)),
{
    let function = CatalogFunction::SimilaritySearch;
    let namespace = match get_text(function, args, 0) {
        Ok(v) => v,
        Err(e) => {
            return Step::Raise(e);
        },
    };
    let vector = match get_vector(function, args, 1) {
        Ok(v) => v,
        Err(e) => {
            return Step::Raise(e);
        },
    };
    let k = match get_count(function, args, 2) {
        Ok(v) => v,
        Err(e) => {
            return Step::Raise(e);
        },
    };
    match check_namespace(namespaces, namespace.as_str()) {
        Some(e) => {
            return Step::Raise(e);
        },
        None => {},
    }
    match check_vector(namespaces, namespace.as_str(), &vector) {
        Some(e) => {
            return Step::Raise(e);
        },
        None => {},
    }
    Step::Perform(
        Suspended::new(Stage::Hits, function),
        Effect::VectorSearch { namespace, vector, k },
    )
}

/// Starts `store_document(namespace, id, key, text)`.
fn begin_store_document<D, V>(namespaces: &NamespaceManager<D, V>, args: &Vec<ScriptValue>) -> (out:
    Step)
    ensures
        out@ == start_store_document(shapes_of(*namespaces), value_views(args@)),
{
    let function = CatalogFunction::StoreDocument;
    let namespace = match get_text(function, args, 0) {
        Ok(v) => v,
        Err(e) => {
            return Step::Raise(e);
        },
    };
    let id = match get_id(function, args, 1) {
        Ok(v) => v,
        Err(e) => {
            return Step::Raise(e);
        },
    };
    let key = match get_text(function, args, 2) {
        Ok(v) => v,
        Err(e) => {
            return Step::Raise(e);
        },
    };
    let text = match get_text(function, args, 3) {
        Ok(v) => v,
        Err(e) => {
            return Step::Raise(e);
        },
    };
    match check_namespace(namespaces, namespace.as_str()) {
        Some(e) => {
            return Step::Raise(e);
        },
        None => {},
    }
    let texts = single(text.clone());
    let mut suspended = Suspended::new(Stage::DocEmbedded, function);
    suspended.namespace = namespace;
    suspended.id = id;
    suspended.key = key;
    suspended.text = text;
    Step::Perform(suspended, Effect::Embed { texts })
}

/// Starts a call with the arguments `(namespace, query, k)`.
fn begin_query<D, V>(
    namespaces: &NamespaceManager<D, V>,
    function: CatalogFunction,
    stage: Stage,
    args: &Vec<ScriptValue>,
) -> (out: Step)
    ensures
        out@ == start_query(shapes_of(*namespaces), function, stage, value_views(args@)),
{
    let namespace = match get_text(function, args, 0) {
        Ok(v) => v,
        Err(e) => {
            return Step::Raise(e);
        },
    };
    let query = match get_text(function, args, 1) {
        Ok(v) => v,
        Err(e) => {
            return Step::Raise(e);
        },
    };
    let k = match get_count(function, args, 2) {
        Ok(v) => v,
        Err(e) => {
            return Step::Raise(e);
        },
    };
    match check_namespace(namespaces, namespace.as_str()) {
        Some(e) => {
            return Step::Raise(e);
        },
        None => {},
    }
    let mut suspended = Suspended::new(stage, function);
    suspended.namespace = namespace;
    suspended.limit = k;
    Step::Perform(suspended, Effect::Embed { texts: single(query) })
}

/// A copy of argument `i` of `args`, or null where there is none.
fn copy_arg(args: &Vec<ScriptValue>, i: usize) -> (out: ScriptValue)
    ensures
        out@ == arg(value_views(args@), i as int),
{
    proof {
        lemma_value_views(args@);
    }
    if i < args.len() {
        args[i].duplicate()
    } else {
        ScriptValue::Null
    }
}

/// Starts `insert_json(namespace, key, value)`.
fn begin_insert_json<D, V>(namespaces: &NamespaceManager<D, V>, args: &Vec<ScriptValue>) -> (out:
    Step)
    ensures
        out@ == start_insert_json(shapes_of(*namespaces), value_views(args@)),
{
    let function = CatalogFunction::InsertJson;
    let namespace = match get_text(function, args, 0) {
        Ok(v) => v,
        Err(e) => {
            return Step::Raise(e);
        },
    };
    let key = match get_text(function, args, 1) {
        Ok(v) => v,
        Err(e) => {
            return Step::Raise(e);
        },
    };
    match check_namespace(namespaces, namespace.as_str()) {
        Some(e) => {
            return Step::Raise(e);
        },
        None => {},
    }
    let mut suspended = Suspended::new(Stage::JsonEncoded, function);
    suspended.namespace = namespace;
    suspended.key = key;
    Step::Perform(suspended, Effect::JsonEncode { value: copy_arg(args, 2) })
}

/// Starts `memory_store(namespace, content, tags)`.
fn begin_memory_store<D, V>(namespaces: &NamespaceManager<D, V>, args: &Vec<ScriptValue>) -> (out:
    Step)
    ensures
        out@ == start_memory_store(shapes_of(*namespaces), value_views(args@)),
{
    let function = CatalogFunction::MemoryStore;
    let namespace = match get_text(function, args, 0) {
        Ok(v) => v,
        Err(e) => {
            return Step::Raise(e);
        },
    };
    let content = match get_text(function, args, 1) {
        Ok(v) => v,
        Err(e) => {
            return Step::Raise(e);
        },
    };
    let tags = match get_optional_texts(function, args, 2) {
        Ok(v) => v,
        Err(e) => {
            return Step::Raise(e);
        },
    };
    match check_namespace(namespaces, namespace.as_str()) {
        Some(e) => {
            return Step::Raise(e);
        },
        None => {},
    }
    let mut suspended = Suspended::new(Stage::MemoryClock, function);
    suspended.namespace = namespace;
    suspended.text = content;
    suspended.values = values_of_texts(&tags);
    Step::Perform(suspended, Effect::Clock)
}

/// What a call of `function` with the arguments `args` does first, once the
/// caller is known to be allowed to make it.
pub fn begin_call<D, V>(
    namespaces: &NamespaceManager<D, V>,
    function: CatalogFunction,
    args: &Vec<ScriptValue>,
) -> (out: Step)
    ensures
        out@ == start(shapes_of(*namespaces), function, value_views(args@)),
{
    match function {
        CatalogFunction::CreateNamespace => begin_create_namespace(namespaces, args),
        CatalogFunction::DeleteNamespace => begin_delete_namespace(namespaces, args),
        CatalogFunction::ListNamespaces => {
            let names = namespaces.list_namespaces();
            let items = values_of_texts(&names);
            proof {
                lemma_array_view(items);
            }
            Step::Return(ScriptValue::Array(items))
        },
        CatalogFunction::NamespaceExists => match get_text(function, args, 0) {
            Ok(name) => Step::Return(ScriptValue::Bool(namespaces.namespace_exists(name.as_str()))),
            Err(e) => Step::Raise(e),
        },
        CatalogFunction::Get => begin_keyed(namespaces, function, Stage::ReturnTextOrNull, args),
        CatalogFunction::Delete => begin_keyed(namespaces, function, Stage::Finish, args),
        CatalogFunction::SelectJson => begin_keyed(namespaces, function, Stage::JsonFetched, args),
        CatalogFunction::Put => begin_put(namespaces, args),
        CatalogFunction::BatchPut => begin_batch_put(namespaces, args),
        CatalogFunction::BatchSelect => begin_batch_select(namespaces, args),
        CatalogFunction::Scan => begin_scan(namespaces, args),
        CatalogFunction::AddVector => begin_add_vector(namespaces, args),
        CatalogFunction::SimilaritySearch => begin_similarity_search(namespaces, args),
        CatalogFunction::GenerateEmbedding => match get_texts(function, args, 0) {
            Ok(texts) => Step::Perform(
                Suspended::new(Stage::ReturnAny, function),
                Effect::Embed { texts },
            ),
            Err(e) => Step::Raise(e),
        },
        CatalogFunction::StoreDocument => begin_store_document(namespaces, args),
        CatalogFunction::SemanticSearch => begin_query(
            namespaces,
            function,
            Stage::QueryEmbedded,
            args,
        ),
        CatalogFunction::MemoryRecall => begin_query(
            namespaces,
            function,
            Stage::RecallEmbedded,
            args,
        ),
        CatalogFunction::JsonEncode => Step::Perform(
            Suspended::new(Stage::ReturnText, function),
            Effect::JsonEncode { value: copy_arg(args, 0) },
        ),
        CatalogFunction::JsonDecode => match get_text(function, args, 0) {
            Ok(text) => Step::Perform(
                Suspended::new(Stage::ReturnAny, function),
                Effect::JsonDecode { text },
            ),
            Err(e) => Step::Raise(e),
        },
        CatalogFunction::InsertJson => begin_insert_json(namespaces, args),
        CatalogFunction::MemoryStore => begin_memory_store(namespaces, args),
        CatalogFunction::Save => Step::Perform(
            finish(function, ScriptValue::Null),
            Effect::SaveAll,
        ),
        CatalogFunction::Uuid => Step::Perform(
            Suspended::new(Stage::ReturnText, function),
            Effect::FreshUuid,
        ),
        CatalogFunction::Timestamp => Step::Perform(
            Suspended::new(Stage::Seconds, function),
            Effect::Clock,
        ),
        CatalogFunction::Sleep => match get_id(function, args, 0) {
            Ok(millis) => Step::Perform(
                finish(function, ScriptValue::Null),
                Effect::Sleep { millis },
            ),
            Err(e) => Step::Raise(e),
        },
    }
}

/// The error for `principal` calling `function`, unless the permission that
/// bears the function's name is among those of `principal`. Every call is
/// put to this test.
pub fn authorize(auth: &AuthManager, principal: &str, function: &str) -> (out: Option<RuntimeError>)
    ensures
        authorized(auth@, principal@, function@) ==> out is None,
        !authorized(auth@, principal@, function@) ==> (out matches Some(e) && e@
            == unauthorized_error(function@, principal@)),
{
    if auth.is_authorized(principal, function) {
        None
    } else {
        Some(RuntimeError::unauthorized(function, principal))
    }
}

/// Starts the call of the function named `function` by `principal` with the
/// arguments `args`, and says what the call does first.
///
/// The caller's permissions are looked up now, for this call, whatever was
/// found for an earlier one.
pub fn begin<D, V>(
    auth: &AuthManager,
    namespaces: &NamespaceManager<D, V>,
    principal: &str,
    function: &str,
    args: &Vec<ScriptValue>,
) -> (out: Step)
    ensures
        out@ == begin_spec(auth@, shapes_of(*namespaces), principal@, function@, value_views(args@)),
        function_named(function@) is Some && !authorized(auth@, principal@, function@) ==> out@
            == StepView::Raise(unauthorized_error(function@, principal@)),
{
    let found = match CatalogFunction::lookup(function) {
        Some(f) => f,
        None => {
            let mut text = String::from_str("attempt to call a nil value (global '");
            text.append(function);
            text.append("')");
            return Step::Raise(RuntimeError::lua_error(text.as_str()));
        },
    };
    match authorize(auth, principal, function) {
        Some(e) => {
            return Step::Raise(e);
        },
        None => {},
    }
    begin_call(namespaces, found, args)
}

} // verus!
