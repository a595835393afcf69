//! The rest of a call: from a suspended call and what came of its effect to
//! what the call does next.
//!
//! A call that was raised an error does nothing more, and what it stored so
//! far stays stored.

use crate::args::{all_numbers, are_numbers, member, member_of};
use crate::catalog::{function_name, CatalogFunction};
use crate::effect::{
    blank, option_views, Effect, EffectView, Event, EventView, Stage, Step, StepView, Suspended,
    SuspendedView,
};
use crate::errors::{generic_error, RuntimeError, RuntimeErrorView};
use crate::executor::{count_value, finishing};
use crate::text::{decimal, decimal_string, single, starts_with};
use crate::value::{
    duplicate_values, field_views, lemma_array_view, lemma_field_views_push, lemma_object_view,
    lemma_value_views, lemma_value_views_push, value_views, ScriptValue, Value,
};
use vstd::prelude::*;
use vstd::string::StringExecFns;

verus! {

/// The error of `function` for an effect that failed with `reason`.
pub open spec fn failure(function: CatalogFunction, reason: Seq<char>) -> RuntimeErrorView {
    generic_error(function_name(function) + ": "@ + reason)
}

/// The error of `function` for a reply that is not of the shape agreed for
/// the effect.
pub open spec fn unexpected(function: CatalogFunction) -> RuntimeErrorView {
    failure(function, "unexpected reply"@)
}

/// The error of `function` for an embedding that did not come.
pub open spec fn no_embedding(function: CatalogFunction) -> RuntimeErrorView {
    failure(function, "Failed to generate embedding"@)
}

/// Whether `v` is a string or null.
pub open spec fn text_or_null(v: Value) -> bool {
    v is String || v is Null
}

/// Whether every one of `items` is a string or null.
pub open spec fn all_text_or_null(items: Seq<Value>) -> bool {
    forall|j: int| 0 <= j < items.len() ==> text_or_null(#[trigger] items[j])
}

/// Whether `v` is a hit of a search: an id, which is an integer that is not
/// negative, and a distance, which is a number.
pub open spec fn is_hit(v: Value) -> bool {
    v matches Value::Array(items) && items.len() == 2 && (items[0] matches Value::Int(id) && id
        >= 0) && (items[1] is Int || items[1] is Float)
}

/// Whether every one of `items` is a hit.
pub open spec fn all_hits(items: Seq<Value>) -> bool {
    forall|j: int| 0 <= j < items.len() ==> is_hit(#[trigger] items[j])
}

/// The id of the hit `hit`.
pub open spec fn hit_id(hit: Value) -> u64 {
    hit->Array_0[0]->Int_0 as u64
}

/// Whether `v` is an entry of a store: a key and a value, both strings.
pub open spec fn is_entry(v: Value) -> bool {
    v matches Value::Array(items) && items.len() == 2 && items[0] is String && items[1] is String
}

/// Whether every one of `items` is an entry.
pub open spec fn all_entries(items: Seq<Value>) -> bool {
    forall|j: int| 0 <= j < items.len() ==> is_entry(#[trigger] items[j])
}

/// The first of the vectors of the reply to an embedding, if the reply has
/// one.
pub open spec fn first_vector(reply: Value) -> Option<Seq<Value>> {
    match reply {
        Value::Array(vectors) => if vectors.len() >= 1 {
            match vectors[0] {
                Value::Array(components) => if all_numbers(components) {
                    Some(components)
                } else {
                    None
                },
                _ => None,
            }
        } else {
            None
        },
        _ => None,
    }
}

/// The seconds and nanoseconds of the clock's reply, if it is one.
pub open spec fn clock_of(reply: Value) -> Option<(u64, u64)> {
    match reply {
        Value::Array(items) => if items.len() == 2 {
            match (items[0], items[1]) {
                (Value::Int(seconds), Value::Int(nanos)) => if seconds >= 0 && nanos >= 0 {
                    Some((seconds as u64, nanos as u64))
                } else {
                    None
                },
                _ => None,
            }
        } else {
            None
        },
        _ => None,
    }
}

/// The id `id` as the script sees it.
pub open spec fn id_value(id: u64) -> Value {
    Value::Int(count_value(id as nat))
}

/// The key under which a namespace keeps the way from the vector `id` back
/// to the key of its text.
pub open spec fn index_key(id: u64) -> Seq<char> {
    "_vidx:"@ + decimal(id as nat)
}

/// The key under which a namespace keeps the text of the memory `id`.
pub open spec fn content_key(id: u64) -> Seq<char> {
    "mem:"@ + decimal(id as nat) + ":content"@
}

/// The key under which a namespace keeps the tags and the time of the memory
/// `id`.
pub open spec fn meta_key(id: u64) -> Seq<char> {
    "mem:"@ + decimal(id as nat) + ":meta"@
}

/// The hit `hit` as the script sees it.
pub open spec fn hit_fields(hit: Value) -> Seq<(Seq<char>, Value)> {
    seq![("id"@, hit->Array_0[0]), ("distance"@, hit->Array_0[1])]
}

/// The hits `hits` as the script sees them.
pub open spec fn hit_objects(hits: Seq<Value>) -> Seq<Value> {
    Seq::new(hits.len(), |j: int| Value::Object(hit_fields(hits[j])))
}

/// For each of `hits`, the key of its way back.
pub open spec fn index_keys(hits: Seq<Value>) -> Seq<Option<Seq<char>>> {
    Seq::new(hits.len(), |j: int| Some(index_key(hit_id(hits[j]))))
}

/// For each of `hits`, the key of its text, and then for each the key of its
/// tags and time.
pub open spec fn memory_keys(hits: Seq<Value>) -> Seq<Option<Seq<char>>> {
    Seq::new(
        2 * hits.len(),
        |j: int|
            if j < hits.len() {
                Some(content_key(hit_id(hits[j])))
            } else {
                Some(meta_key(hit_id(hits[j - hits.len()])))
            },
    )
}

/// The strings among `items`, each at its place, and nothing at the places of
/// the others.
pub open spec fn optional_texts(items: Seq<Value>) -> Seq<Option<Seq<char>>> {
    Seq::new(
        items.len(),
        |j: int|
            match items[j] {
                Value::String(s) => Some(s),
                _ => None,
            },
    )
}

/// The values found among the first `n` of `found`, each under its key.
pub open spec fn selected(keys: Seq<Value>, found: Seq<Value>, n: nat) -> Seq<(Seq<char>, Value)>
    decreases n,
{
    if n == 0 || n > keys.len() || n > found.len() {
        Seq::empty()
    } else {
        let before = selected(keys, found, (n - 1) as nat);
        if found[n - 1] is String && keys[n - 1] is String {
            before.push((keys[n - 1]->String_0, found[n - 1]))
        } else {
            before
        }
    }
}

/// The entry `entry` as the script sees it.
pub open spec fn entry_fields(entry: Value) -> Seq<(Seq<char>, Value)> {
    seq![("key"@, entry->Array_0[0]), ("value"@, entry->Array_0[1])]
}

/// Those of the first `n` of `entries` whose keys begin with `prefix`, up
/// to `limit` of them, as the script sees them.
pub open spec fn scanned(entries: Seq<Value>, prefix: Seq<char>, limit: nat, n: nat) -> Seq<Value>
    decreases n,
{
    if n == 0 || n > entries.len() {
        Seq::empty()
    } else {
        let before = scanned(entries, prefix, limit, (n - 1) as nat);
        if before.len() < limit && prefix.is_prefix_of(entries[n - 1]->Array_0[0]->String_0) {
            before.push(Value::Object(entry_fields(entries[n - 1])))
        } else {
            before
        }
    }
}

/// The hit `hit` with the text `content` found under `key`, where both were
/// found.
pub open spec fn joined_fields(hit: Value, key: Value, content: Value) -> Seq<(Seq<char>, Value)> {
    if key is String && content is String {
        hit_fields(hit).push(("content"@, content)).push(("key"@, key))
    } else {
        hit_fields(hit)
    }
}

/// The hits `hits`, each with its text and key where they were found.
pub open spec fn joined_hits(hits: Seq<Value>, keys: Seq<Value>, contents: Seq<Value>) -> Seq<
    Value,
> {
    Seq::new(hits.len(), |j: int| Value::Object(joined_fields(hits[j], keys[j], contents[j])))
}

/// The strings among the first `n` of `items`, in order.
pub open spec fn only_text(items: Seq<Value>, n: nat) -> Seq<Value>
    decreases n,
{
    if n == 0 || n > items.len() {
        Seq::empty()
    } else {
        let before = only_text(items, (n - 1) as nat);
        if items[n - 1] is String {
            before.push(items[n - 1])
        } else {
            before
        }
    }
}

/// The hit `hit` with the text `content` of the memory, where it was found,
/// and with the tags and the time that `meta` holds, where it holds them.
pub open spec fn recalled_fields(hit: Value, content: Value, meta: Value) -> Seq<
    (Seq<char>, Value),
> {
    let with_content = if content is String {
        hit_fields(hit).push(("content"@, content))
    } else {
        hit_fields(hit)
    };
    let with_tags = match member(meta, "tags"@) {
        Value::Array(tags) => with_content.push(
            ("tags"@, Value::Array(only_text(tags, tags.len()))),
        ),
        _ => with_content,
    };
    match member(meta, "created_at"@) {
        Value::Int(time) => if time >= 0 {
            with_tags.push(("created_at"@, Value::Int(time)))
        } else {
            with_tags
        },
        _ => with_tags,
    }
}

/// The hits `hits`, each with what was found of its memory.
pub open spec fn recalled(hits: Seq<Value>, contents: Seq<Value>, metas: Seq<Value>) -> Seq<Value> {
    Seq::new(hits.len(), |j: int| Value::Object(recalled_fields(hits[j], contents[j], metas[j])))
}

/// What the memory `id`, made at `seconds` with the tags `tags`, keeps of
/// itself besides its text.
pub open spec fn memory_meta(id: u64, tags: Seq<Value>, seconds: u64) -> Value {
    Value::Object(
        seq![
            ("id"@, id_value(id)),
            ("tags"@, Value::Array(tags)),
            ("created_at"@, id_value(seconds)),
        ],
    )
}

/// What the suspended call `s` does with the reply `reply` to its effect.
pub open spec fn advance(s: SuspendedView, reply: Value) -> StepView {
    let f = s.function;
    match s.stage {
        Stage::Finish => StepView::Return(s.result),
        Stage::ReturnText => if reply is String {
            StepView::Return(reply)
        } else {
            StepView::Raise(unexpected(f))
        },
        Stage::ReturnTextOrNull => if text_or_null(reply) {
            StepView::Return(reply)
        } else {
            StepView::Raise(unexpected(f))
        },
        Stage::ReturnAny => StepView::Return(reply),
        Stage::Seconds => match clock_of(reply) {
            Some(time) => StepView::Return(id_value(time.0)),
            None => StepView::Raise(unexpected(f)),
        },
        Stage::Selected => match reply {
            Value::Array(found) => if found.len() == s.values.len() && all_text_or_null(found) {
                StepView::Return(Value::Object(selected(s.values, found, found.len())))
            } else {
                StepView::Raise(unexpected(f))
            },
            _ => StepView::Raise(unexpected(f)),
        },
        Stage::Scanned => match reply {
            Value::Array(entries) => if all_entries(entries) {
                StepView::Return(
                    Value::Array(scanned(entries, s.text, s.limit as nat, entries.len())),
                )
            } else {
                StepView::Raise(unexpected(f))
            },
            _ => StepView::Raise(unexpected(f)),
        },
        Stage::Hits => match reply {
            Value::Array(hits) => if all_hits(hits) {
                StepView::Return(Value::Array(hit_objects(hits)))
            } else {
                StepView::Raise(unexpected(f))
            },
            _ => StepView::Raise(unexpected(f)),
        },
        Stage::DocEmbedded => match first_vector(reply) {
            Some(vector) => StepView::Perform(
                SuspendedView { stage: Stage::DocStored, values: vector, ..s },
                EffectView::KvPut { namespace: s.namespace, key: s.key, value: s.text },
            ),
            None => StepView::Raise(no_embedding(f)),
        },
        Stage::DocStored => StepView::Perform(
            SuspendedView { stage: Stage::DocIndexed, ..s },
            EffectView::VectorAdd { namespace: s.namespace, id: s.id, vector: s.values },
        ),
        Stage::DocIndexed => StepView::Perform(
            finishing(f, id_value(s.id)),
            EffectView::KvPut { namespace: s.namespace, key: index_key(s.id), value: s.key },
        ),
        Stage::QueryEmbedded => match first_vector(reply) {
            Some(vector) => StepView::Perform(
                SuspendedView { stage: Stage::QueryHits, ..s },
                EffectView::VectorSearch { namespace: s.namespace, vector, k: s.limit },
            ),
            None => StepView::Raise(no_embedding(f)),
        },
        Stage::QueryHits => match reply {
            Value::Array(hits) => if all_hits(hits) {
                StepView::Perform(
                    SuspendedView { stage: Stage::QueryKeys, values: hits, ..s },
                    EffectView::KvGetMany { namespace: s.namespace, keys: index_keys(hits) },
                )
            } else {
                StepView::Raise(unexpected(f))
            },
            _ => StepView::Raise(unexpected(f)),
        },
        Stage::QueryKeys => match reply {
            Value::Array(keys) => if keys.len() == s.values.len() && all_text_or_null(keys) {
                StepView::Perform(
                    SuspendedView { stage: Stage::QueryContents, extra: keys, ..s },
                    EffectView::KvGetMany { namespace: s.namespace, keys: optional_texts(keys) },
                )
            } else {
                StepView::Raise(unexpected(f))
            },
            _ => StepView::Raise(unexpected(f)),
        },
        Stage::QueryContents => match reply {
            Value::Array(contents) => if contents.len() == s.values.len() && s.extra.len()
                == s.values.len() && all_text_or_null(contents) && all_hits(s.values) {
                StepView::Return(Value::Array(joined_hits(s.values, s.extra, contents)))
            } else {
                StepView::Raise(unexpected(f))
            },
            _ => StepView::Raise(unexpected(f)),
        },
        Stage::JsonEncoded => match reply {
            Value::String(text) => StepView::Perform(
                finishing(f, Value::Null),
                EffectView::KvPut { namespace: s.namespace, key: s.key, value: text },
            ),
            _ => StepView::Raise(unexpected(f)),
        },
        Stage::JsonFetched => match reply {
            Value::String(text) => StepView::Perform(
                blank(Stage::ReturnAny, f),
                EffectView::JsonDecode { text },
            ),
            Value::Null => StepView::Return(Value::Null),
            _ => StepView::Raise(unexpected(f)),
        },
        Stage::MemoryClock => match clock_of(reply) {
            Some(time) => StepView::Perform(
                SuspendedView { stage: Stage::MemoryEmbedded, id: time.1, seconds: time.0, ..s },
                EffectView::Embed { texts: seq![s.text] },
            ),
            None => StepView::Raise(unexpected(f)),
        },
        Stage::MemoryEmbedded => match first_vector(reply) {
            Some(vector) => StepView::Perform(
                SuspendedView { stage: Stage::MemoryContent, extra: vector, ..s },
                EffectView::KvPut {
                    namespace: s.namespace,
                    key: content_key(s.id),
                    value: s.text,
                },
            ),
            None => StepView::Raise(no_embedding(f)),
        },
        Stage::MemoryContent => StepView::Perform(
            SuspendedView { stage: Stage::MemoryEncoded, ..s },
            EffectView::JsonEncode { value: memory_meta(s.id, s.values, s.seconds) },
        ),
        Stage::MemoryEncoded => match reply {
            Value::String(text) => StepView::Perform(
                SuspendedView { stage: Stage::MemoryMeta, ..s },
                EffectView::KvPut { namespace: s.namespace, key: meta_key(s.id), value: text },
            ),
            _ => StepView::Raise(unexpected(f)),
        },
        Stage::MemoryMeta => StepView::Perform(
            finishing(f, id_value(s.id)),
            EffectView::VectorAdd { namespace: s.namespace, id: s.id, vector: s.extra },
        ),
        Stage::RecallEmbedded => match first_vector(reply) {
            Some(vector) => StepView::Perform(
                SuspendedView { stage: Stage::RecallHits, ..s },
                EffectView::VectorSearch { namespace: s.namespace, vector, k: s.limit },
            ),
            None => StepView::Raise(no_embedding(f)),
        },
        Stage::RecallHits => match reply {
            Value::Array(hits) => if all_hits(hits) {
                StepView::Perform(
                    SuspendedView { stage: Stage::RecallFetched, values: hits, ..s },
                    EffectView::KvGetMany { namespace: s.namespace, keys: memory_keys(hits) },
                )
            } else {
                StepView::Raise(unexpected(f))
            },
            _ => StepView::Raise(unexpected(f)),
        },
        Stage::RecallFetched => match reply {
            Value::Array(found) => if found.len() == 2 * s.values.len() && all_text_or_null(
                found,
            ) {
                StepView::Perform(
                    SuspendedView {
                        stage: Stage::RecallDecoded,
                        extra: found.take(s.values.len() as int),
                        ..s
                    },
                    EffectView::JsonDecodeMany {
                        texts: optional_texts(found.skip(s.values.len() as int)),
                    },
                )
            } else {
                StepView::Raise(unexpected(f))
            },
            _ => StepView::Raise(unexpected(f)),
        },
        Stage::RecallDecoded => match reply {
            Value::Array(metas) => if metas.len() == s.values.len() && s.extra.len()
                == s.values.len() && all_hits(s.values) {
                StepView::Return(Value::Array(recalled(s.values, s.extra, metas)))
            } else {
                StepView::Raise(unexpected(f))
            },
            _ => StepView::Raise(unexpected(f)),
        },
    }
}

/// What the suspended call `s` does with what came of its effect. An effect
/// that failed ends the call with an error that says so; nothing that the
/// call did before is taken back.
pub open spec fn resume_spec(s: SuspendedView, event: EventView) -> StepView {
    match event {
        EventView::Failed(reason) => StepView::Raise(failure(s.function, reason)),
        EventView::Reply(reply) => advance(s, reply),
    }
}

/// The error of `function` for an effect that failed with `reason`.
fn fail(function: CatalogFunction, reason: &str) -> (out: RuntimeError)
    ensures
        out@ == failure(function, reason@),
{
    let mut text = String::from_str(function.name());
    text.append(": ");
    text.append(reason);
    RuntimeError::lua_error(text.as_str())
}

/// The items of `value` if it is an array.
fn items_of(value: &ScriptValue) -> (out: Option<&Vec<ScriptValue>>)
    ensures
        match out {
            Some(items) => value@ == Value::Array(value_views(items@)) && value_views(items@).len()
                == items@.len() && forall|e: int|
                0 <= e < items@.len() ==> #[trigger] value_views(items@)[e] == items@[e]@,
            None => !(value@ is Array),
        },
{
    match value {
        ScriptValue::Array(items) => {
            proof {
                lemma_array_view(*items);
                lemma_value_views(items@);
            }
            Some(items)
        },
        _ => None,
    }
}

/// Whether every one of `items` is a string or null.
fn are_text_or_null(items: &Vec<ScriptValue>) -> (out: bool)
    ensures
        out == all_text_or_null(value_views(items@)),
{
    proof {
        lemma_value_views(items@);
    }
    let ghost iv = value_views(items@);
    let mut j: usize = 0;
    while j < items.len()
        invariant
            j <= items.len(),
            iv == value_views(items@),
            iv.len() == items@.len(),
            forall|e: int| 0 <= e < items@.len() ==> #[trigger] iv[e] == items@[e]@,
            forall|e: int| 0 <= e < j ==> text_or_null(#[trigger] iv[e]),
        decreases items.len() - j,
    {
        match &items[j] {
            ScriptValue::String(_) => {},
            ScriptValue::Null => {},
            _ => {
                assert(!text_or_null(iv[j as int]));
                return false;
            },
        }
        j += 1;
    }
    true
}

/// The id of `hit` if it is a hit of a search.
fn hit_id_of(hit: &ScriptValue) -> (out: Option<u64>)
    ensures
        out is Some <==> is_hit(hit@),
        out matches Some(id) ==> id == hit_id(hit@),
{
    match items_of(hit) {
        Some(items) => {
            if items.len() != 2 {
                return None;
            }
            let id = match &items[0] {
                ScriptValue::Int(id) => {
                    if *id < 0 {
                        return None;
                    }
                    *id as u64
                },
                _ => {
                    return None;
                },
            };
            match &items[1] {
                ScriptValue::Int(_) => Some(id),
                ScriptValue::Float(_) => Some(id),
                _ => None,
            }
        },
        None => None,
    }
}

/// Whether every one of `items` is a hit.
fn are_hits(items: &Vec<ScriptValue>) -> (out: bool)
    ensures
        out == all_hits(value_views(items@)),
{
    proof {
        lemma_value_views(items@);
    }
    let ghost iv = value_views(items@);
    let mut j: usize = 0;
    while j < items.len()
        invariant
            j <= items.len(),
            iv == value_views(items@),
            iv.len() == items@.len(),
            forall|e: int| 0 <= e < items@.len() ==> #[trigger] iv[e] == items@[e]@,
            forall|e: int| 0 <= e < j ==> is_hit(#[trigger] iv[e]),
        decreases items.len() - j,
    {
        if hit_id_of(&items[j]).is_none() {
            assert(!is_hit(iv[j as int]));
            return false;
        }
        j += 1;
    }
    true
}

/// The key of `entry` if it is an entry of a store.
fn entry_key_of(entry: &ScriptValue) -> (out: Option<&String>)
    ensures
        out is Some <==> is_entry(entry@),
        out matches Some(key) ==> key@ == entry@->Array_0[0]->String_0,
{
    match items_of(entry) {
        Some(items) => {
            if items.len() != 2 {
                return None;
            }
            match &items[1] {
                ScriptValue::String(_) => {},
                _ => {
                    return None;
                },
            }
            match &items[0] {
                ScriptValue::String(key) => Some(key),
                _ => None,
            }
        },
        None => None,
    }
}

/// Whether every one of `items` is an entry.
fn are_entries(items: &Vec<ScriptValue>) -> (out: bool)
    ensures
        out == all_entries(value_views(items@)),
{
    proof {
        lemma_value_views(items@);
    }
    let ghost iv = value_views(items@);
    let mut j: usize = 0;
    while j < items.len()
        invariant
            j <= items.len(),
            iv == value_views(items@),
            iv.len() == items@.len(),
            forall|e: int| 0 <= e < items@.len() ==> #[trigger] iv[e] == items@[e]@,
            forall|e: int| 0 <= e < j ==> is_entry(#[trigger] iv[e]),
        decreases items.len() - j,
    {
        if entry_key_of(&items[j]).is_none() {
            assert(!is_entry(iv[j as int]));
            return false;
        }
        j += 1;
    }
    true
}

/// The first of the vectors of the reply to an embedding, if the reply has
/// one.
fn take_first_vector(reply: &ScriptValue) -> (out: Option<Vec<ScriptValue>>)
    ensures
        match first_vector(reply@) {
            Some(vector) => out matches Some(v) && value_views(v@) == vector,
            None => out is None,
        },
{
    match items_of(reply) {
        Some(vectors) => {
            if vectors.len() < 1 {
                return None;
            }
            match items_of(&vectors[0]) {
                Some(components) => {
                    if are_numbers(components) {
                        Some(duplicate_values(components))
                    } else {
                        None
                    }
                },
                None => None,
            }
        },
        None => None,
    }
}

/// The seconds and nanoseconds of the clock's reply, if it is one.
fn read_clock(reply: &ScriptValue) -> (out: Option<(u64, u64)>)
    ensures
        out == clock_of(reply@),
{
    match items_of(reply) {
        Some(items) => {
            if items.len() != 2 {
                return None;
            }
            match (&items[0], &items[1]) {
                (ScriptValue::Int(seconds), ScriptValue::Int(nanos)) => {
                    if *seconds >= 0 && *nanos >= 0 {
                        Some((*seconds as u64, *nanos as u64))
                    } else {
                        None
                    }
                },
                _ => None,
            }
        },
        None => None,
    }
}

/// The id `id` as the script sees it.
fn id_to_value(id: u64) -> (out: ScriptValue)
    ensures
        out@ == id_value(id),
{
    if id <= 0x7fff_ffff_ffff_ffffu64 {
        ScriptValue::Int(id as i64)
    } else {
        ScriptValue::Int(i64::MAX)
    }
}

/// `before`, then the numeral of `id`, then `after`.
fn keyed(before: &str, id: u64, after: &str) -> (out: String)
    ensures
        out@ == before@ + decimal(id as nat) + after@,
{
    let mut out = String::from_str(before);
    out.append(decimal_string(id).as_str());
    out.append(after);
    out
}

/// The key of the way from the vector `id` back to the key of its text.
pub fn make_index_key(id: u64) -> (out: String)
    ensures
        out@ == index_key(id),
{
    let out = keyed("_vidx:", id, "");
    proof {
        reveal_strlit("");
        assert(out@ =~= index_key(id));
    }
    out
}

/// The key of the text of the memory `id`.
pub fn make_content_key(id: u64) -> (out: String)
    ensures
        out@ == content_key(id),
{
    keyed("mem:", id, ":content")
}

/// The key of the tags and the time of the memory `id`.
pub fn make_meta_key(id: u64) -> (out: String)
    ensures
        out@ == meta_key(id),
{
    keyed("mem:", id, ":meta")
}

/// The hit `hit` as the script sees it.
fn hit_object(hit: &ScriptValue) -> (out: Vec<(String, ScriptValue)>)
    requires
        is_hit(hit@),
    ensures
        field_views(out@) == hit_fields(hit@),
{
    let mut out: Vec<(String, ScriptValue)> = Vec::new();
    match items_of(hit) {
        Some(items) => {
            let first = (String::from_str("id"), items[0].duplicate());
            let second = (String::from_str("distance"), items[1].duplicate());
            proof {
                lemma_field_views_push(out@, first);
                lemma_field_views_push(out@.push(first), second);
                assert(field_views(out@) =~= Seq::empty());
            }
            out.push(first);
            out.push(second);
            assert(field_views(out@) =~= hit_fields(hit@));
        },
        None => {},
    }
    out
}

/// `fields` and one more field, `name` with the value `value`.
fn with_field(fields: Vec<(String, ScriptValue)>, name: &str, value: ScriptValue) -> (out: Vec<
    (String, ScriptValue),
>)
    ensures
        field_views(out@) == field_views(fields@).push((name@, value@)),
{
    let mut out = fields;
    let field = (String::from_str(name), value);
    proof {
        lemma_field_views_push(out@, field);
    }
    out.push(field);
    out
}

/// The object with the fields `fields`.
fn object(fields: Vec<(String, ScriptValue)>) -> (out: ScriptValue)
    ensures
        out@ == Value::Object(field_views(fields@)),
{
    proof {
        lemma_object_view(fields);
    }
    ScriptValue::Object(fields)
}

/// The array with the items `items`.
fn array(items: Vec<ScriptValue>) -> (out: ScriptValue)
    ensures
        out@ == Value::Array(value_views(items@)),
{
    proof {
        lemma_array_view(items);
    }
    ScriptValue::Array(items)
}

/// The hits `hits` as the script sees them.
fn make_hit_objects(hits: &Vec<ScriptValue>) -> (out: Vec<ScriptValue>)
    requires
        all_hits(value_views(hits@)),
    ensures
        value_views(out@) == hit_objects(value_views(hits@)),
{
    proof {
        lemma_value_views(hits@);
    }
    let ghost hv = value_views(hits@);
    let mut out: Vec<ScriptValue> = Vec::new();
    let mut j: usize = 0;
    while j < hits.len()
        invariant
            j <= hits.len(),
            hv == value_views(hits@),
            hv.len() == hits@.len(),
            all_hits(hv),
            forall|e: int| 0 <= e < hits@.len() ==> #[trigger] hv[e] == hits@[e]@,
            out@.len() == j,
            forall|e: int| 0 <= e < j ==> (#[trigger] out@[e])@ == Value::Object(hit_fields(hv[e])),
        decreases hits.len() - j,
    {
        assert(is_hit(hv[j as int]));
        out.push(object(hit_object(&hits[j])));
        j += 1;
    }
    proof {
        lemma_value_views(out@);
        assert(value_views(out@) =~= hit_objects(hv));
    }
    out
}

/// The kinds of key that a namespace keeps for an id.
#[derive(Debug, Clone, Copy, PartialEq, Eq, Structural)]
pub enum KeyKind {
    /// The way from a vector back to the key of its text.
    Index,
    /// The text of a memory.
    Content,
    /// The tags and the time of a memory.
    Meta,
}

/// The key of kind `kind` for the id `id`.
pub open spec fn key_of_kind(kind: KeyKind, id: u64) -> Seq<char> {
    match kind {
        KeyKind::Index => index_key(id),
        KeyKind::Content => content_key(id),
        KeyKind::Meta => meta_key(id),
    }
}

/// Adds to `out`, for each of `hits`, the key of kind `kind` for its id.
fn keys_by_id(hits: &Vec<ScriptValue>, kind: KeyKind, out: &mut Vec<Option<String>>)
    requires
        all_hits(value_views(hits@)),
    ensures
        final(out)@.len() == old(out)@.len() + hits@.len(),
        forall|i: int| 0 <= i < old(out)@.len() ==> final(out)@[i] == old(out)@[i],
        forall|i: int|
            old(out)@.len() <= i < final(out)@.len() ==> ((#[trigger] final(out)@[i]) matches Some(
                key,
            ) && key@ == key_of_kind(kind, hit_id(value_views(hits@)[i - old(out)@.len()]))),
{
    proof {
        lemma_value_views(hits@);
    }
    let ghost hv = value_views(hits@);
    let ghost base = out@.len();
    let mut j: usize = 0;
    while j < hits.len()
        invariant
            j <= hits.len(),
            hv == value_views(hits@),
            hv.len() == hits@.len(),
            all_hits(hv),
            base == old(out)@.len(),
            forall|e: int| 0 <= e < hits@.len() ==> #[trigger] hv[e] == hits@[e]@,
            out@.len() == base + j,
            forall|i: int| 0 <= i < base ==> out@[i] == old(out)@[i],
            forall|i: int|
                base <= i < base + j ==> ((#[trigger] out@[i]) matches Some(key) && key@
                    == key_of_kind(kind, hit_id(hv[i - base]))),
        decreases hits.len() - j,
    {
        assert(is_hit(hv[j as int]));
        let id = match hit_id_of(&hits[j]) {
            Some(id) => id,
            None => 0,
        };
        let key = match kind {
            KeyKind::Index => make_index_key(id),
            KeyKind::Content => make_content_key(id),
            KeyKind::Meta => make_meta_key(id),
        };
        out.push(Some(key));
        j += 1;
    }
}

/// The strings among `items`, each at its place, and nothing at the places of
/// the others.
fn make_optional_texts(items: &Vec<ScriptValue>, from: usize) -> (out: Vec<Option<String>>)
    requires
        from <= items@.len(),
    ensures
        option_views(out@) == optional_texts(value_views(items@).skip(from as int)),
{
    proof {
        lemma_value_views(items@);
    }
    let ghost iv = value_views(items@);
    let mut out: Vec<Option<String>> = Vec::new();
    let mut j: usize = from;
    while j < items.len()
        invariant
            from <= j <= items.len(),
            iv == value_views(items@),
            iv.len() == items@.len(),
            forall|e: int| 0 <= e < items@.len() ==> #[trigger] iv[e] == items@[e]@,
            out@.len() == j - from,
            forall|e: int|
                0 <= e < j - from ==> (match #[trigger] out@[e] {
                    Some(s) => iv[from + e] == Value::String(s@),
                    None => !(iv[from + e] is String),
                }),
        decreases items.len() - j,
    {
        match &items[j] {
            ScriptValue::String(s) => {
                out.push(Some(s.clone()));
            },
            _ => {
                out.push(None);
            },
        }
        j += 1;
    }
    assert(option_views(out@) =~= optional_texts(iv.skip(from as int)));
    out
}

/// The values found, each under its key.
fn make_selected(keys: &Vec<ScriptValue>, found: &Vec<ScriptValue>) -> (out: Vec<
    (String, ScriptValue),
>)
    requires
        keys@.len() == found@.len(),
    ensures
        field_views(out@) == selected(value_views(keys@), value_views(found@), found@.len()),
{
    proof {
        lemma_value_views(keys@);
        lemma_value_views(found@);
    }
    let ghost kv = value_views(keys@);
    let ghost fv = value_views(found@);
    let mut out: Vec<(String, ScriptValue)> = Vec::new();
    let mut j: usize = 0;
    assert(field_views(out@) =~= selected(kv, fv, 0));
    while j < found.len()
        invariant
            j <= found.len(),
            keys@.len() == found@.len(),
            kv == value_views(keys@),
            fv == value_views(found@),
            kv.len() == keys@.len(),
            fv.len() == found@.len(),
            forall|e: int| 0 <= e < keys@.len() ==> #[trigger] kv[e] == keys@[e]@,
            forall|e: int| 0 <= e < found@.len() ==> #[trigger] fv[e] == found@[e]@,
            field_views(out@) == selected(kv, fv, j as nat),
        decreases found.len() - j,
    {
        match (&keys[j], &found[j]) {
            (ScriptValue::String(key), ScriptValue::String(value)) => {
                let field = (key.clone(), ScriptValue::String(value.clone()));
                proof {
                    lemma_field_views_push(out@, field);
                }
                out.push(field);
            },
            _ => {},
        }
        j += 1;
    }
    out
}

/// The entry `entry` as the script sees it.
fn entry_object(entry: &ScriptValue) -> (out: ScriptValue)
    requires
        is_entry(entry@),
    ensures
        out@ == Value::Object(entry_fields(entry@)),
{
    let mut fields: Vec<(String, ScriptValue)> = Vec::new();
    assert(field_views(fields@) =~= Seq::empty());
    match items_of(entry) {
        Some(items) => {
            let fields = with_field(fields, "key", items[0].duplicate());
            let fields = with_field(fields, "value", items[1].duplicate());
            assert(field_views(fields@) =~= entry_fields(entry@));
            object(fields)
        },
        None => object(fields),
    }
}

/// Those of `entries` whose keys begin with `prefix`, up to `limit` of them,
/// as the script sees them.
fn make_scanned(entries: &Vec<ScriptValue>, prefix: &str, limit: usize) -> (out: Vec<ScriptValue>)
    requires
        all_entries(value_views(entries@)),
    ensures
        value_views(out@) == scanned(value_views(entries@), prefix@, limit as nat, entries@.len()),
{
    proof {
        lemma_value_views(entries@);
    }
    let ghost ev = value_views(entries@);
    let mut out: Vec<ScriptValue> = Vec::new();
    let mut j: usize = 0;
    assert(value_views(out@) =~= scanned(ev, prefix@, limit as nat, 0));
    while j < entries.len()
        invariant
            j <= entries.len(),
            ev == value_views(entries@),
            ev.len() == entries@.len(),
            all_entries(ev),
            forall|e: int| 0 <= e < entries@.len() ==> #[trigger] ev[e] == entries@[e]@,
            value_views(out@) == scanned(ev, prefix@, limit as nat, j as nat),
        decreases entries.len() - j,
    {
        assert(is_entry(ev[j as int]));
        proof {
            lemma_value_views(out@);
        }
        if out.len() < limit {
            let begins = match entry_key_of(&entries[j]) {
                Some(key) => starts_with(key.as_str(), prefix),
                None => false,
            };
            if begins {
                let item = entry_object(&entries[j]);
                proof {
                    lemma_value_views_push(out@, item);
                }
                out.push(item);
            }
        }
        j += 1;
    }
    out
}

/// The hits `hits`, each with its text and key where they were found.
fn make_joined_hits(
    hits: &Vec<ScriptValue>,
    keys: &Vec<ScriptValue>,
    contents: &Vec<ScriptValue>,
) -> (out: Vec<ScriptValue>)
    requires
        all_hits(value_views(hits@)),
        keys@.len() == hits@.len(),
        contents@.len() == hits@.len(),
    ensures
        value_views(out@) == joined_hits(
            value_views(hits@),
            value_views(keys@),
            value_views(contents@),
        ),
{
    proof {
        lemma_value_views(hits@);
        lemma_value_views(keys@);
        lemma_value_views(contents@);
    }
    let ghost hv = value_views(hits@);
    let ghost kv = value_views(keys@);
    let ghost cv = value_views(contents@);
    let mut out: Vec<ScriptValue> = Vec::new();
    let mut j: usize = 0;
    while j < hits.len()
        invariant
            j <= hits.len(),
            keys@.len() == hits@.len(),
            contents@.len() == hits@.len(),
            hv == value_views(hits@),
            kv == value_views(keys@),
            cv == value_views(contents@),
            hv.len() == hits@.len(),
            kv.len() == hits@.len(),
            cv.len() == hits@.len(),
            all_hits(hv),
            forall|e: int| 0 <= e < hits@.len() ==> #[trigger] hv[e] == hits@[e]@,
            forall|e: int| 0 <= e < hits@.len() ==> #[trigger] kv[e] == keys@[e]@,
            forall|e: int| 0 <= e < hits@.len() ==> #[trigger] cv[e] == contents@[e]@,
            out@.len() == j,
            forall|e: int|
                0 <= e < j ==> (#[trigger] out@[e])@ == Value::Object(
                    joined_fields(hv[e], kv[e], cv[e]),
                ),
        decreases hits.len() - j,
    {
        assert(is_hit(hv[j as int]));
        let fields = hit_object(&hits[j]);
        let fields = match (&keys[j], &contents[j]) {
            (ScriptValue::String(key), ScriptValue::String(content)) => {
                let fields = with_field(fields, "content", ScriptValue::String(content.clone()));
                with_field(fields, "key", ScriptValue::String(key.clone()))
            },
            _ => fields,
        };
        out.push(object(fields));
        j += 1;
    }
    proof {
        lemma_value_views(out@);
        assert(value_views(out@) =~= joined_hits(hv, kv, cv));
    }
    out
}

/// The strings among `items`, in order.
fn make_only_text(items: &Vec<ScriptValue>) -> (out: Vec<ScriptValue>)
    ensures
        value_views(out@) == only_text(value_views(items@), items@.len()),
{
    proof {
        lemma_value_views(items@);
    }
    let ghost iv = value_views(items@);
    let mut out: Vec<ScriptValue> = Vec::new();
    let mut j: usize = 0;
    assert(value_views(out@) =~= only_text(iv, 0));
    while j < items.len()
        invariant
            j <= items.len(),
            iv == value_views(items@),
            iv.len() == items@.len(),
            forall|e: int| 0 <= e < items@.len() ==> #[trigger] iv[e] == items@[e]@,
            value_views(out@) == only_text(iv, j as nat),
        decreases items.len() - j,
    {
        match &items[j] {
            ScriptValue::String(s) => {
                let item = ScriptValue::String(s.clone());
                proof {
                    lemma_value_views_push(out@, item);
                }
                out.push(item);
            },
            _ => {},
        }
        j += 1;
    }
    out
}

/// The hit `hit` with the text `content` of the memory, where it was found,
/// and with the tags and the time that `meta` holds, where it holds them.
fn make_recalled_fields(hit: &ScriptValue, content: &ScriptValue, meta: &ScriptValue) -> (out: Vec<
    (String, ScriptValue),
>)
    requires
        is_hit(hit@),
    ensures
        field_views(out@) == recalled_fields(hit@, content@, meta@),
{
    let fields = hit_object(hit);
    let fields = match content {
        ScriptValue::String(text) => with_field(
            fields,
            "content",
            ScriptValue::String(text.clone()),
        ),
        _ => fields,
    };
    let fields = match member_of(meta, "tags") {
        Some(ScriptValue::Array(tags)) => {
            proof {
                lemma_array_view(*tags);
                lemma_value_views(tags@);
            }
            with_field(fields, "tags", array(make_only_text(tags)))
        },
        _ => fields,
    };
    match member_of(meta, "created_at") {
        Some(ScriptValue::Int(time)) => {
            if *time >= 0 {
                with_field(fields, "created_at", ScriptValue::Int(*time))
            } else {
                fields
            }
        },
        _ => fields,
    }
}

/// The hits `hits`, each with what was found of its memory.
fn make_recalled(hits: &Vec<ScriptValue>, contents: &Vec<ScriptValue>, metas: &Vec<ScriptValue>) -> (out:
    Vec<ScriptValue>)
    requires
        all_hits(value_views(hits@)),
        contents@.len() == hits@.len(),
        metas@.len() == hits@.len(),
    ensures
        value_views(out@) == recalled(
            value_views(hits@),
            value_views(contents@),
            value_views(metas@),
        ),
{
    proof {
        lemma_value_views(hits@);
        lemma_value_views(contents@);
        lemma_value_views(metas@);
    }
    let ghost hv = value_views(hits@);
    let ghost cv = value_views(contents@);
    let ghost mv = value_views(metas@);
    let mut out: Vec<ScriptValue> = Vec::new();
    let mut j: usize = 0;
    while j < hits.len()
        invariant
            j <= hits.len(),
            contents@.len() == hits@.len(),
            metas@.len() == hits@.len(),
            hv == value_views(hits@),
            cv == value_views(contents@),
            mv == value_views(metas@),
            hv.len() == hits@.len(),
            cv.len() == hits@.len(),
            mv.len() == hits@.len(),
            all_hits(hv),
            forall|e: int| 0 <= e < hits@.len() ==> #[trigger] hv[e] == hits@[e]@,
            forall|e: int| 0 <= e < hits@.len() ==> #[trigger] cv[e] == contents@[e]@,
            forall|e: int| 0 <= e < hits@.len() ==> #[trigger] mv[e] == metas@[e]@,
            out@.len() == j,
            forall|e: int|
                0 <= e < j ==> (#[trigger] out@[e])@ == Value::Object(
                    recalled_fields(hv[e], cv[e], mv[e]),
                ),
        decreases hits.len() - j,
    {
        assert(is_hit(hv[j as int]));
        out.push(object(make_recalled_fields(&hits[j], &contents[j], &metas[j])));
        j += 1;
    }
    proof {
        lemma_value_views(out@);
        assert(value_views(out@) =~= recalled(hv, cv, mv));
    }
    out
}

/// The first `n` of `items`.
fn first_of(items: &Vec<ScriptValue>, n: usize) -> (out: Vec<ScriptValue>)
    requires
        n <= items@.len(),
    ensures
        value_views(out@) == value_views(items@).take(n as int),
{
    proof {
        lemma_value_views(items@);
    }
    let mut out: Vec<ScriptValue> = Vec::new();
    let mut j: usize = 0;
    while j < n
        invariant
            j <= n <= items@.len(),
            out@.len() == j,
            forall|e: int| 0 <= e < j ==> (#[trigger] out@[e])@ == items@[e]@,
        decreases n - j,
    {
        out.push(items[j].duplicate());
        j += 1;
    }
    proof {
        lemma_value_views(out@);
        assert(value_views(out@) =~= value_views(items@).take(n as int));
    }
    out
}

/// What the memory `id`, made at `seconds` with the tags `tags`, keeps of
/// itself besides its text.
fn make_memory_meta(id: u64, tags: &Vec<ScriptValue>, seconds: u64) -> (out: ScriptValue)
    ensures
        out@ == memory_meta(id, value_views(tags@), seconds),
{
    let fields: Vec<(String, ScriptValue)> = Vec::new();
    assert(field_views(fields@) =~= Seq::empty());
    let fields = with_field(fields, "id", id_to_value(id));
    let fields = with_field(fields, "tags", array(duplicate_values(tags)));
    let fields = with_field(fields, "created_at", id_to_value(seconds));
    assert(field_views(fields@) =~= seq![
        ("id"@, id_value(id)),
        ("tags"@, Value::Array(value_views(tags@))),
        ("created_at"@, id_value(seconds)),
    ]);
    object(fields)
}

/// The call `suspended` moved on to `stage`.
fn staged(suspended: Suspended, stage: Stage) -> (out: Suspended)
    ensures
        out@ == (SuspendedView { stage, ..suspended@ }),
{
    let mut out = suspended;
    out.stage = stage;
    out
}

/// The call `suspended` that waits for the hits of a search: what it does
/// with them at the stage `next`, where `kind` tells which keys to read.
fn after_hits(suspended: Suspended, reply: ScriptValue, next: Stage) -> (out: Step)
    requires
        next == Stage::QueryKeys || next == Stage::RecallFetched,
    ensures
        out@ == match reply@ {
            Value::Array(hits) => if all_hits(hits) {
                StepView::Perform(
                    SuspendedView { stage: next, values: hits, ..suspended@ },
                    EffectView::KvGetMany {
                        namespace: suspended@.namespace,
                        keys: if next == Stage::QueryKeys {
                            index_keys(hits)
                        } else {
                            memory_keys(hits)
                        },
                    },
                )
            } else {
                StepView::Raise(unexpected(suspended@.function))
            },
            _ => StepView::Raise(unexpected(suspended@.function)),
        },
{
    let function = suspended.function;
    let hits = match reply {
        ScriptValue::Array(hits) => {
            proof {
                lemma_array_view(hits);
            }
            hits
        },
        _ => {
            return Step::Raise(fail(function, "unexpected reply"));
        },
    };
    if !are_hits(&hits) {
        return Step::Raise(fail(function, "unexpected reply"));
    }
    let mut keys: Vec<Option<String>> = Vec::new();
    let ghost hv = value_views(hits@);
    proof {
        lemma_value_views(hits@);
    }
    match next {
        Stage::QueryKeys => {
            keys_by_id(&hits, KeyKind::Index, &mut keys);
            assert forall|i: int| 0 <= i < keys@.len() implies #[trigger] option_views(keys@)[i]
                == index_keys(hv)[i] by {
                assert(keys@[i] is Some);
            }
            assert(option_views(keys@) =~= index_keys(hv));
        },
        _ => {
            keys_by_id(&hits, KeyKind::Content, &mut keys);
            let ghost half = keys@;
            keys_by_id(&hits, KeyKind::Meta, &mut keys);
            assert forall|i: int| 0 <= i < keys@.len() implies #[trigger] option_views(keys@)[i]
                == memory_keys(hv)[i] by {
                if i < hits@.len() {
                    assert(keys@[i] == half[i]);
                    assert(half[i] is Some);
                } else {
                    assert(keys@[i] is Some);
                }
            }
            assert(option_views(keys@) =~= memory_keys(hv));
        },
    }
    let namespace = suspended.namespace.clone();
    let mut moved = staged(suspended, next);
    moved.values = hits;
    Step::Perform(moved, Effect::KvGetMany { namespace, keys })
}

/// The call `suspended` that waits for an embedding: what it does with the
/// vector, which is to search with it.
fn search_with(suspended: Suspended, reply: ScriptValue, next: Stage) -> (out: Step)
    ensures
        out@ == match first_vector(reply@) {
            Some(vector) => StepView::Perform(
                SuspendedView { stage: next, ..suspended@ },
                EffectView::VectorSearch {
                    namespace: suspended@.namespace,
                    vector,
                    k: suspended@.limit,
                },
            ),
            None => StepView::Raise(no_embedding(suspended@.function)),
        },
{
    match take_first_vector(&reply) {
        Some(vector) => {
            let namespace = suspended.namespace.clone();
            let k = suspended.limit;
            Step::Perform(staged(suspended, next), Effect::VectorSearch { namespace, vector, k })
        },
        None => Step::Raise(fail(suspended.function, "Failed to generate embedding")),
    }
}

/// What the suspended call does with the reply to its effect, for
/// a call that returns what it holds or what came.
fn advance_simple(suspended: Suspended, reply: ScriptValue) -> (out: Step)
    requires
        suspended.stage == Stage::Finish || suspended.stage == Stage::ReturnText || suspended.stage == Stage::ReturnTextOrNull || suspended.stage == Stage::ReturnAny || suspended.stage == Stage::Seconds,
    ensures
        out@ == advance(suspended@, reply@),
{
    let function = suspended.function;
    match suspended.stage {
        Stage::Finish => Step::Return(suspended.result),
        Stage::ReturnText => match reply {
            ScriptValue::String(_) => Step::Return(reply),
            _ => Step::Raise(fail(function, "unexpected reply")),
        },
        Stage::ReturnTextOrNull => match reply {
            ScriptValue::String(_) => Step::Return(reply),
            ScriptValue::Null => Step::Return(reply),
            _ => Step::Raise(fail(function, "unexpected reply")),
        },
        Stage::ReturnAny => Step::Return(reply),
        Stage::Seconds => match read_clock(&reply) {
            Some(time) => Step::Return(id_to_value(time.0)),
            None => Step::Raise(fail(function, "unexpected reply")),
        },
        _ => Step::Return(reply),
    }
}

/// What the suspended call does with the reply to its effect, for
/// a call that returns a list made of what came.
fn advance_lists(suspended: Suspended, reply: ScriptValue) -> (out: Step)
    requires
        suspended.stage == Stage::Selected || suspended.stage == Stage::Scanned || suspended.stage == Stage::Hits,
    ensures
        out@ == advance(suspended@, reply@),
{
    let function = suspended.function;
    match suspended.stage {
        Stage::Selected => match items_of(&reply) {
            Some(found) => {
                proof {
                    lemma_value_views(suspended.values@);
                }
                if found.len() == suspended.values.len() && are_text_or_null(found) {
                    Step::Return(object(make_selected(&suspended.values, found)))
                } else {
                    Step::Raise(fail(function, "unexpected reply"))
                }
            },
            None => Step::Raise(fail(function, "unexpected reply")),
        },
        Stage::Scanned => match items_of(&reply) {
            Some(entries) => {
                if are_entries(entries) {
                    Step::Return(
                        array(make_scanned(entries, suspended.text.as_str(), suspended.limit)),
                    )
                } else {
                    Step::Raise(fail(function, "unexpected reply"))
                }
            },
            None => Step::Raise(fail(function, "unexpected reply")),
        },
        Stage::Hits => match items_of(&reply) {
            Some(hits) => {
                if are_hits(hits) {
                    Step::Return(array(make_hit_objects(hits)))
                } else {
                    Step::Raise(fail(function, "unexpected reply"))
                }
            },
            None => Step::Raise(fail(function, "unexpected reply")),
        },
        _ => Step::Return(reply),
    }
}

/// What the suspended call does with the reply to its effect, for
/// a call that stores a document.
fn advance_document(suspended: Suspended, reply: ScriptValue) -> (out: Step)
    requires
        suspended.stage == Stage::DocEmbedded || suspended.stage == Stage::DocStored || suspended.stage == Stage::DocIndexed,
    ensures
        out@ == advance(suspended@, reply@),
{
    let function = suspended.function;
    match suspended.stage {
        Stage::DocEmbedded => match take_first_vector(&reply) {
            Some(vector) => {
                let effect = Effect::KvPut {
                    namespace: suspended.namespace.clone(),
                    key: suspended.key.clone(),
                    value: suspended.text.clone(),
                };
                let mut moved = staged(suspended, Stage::DocStored);
                moved.values = vector;
                Step::Perform(moved, effect)
            },
            None => Step::Raise(fail(function, "Failed to generate embedding")),
        },
        Stage::DocStored => {
            let effect = Effect::VectorAdd {
                namespace: suspended.namespace.clone(),
                id: suspended.id,
                vector: duplicate_values(&suspended.values),
            };
            Step::Perform(staged(suspended, Stage::DocIndexed), effect)
        },
        Stage::DocIndexed => {
            let mut last = Suspended::new(Stage::Finish, function);
            last.result = id_to_value(suspended.id);
            Step::Perform(
                last,
                Effect::KvPut {
                    namespace: suspended.namespace,
                    key: make_index_key(suspended.id),
                    value: suspended.key,
                },
            )
        },
        _ => Step::Return(reply),
    }
}

/// What the suspended call does with the reply to its effect, for
/// a call that searches by meaning.
fn advance_query(suspended: Suspended, reply: ScriptValue) -> (out: Step)
    requires
        suspended.stage == Stage::QueryEmbedded || suspended.stage == Stage::QueryHits || suspended.stage == Stage::QueryKeys || suspended.stage == Stage::QueryContents,
    ensures
        out@ == advance(suspended@, reply@),
{
    let function = suspended.function;
    match suspended.stage {
        Stage::QueryEmbedded => search_with(suspended, reply, Stage::QueryHits),
        Stage::QueryHits => after_hits(suspended, reply, Stage::QueryKeys),
        Stage::QueryKeys => match reply {
            ScriptValue::Array(keys) => {
                proof {
                    lemma_array_view(keys);
                    lemma_value_views(keys@);
                    lemma_value_views(suspended.values@);
                }
                if keys.len() == suspended.values.len() && are_text_or_null(&keys) {
                    let wanted = make_optional_texts(&keys, 0);
                    assert(value_views(keys@).skip(0) =~= value_views(keys@));
                    let namespace = suspended.namespace.clone();
                    let mut moved = staged(suspended, Stage::QueryContents);
                    moved.extra = keys;
                    Step::Perform(moved, Effect::KvGetMany { namespace, keys: wanted })
                } else {
                    Step::Raise(fail(function, "unexpected reply"))
                }
            },
            _ => Step::Raise(fail(function, "unexpected reply")),
        },
        Stage::QueryContents => match items_of(&reply) {
            Some(contents) => {
                proof {
                    lemma_value_views(suspended.values@);
                    lemma_value_views(suspended.extra@);
                }
                if contents.len() == suspended.values.len() && suspended.extra.len()
                    == suspended.values.len() && are_text_or_null(contents) && are_hits(
                    &suspended.values,
                ) {
                    Step::Return(
                        array(make_joined_hits(&suspended.values, &suspended.extra, contents)),
                    )
                } else {
                    Step::Raise(fail(function, "unexpected reply"))
                }
            },
            None => Step::Raise(fail(function, "unexpected reply")),
        },
        _ => Step::Return(reply),
    }
}

/// What the suspended call does with the reply to its effect, for
/// a call that stores or reads a value as JSON.
fn advance_json(suspended: Suspended, reply: ScriptValue) -> (out: Step)
    requires
        suspended.stage == Stage::JsonEncoded || suspended.stage == Stage::JsonFetched,
    ensures
        out@ == advance(suspended@, reply@),
{
    let function = suspended.function;
    match suspended.stage {
        Stage::JsonEncoded => match reply {
            ScriptValue::String(text) => {
                let mut last = Suspended::new(Stage::Finish, function);
                last.result = ScriptValue::Null;
                Step::Perform(
                    last,
                    Effect::KvPut {
                        namespace: suspended.namespace,
                        key: suspended.key,
                        value: text,
                    },
                )
            },
            _ => Step::Raise(fail(function, "unexpected reply")),
        },
        Stage::JsonFetched => match reply {
            ScriptValue::String(text) => Step::Perform(
                Suspended::new(Stage::ReturnAny, function),
                Effect::JsonDecode { text },
            ),
            ScriptValue::Null => Step::Return(ScriptValue::Null),
            _ => Step::Raise(fail(function, "unexpected reply")),
        },
        _ => Step::Return(reply),
    }
}

/// What the suspended call does with the reply to its effect, for
/// a call that stores a memory.
fn advance_memory(suspended: Suspended, reply: ScriptValue) -> (out: Step)
    requires
        suspended.stage == Stage::MemoryClock || suspended.stage == Stage::MemoryEmbedded || suspended.stage == Stage::MemoryContent || suspended.stage == Stage::MemoryEncoded || suspended.stage == Stage::MemoryMeta,
    ensures
        out@ == advance(suspended@, reply@),
{
    let function = suspended.function;
    match suspended.stage {
        Stage::MemoryClock => match read_clock(&reply) {
            Some(time) => {
                let texts = single(suspended.text.clone());
                let mut moved = staged(suspended, Stage::MemoryEmbedded);
                moved.id = time.1;
                moved.seconds = time.0;
                Step::Perform(moved, Effect::Embed { texts })
            },
            None => Step::Raise(fail(function, "unexpected reply")),
        },
        Stage::MemoryEmbedded => match take_first_vector(&reply) {
            Some(vector) => {
                let effect = Effect::KvPut {
                    namespace: suspended.namespace.clone(),
                    key: make_content_key(suspended.id),
                    value: suspended.text.clone(),
                };
                let mut moved = staged(suspended, Stage::MemoryContent);
                moved.extra = vector;
                Step::Perform(moved, effect)
            },
            None => Step::Raise(fail(function, "Failed to generate embedding")),
        },
        Stage::MemoryContent => {
            let effect = Effect::JsonEncode {
                value: make_memory_meta(suspended.id, &suspended.values, suspended.seconds),
            };
            Step::Perform(staged(suspended, Stage::MemoryEncoded), effect)
        },
        Stage::MemoryEncoded => match reply {
            ScriptValue::String(text) => {
                let effect = Effect::KvPut {
                    namespace: suspended.namespace.clone(),
                    key: make_meta_key(suspended.id),
                    value: text,
                };
                Step::Perform(staged(suspended, Stage::MemoryMeta), effect)
            },
            _ => Step::Raise(fail(function, "unexpected reply")),
        },
        Stage::MemoryMeta => {
            let mut last = Suspended::new(Stage::Finish, function);
            last.result = id_to_value(suspended.id);
            Step::Perform(
                last,
                Effect::VectorAdd {
                    namespace: suspended.namespace,
                    id: suspended.id,
                    vector: suspended.extra,
                },
            )
        },
        _ => Step::Return(reply),
    }
}

/// What the suspended call does with the reply to its effect, for
/// a call that recalls memories.
fn advance_recall(suspended: Suspended, reply: ScriptValue) -> (out: Step)
    requires
        suspended.stage == Stage::RecallEmbedded || suspended.stage == Stage::RecallHits || suspended.stage == Stage::RecallFetched || suspended.stage == Stage::RecallDecoded,
    ensures
        out@ == advance(suspended@, reply@),
{
    let function = suspended.function;
    match suspended.stage {
        Stage::RecallEmbedded => search_with(suspended, reply, Stage::RecallHits),
        Stage::RecallHits => after_hits(suspended, reply, Stage::RecallFetched),
        Stage::RecallFetched => match items_of(&reply) {
            Some(found) => {
                proof {
                    lemma_value_views(suspended.values@);
                }
                let n = suspended.values.len();
                if found.len() >= n && found.len() - n == n && are_text_or_null(found) {
                    let contents = first_of(found, n);
                    let texts = make_optional_texts(found, n);
                    let mut moved = staged(suspended, Stage::RecallDecoded);
                    moved.extra = contents;
                    Step::Perform(moved, Effect::JsonDecodeMany { texts })
                } else {
                    Step::Raise(fail(function, "unexpected reply"))
                }
            },
            None => Step::Raise(fail(function, "unexpected reply")),
        },
        Stage::RecallDecoded => match items_of(&reply) {
            Some(metas) => {
                proof {
                    lemma_value_views(suspended.values@);
                    lemma_value_views(suspended.extra@);
                }
                if metas.len() == suspended.values.len() && suspended.extra.len()
                    == suspended.values.len() && are_hits(&suspended.values) {
                    Step::Return(array(make_recalled(&suspended.values, &suspended.extra, metas)))
                } else {
                    Step::Raise(fail(function, "unexpected reply"))
                }
            },
            None => Step::Raise(fail(function, "unexpected reply")),
        },
        _ => Step::Return(reply),
    }
}

/// What the suspended call `suspended` does with the reply `reply` to its
/// effect.
pub fn advance_call(suspended: Suspended, reply: ScriptValue) -> (out: Step)
    ensures
        out@ == advance(suspended@, reply@),
{
    match suspended.stage {
        Stage::Finish | Stage::ReturnText | Stage::ReturnTextOrNull | Stage::ReturnAny
        | Stage::Seconds => advance_simple(suspended, reply),
        Stage::Selected | Stage::Scanned | Stage::Hits => advance_lists(suspended, reply),
        Stage::DocEmbedded | Stage::DocStored | Stage::DocIndexed => advance_document(
            suspended,
            reply,
        ),
        Stage::QueryEmbedded | Stage::QueryHits | Stage::QueryKeys
        | Stage::QueryContents => advance_query(suspended, reply),
        Stage::JsonEncoded | Stage::JsonFetched => advance_json(suspended, reply),
        Stage::MemoryClock | Stage::MemoryEmbedded | Stage::MemoryContent | Stage::MemoryEncoded
        | Stage::MemoryMeta => advance_memory(suspended, reply),
        Stage::RecallEmbedded | Stage::RecallHits | Stage::RecallFetched
        | Stage::RecallDecoded => advance_recall(suspended, reply),
    }
}

/// Resumes the call `suspended` with what came of its effect, and says what
/// the call does next.
pub fn resume(suspended: Suspended, event: Event) -> (out: Step)
    ensures
        out@ == resume_spec(suspended@, event@),
        event@ is Failed ==> out@ is Raise,
{
    match event {
        Event::Failed(reason) => Step::Raise(fail(suspended.function, reason.as_str())),
        Event::Reply(reply) => advance_call(suspended, reply),
    }
}

} // verus!
