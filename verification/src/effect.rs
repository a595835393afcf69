//! What a call of a catalog function asks of the world, and what the world
//! answers.
//!
//! The executor decides; it never touches a store, an index, an embedding
//! model or a clock itself. It hands out an [`Effect`], the caller performs
//! it and hands back an [`Event`]. The effects listed here are all that a
//! script can bring about through a function of the catalog: none of them
//! names a file or a process, and none carries code to be run.

use crate::catalog::CatalogFunction;
use crate::errors::{RuntimeError, RuntimeErrorView};
use crate::namespace::{MetricKind, ScalarKind};
use crate::text::views;
use crate::value::{value_views, ScriptValue, Value};
use vstd::prelude::*;

verus! {

/// One thing to be done outside the executor.
///
/// The reply expected for each effect is given with the effect. Any effect
/// may fail instead, with [`Event::Failed`].
#[derive(Debug)]
#[allow(inconsistent_fields)]
pub enum Effect {
    /// Create the stores of a new namespace and register it. Reply: null.
    CreateNamespace { name: String, dimensions: usize, metric: MetricKind, scalar: ScalarKind },
    /// Unregister a namespace and delete what it stores. Reply: null.
    DeleteNamespace { name: String },
    /// Read the value under a key. Reply: the value as a string, or null if
    /// there is none.
    KvGet { namespace: String, key: String },
    /// Read the values under several keys. Reply: an array with, for each
    /// key in order, the value as a string, or null where there is no key or
    /// no value.
    KvGetMany { namespace: String, keys: Vec<Option<String>> },
    /// Write a value under a key. Reply: null.
    KvPut { namespace: String, key: String, value: String },
    /// Remove a key. Reply: null.
    KvDelete { namespace: String, key: String },
    /// Write several values, all or none. Reply: null.
    KvBatchPut { namespace: String, items: Vec<(String, String)> },
    /// Read entries in key order. Reply: an array of two-item arrays, key
    /// then value, that holds at least every entry whose key begins with the
    /// prefix.
    KvScan { namespace: String, prefix: String },
    /// Add a vector, given as numbers, under an id. Reply: null.
    VectorAdd { namespace: String, id: u64, vector: Vec<ScriptValue> },
    /// Find the `k` vectors nearest to a vector. Reply: an array of two-item
    /// arrays, id then distance, nearest first.
    VectorSearch { namespace: String, vector: Vec<ScriptValue>, k: usize },
    /// Embed texts. Reply: an array with one array of numbers for each text.
    Embed { texts: Vec<String> },
    /// Write a value as JSON text. Reply: the text.
    JsonEncode { value: ScriptValue },
    /// Read a value from JSON text. Reply: the value.
    JsonDecode { text: String },
    /// Read a value from each of several JSON texts. Reply: an array with,
    /// for each text in order, the value, or null where there is no text or
    /// it is not JSON.
    JsonDecodeMany { texts: Vec<Option<String>> },
    /// Flush every namespace and the permissions to disk. Reply: null.
    SaveAll,
    /// Make a fresh unique id. Reply: the id as a string.
    FreshUuid,
    /// Read the clock. Reply: a two-item array, the seconds and then the
    /// nanoseconds since 1970.
    Clock,
    /// Wait. Reply: null.
    Sleep { millis: u64 },
}

/// The views of a list of optional strings.
pub open spec fn option_views(items: Seq<Option<String>>) -> Seq<Option<Seq<char>>> {
    Seq::new(
        items.len(),
        |i: int|
            match items[i] {
                Some(s) => Some(s@),
                None => None,
            },
    )
}

/// The views of a list of pairs of strings.
pub open spec fn pair_views(items: Seq<(String, String)>) -> Seq<(Seq<char>, Seq<char>)> {
    Seq::new(items.len(), |i: int| (items[i].0@, items[i].1@))
}

/// The mathematical content of an [`Effect`].
#[allow(inconsistent_fields)]
pub ghost enum EffectView {
    CreateNamespace { name: Seq<char>, dimensions: usize, metric: MetricKind, scalar: ScalarKind },
    DeleteNamespace { name: Seq<char> },
    KvGet { namespace: Seq<char>, key: Seq<char> },
    KvGetMany { namespace: Seq<char>, keys: Seq<Option<Seq<char>>> },
    KvPut { namespace: Seq<char>, key: Seq<char>, value: Seq<char> },
    KvDelete { namespace: Seq<char>, key: Seq<char> },
    KvBatchPut { namespace: Seq<char>, items: Seq<(Seq<char>, Seq<char>)> },
    KvScan { namespace: Seq<char>, prefix: Seq<char> },
    VectorAdd { namespace: Seq<char>, id: u64, vector: Seq<Value> },
    VectorSearch { namespace: Seq<char>, vector: Seq<Value>, k: usize },
    Embed { texts: Seq<Seq<char>> },
    JsonEncode { value: Value },
    JsonDecode { text: Seq<char> },
    JsonDecodeMany { texts: Seq<Option<Seq<char>>> },
    SaveAll,
    FreshUuid,
    Clock,
    Sleep { millis: u64 },
}

impl View for Effect {
    type V = EffectView;

    open spec fn view(&self) -> EffectView {
        match self {
            Effect::CreateNamespace {
                name,
                dimensions,
                metric,
                scalar,
            } => EffectView::CreateNamespace {
                name: name@,
                dimensions: *dimensions,
                metric: *metric,
                scalar: *scalar,
            },
            Effect::DeleteNamespace { name } => EffectView::DeleteNamespace { name: name@ },
            Effect::KvGet { namespace, key } => EffectView::KvGet {
                namespace: namespace@,
                key: key@,
            },
            Effect::KvGetMany { namespace, keys } => EffectView::KvGetMany {
                namespace: namespace@,
                keys: option_views(keys@),
            },
            Effect::KvPut { namespace, key, value } => EffectView::KvPut {
                namespace: namespace@,
                key: key@,
                value: value@,
            },
            Effect::KvDelete { namespace, key } => EffectView::KvDelete {
                namespace: namespace@,
                key: key@,
            },
            Effect::KvBatchPut { namespace, items } => EffectView::KvBatchPut {
                namespace: namespace@,
                items: pair_views(items@),
            },
            Effect::KvScan { namespace, prefix } => EffectView::KvScan {
                namespace: namespace@,
                prefix: prefix@,
            },
            Effect::VectorAdd { namespace, id, vector } => EffectView::VectorAdd {
                namespace: namespace@,
                id: *id,
                vector: value_views(vector@),
            },
            Effect::VectorSearch { namespace, vector, k } => EffectView::VectorSearch {
                namespace: namespace@,
                vector: value_views(vector@),
                k: *k,
            },
            Effect::Embed { texts } => EffectView::Embed { texts: views(texts@) },
            Effect::JsonEncode { value } => EffectView::JsonEncode { value: value@ },
            Effect::JsonDecode { text } => EffectView::JsonDecode { text: text@ },
            Effect::JsonDecodeMany { texts } => EffectView::JsonDecodeMany {
                texts: option_views(texts@),
            },
            Effect::SaveAll => EffectView::SaveAll,
            Effect::FreshUuid => EffectView::FreshUuid,
            Effect::Clock => EffectView::Clock,
            Effect::Sleep { millis } => EffectView::Sleep { millis: *millis },
        }
    }
}

/// What came of an effect.
#[derive(Debug)]
pub enum Event {
    /// The effect failed; the text says how.
    Failed(String),
    /// The effect was performed, with this reply.
    Reply(ScriptValue),
}

/// The mathematical content of an [`Event`].
pub ghost enum EventView {
    Failed(Seq<char>),
    Reply(Value),
}

impl View for Event {
    type V = EventView;

    open spec fn view(&self) -> EventView {
        match self {
            Event::Failed(text) => EventView::Failed(text@),
            Event::Reply(value) => EventView::Reply(value@),
        }
    }
}

/// Where a suspended call stands: what it will do with the next reply.
#[derive(Debug, Clone, Copy, PartialEq, Eq, Structural)]
pub enum Stage {
    /// Return the value that the call holds ready.
    Finish,
    /// Return the reply, which is a string.
    ReturnText,
    /// Return the reply, which is a string or null.
    ReturnTextOrNull,
    /// Return the reply, whatever it is.
    ReturnAny,
    /// Return the seconds of the clock's reply.
    Seconds,
    /// Return the values read, each under its key.
    Selected,
    /// Return the entries scanned that begin with the prefix, up to the
    /// limit.
    Scanned,
    /// Return the hits of the search.
    Hits,
    /// The document's text was embedded: store the text.
    DocEmbedded,
    /// The document's text was stored: add its vector.
    DocStored,
    /// The document's vector was added: store the way back to its key.
    DocIndexed,
    /// The query was embedded: search.
    QueryEmbedded,
    /// The search gave its hits: read the key of each.
    QueryHits,
    /// The keys were read: read the text under each.
    QueryKeys,
    /// The texts were read: return the hits, each with its text and key.
    QueryContents,
    /// The value was written as JSON: store the text.
    JsonEncoded,
    /// The JSON text was read from the store: decode it.
    JsonFetched,
    /// The clock was read: embed the memory's text.
    MemoryClock,
    /// The memory's text was embedded: store the text.
    MemoryEmbedded,
    /// The memory's text was stored: write its tags and time as JSON.
    MemoryContent,
    /// The tags and time were written as JSON: store them.
    MemoryEncoded,
    /// The tags and time were stored: add the vector.
    MemoryMeta,
    /// The recall's query was embedded: search.
    RecallEmbedded,
    /// The search gave its hits: read the text and the tags of each.
    RecallHits,
    /// The texts and tags were read: decode the tags.
    RecallFetched,
    /// The tags were decoded: return the hits, each with what was found.
    RecallDecoded,
}

/// A call of a catalog function that waits for the reply to an effect.
///
/// Which of the fields a stage reads is said where the stage is handled;
/// the others are empty.
#[derive(Debug)]
pub struct Suspended {
    /// Where the call stands.
    pub stage: Stage,
    /// The function that was called.
    pub function: CatalogFunction,
    /// The namespace that the call works on.
    pub namespace: String,
    /// The key that the call works on.
    pub key: String,
    /// The text that the call works on: a document, a prefix, a memory.
    pub text: String,
    /// The id that the call works on.
    pub id: u64,
    /// The time of the call, in seconds since 1970.
    pub seconds: u64,
    /// How many results the call asks for at most.
    pub limit: usize,
    /// Values gathered so far: a vector, the hits of a search, tags, keys.
    pub values: Vec<ScriptValue>,
    /// More values gathered so far.
    pub extra: Vec<ScriptValue>,
    /// The value to return once the last effect is done.
    pub result: ScriptValue,
}

/// The mathematical content of a [`Suspended`] call.
pub ghost struct SuspendedView {
    pub stage: Stage,
    pub function: CatalogFunction,
    pub namespace: Seq<char>,
    pub key: Seq<char>,
    pub text: Seq<char>,
    pub id: u64,
    pub seconds: u64,
    pub limit: usize,
    pub values: Seq<Value>,
    pub extra: Seq<Value>,
    pub result: Value,
}

impl View for Suspended {
    type V = SuspendedView;

    open spec fn view(&self) -> SuspendedView {
        SuspendedView {
            stage: self.stage,
            function: self.function,
            namespace: self.namespace@,
            key: self.key@,
            text: self.text@,
            id: self.id,
            seconds: self.seconds,
            limit: self.limit,
            values: value_views(self.values@),
            extra: value_views(self.extra@),
            result: self.result@,
        }
    }
}

/// A call of `function` at `stage` that holds nothing yet.
pub open spec fn blank(stage: Stage, function: CatalogFunction) -> SuspendedView {
    SuspendedView {
        stage,
        function,
        namespace: Seq::empty(),
        key: Seq::empty(),
        text: Seq::empty(),
        id: 0,
        seconds: 0,
        limit: 0,
        values: Seq::empty(),
        extra: Seq::empty(),
        result: Value::Null,
    }
}

impl Suspended {
    /// A call of `function` at `stage` that holds nothing yet.
    pub fn new(stage: Stage, function: CatalogFunction) -> (out: Self)
        ensures
            out@ == blank(stage, function),
    {
        let out = Suspended {
            stage,
            function,
            namespace: String::new(),
            key: String::new(),
            text: String::new(),
            id: 0,
            seconds: 0,
            limit: 0,
            values: Vec::new(),
            extra: Vec::new(),
            result: ScriptValue::Null,
        };
        assert(out@.values =~= Seq::empty());
        assert(out@.extra =~= Seq::empty());
        out
    }
}

/// What a call does next.
#[derive(Debug)]
pub enum Step {
    /// The call waits: perform the effect and resume the call with what came
    /// of it.
    Perform(Suspended, Effect),
    /// The call is over and gives this value to the script.
    Return(ScriptValue),
    /// The call is over and raises this error in the script.
    Raise(RuntimeError),
}

/// The mathematical content of a [`Step`].
pub ghost enum StepView {
    Perform(SuspendedView, EffectView),
    Return(Value),
    Raise(RuntimeErrorView),
}

impl View for Step {
    type V = StepView;

    open spec fn view(&self) -> StepView {
        match self {
            Step::Perform(suspended, effect) => StepView::Perform(suspended@, effect@),
            Step::Return(value) => StepView::Return(value@),
            Step::Raise(error) => StepView::Raise(error@),
        }
    }
}

} // verus!
