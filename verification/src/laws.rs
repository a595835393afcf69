//! What calls add up to when the store behind them is a true one.
//!
//! The executor never sees a store. What it asks of one is said by the
//! effects; here a store is modelled as a map from keys to values, the
//! effects on keys are given their meaning on that map, and the calls of
//! `put`, `get` and `delete` are shown to compose as a script's author
//! expects.

use crate::catalog::CatalogFunction;
use crate::effect::{EffectView, StepView};
use crate::executor::{start, Shapes};
use crate::resume::advance;
use crate::value::Value;
use vstd::prelude::*;

verus! {

/// What a namespace's key-value store holds.
pub type Stored = Map<Seq<char>, Seq<char>>;

/// The store after `effect` was performed on it.
pub open spec fn stored_after(store: Stored, effect: EffectView) -> Stored {
    match effect {
        EffectView::KvPut { namespace, key, value } => store.insert(key, value),
        EffectView::KvDelete { namespace, key } => store.remove(key),
        _ => store,
    }
}

/// The reply of the store to `effect`.
pub open spec fn reply_of(store: Stored, effect: EffectView) -> Value {
    match effect {
        EffectView::KvGet { namespace, key } => if store.contains_key(key) {
            Value::String(store[key])
        } else {
            Value::Null
        },
        _ => Value::Null,
    }
}

/// The store after the call of `function` with `args` ran against it, and
/// what the call gave the script: the call's one effect is performed on the
/// store and the call is resumed with the store's reply.
pub open spec fn ran(
    shapes: Shapes,
    store: Stored,
    function: CatalogFunction,
    args: Seq<Value>,
) -> (Stored, StepView) {
    match start(shapes, function, args) {
        StepView::Perform(suspended, effect) => (
            stored_after(store, effect),
            advance(suspended, reply_of(store, effect)),
        ),
        step => (store, step),
    }
}

/// In a namespace that exists, a value that was put under a key is what
/// `get` returns for the key, whatever the store held before; and once the
/// key was deleted, `get` returns nil for it.
pub proof fn lemma_put_get_delete(
    shapes: Shapes,
    store: Stored,
    namespace: Seq<char>,
    key: Seq<char>,
    value: Seq<char>,
)
    requires
        shapes.dimensions.contains_key(namespace),
    ensures
        ({
            let target = seq![Value::String(namespace), Value::String(key)];
            let written = ran(
                shapes,
                store,
                CatalogFunction::Put,
                target.push(Value::String(value)),
            );
            let read = ran(shapes, written.0, CatalogFunction::Get, target);
            let removed = ran(shapes, read.0, CatalogFunction::Delete, target);
            let read_again = ran(shapes, removed.0, CatalogFunction::Get, target);
            &&& written.1 == StepView::Return(Value::Null)
            &&& read.1 == StepView::Return(Value::String(value))
            &&& read.0 == store.insert(key, value)
            &&& removed.1 == StepView::Return(Value::Null)
            &&& read_again.1 == StepView::Return(Value::Null)
            &&& read_again.0 == store.remove(key)
        }),
{
    let target = seq![Value::String(namespace), Value::String(key)];
    let written = ran(shapes, store, CatalogFunction::Put, target.push(Value::String(value)));
    let read = ran(shapes, written.0, CatalogFunction::Get, target);
    let removed = ran(shapes, read.0, CatalogFunction::Delete, target);
    assert(written.0 == store.insert(key, value));
    assert(read.0 == written.0);
    assert(removed.0 =~= store.remove(key));
}

/// A put under one key changes nothing that `get` returns for another key.
pub proof fn lemma_put_leaves_other_keys(
    shapes: Shapes,
    store: Stored,
    namespace: Seq<char>,
    key: Seq<char>,
    value: Seq<char>,
    other: Seq<char>,
)
    requires
        shapes.dimensions.contains_key(namespace),
        other != key,
    ensures
        ({
            let written = ran(
                shapes,
                store,
                CatalogFunction::Put,
                seq![Value::String(namespace), Value::String(key), Value::String(value)],
            );
            let target = seq![Value::String(namespace), Value::String(other)];
            ran(shapes, written.0, CatalogFunction::Get, target).1 == ran(
                shapes,
                store,
                CatalogFunction::Get,
                target,
            ).1
        }),
{
}

/// A call of `uuid` asks for a fresh unique id, whatever it is called with,
/// and gives the script the id that it is answered with, as it is. With what
/// `perform_local` says of its answer, the script gets the thirty-six
/// characters of a random unique id.
pub proof fn lemma_uuid_gives_the_id(shapes: Shapes, args: Seq<Value>, id: Seq<char>)
    ensures
        start(shapes, CatalogFunction::Uuid, args) matches StepView::Perform(suspended, effect)
            && effect == EffectView::FreshUuid && advance(suspended, Value::String(id))
            == StepView::Return(Value::String(id)),
{
}

} // verus!
