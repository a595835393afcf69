//! Values that cross between a script and the host.
//!
//! A script works with [`LuaValue`]s: scalars and tables, where a table is a
//! list of entries under integer or string keys. The host works with
//! [`ScriptValue`]s, which have the shape of JSON. One rule decides in both
//! directions whether a table is an array or an object: it is an array if its
//! keys are exactly the integers from one up to the number of its entries,
//! and an object otherwise.
//!
//! Floating-point numbers are carried as the 64 bits of their IEEE 754
//! encoding and are never computed with.

use crate::text::{signed_decimal, signed_decimal_string};
use vstd::prelude::*;

verus! {

/// A value in the form in which host and script exchange it.
#[derive(Debug, PartialEq)]
pub enum ScriptValue {
    /// No value.
    Null,
    /// A truth value.
    Bool(bool),
    /// A whole number.
    Int(i64),
    /// A floating-point number, by the bits of its encoding.
    Float(u64),
    /// A text.
    String(String),
    /// Values in order.
    Array(Vec<ScriptValue>),
    /// Values under names, in order.
    Object(Vec<(String, ScriptValue)>),
}

/// The mathematical content of a [`ScriptValue`].
pub ghost enum Value {
    Null,
    Bool(bool),
    Int(i64),
    Float(u64),
    String(Seq<char>),
    Array(Seq<Value>),
    Object(Seq<(Seq<char>, Value)>),
}

/// The mathematical content of `v`.
pub open spec fn value_of(v: ScriptValue) -> Value
    decreases v, 0nat,
{
    match v {
        ScriptValue::Null => Value::Null,
        ScriptValue::Bool(b) => Value::Bool(b),
        ScriptValue::Int(i) => Value::Int(i),
        ScriptValue::Float(f) => Value::Float(f),
        ScriptValue::String(s) => Value::String(s@),
        ScriptValue::Array(items) => Value::Array(values_of(items@, items@.len())),
        ScriptValue::Object(fields) => Value::Object(fields_of(fields@, fields@.len())),
    }
}

/// The contents of the first `n` of `items`.
pub open spec fn values_of(items: Seq<ScriptValue>, n: nat) -> Seq<Value>
    decreases items, n,
{
    if n == 0 || n > items.len() {
        Seq::empty()
    } else {
        values_of(items, (n - 1) as nat).push(value_of(items[n - 1]))
    }
}

/// The contents of the first `n` of `fields`.
pub open spec fn fields_of(fields: Seq<(String, ScriptValue)>, n: nat) -> Seq<
    (Seq<char>, Value),
>
    decreases fields, n,
{
    if n == 0 || n > fields.len() {
        Seq::empty()
    } else {
        fields_of(fields, (n - 1) as nat).push((fields[n - 1].0@, value_of(fields[n - 1].1)))
    }
}

impl View for ScriptValue {
    type V = Value;

    open spec fn view(&self) -> Value {
        value_of(*self)
    }
}

/// The views of a sequence of values.
pub open spec fn value_views(items: Seq<ScriptValue>) -> Seq<Value> {
    values_of(items, items.len())
}

/// The views of a sequence of named values.
pub open spec fn field_views(fields: Seq<(String, ScriptValue)>) -> Seq<(Seq<char>, Value)> {
    fields_of(fields, fields.len())
}

/// The contents of the first `n` items are the contents of each, in order.
pub proof fn lemma_values_of(items: Seq<ScriptValue>, n: nat)
    requires
        n <= items.len(),
    ensures
        values_of(items, n).len() == n,
        forall|i: int| 0 <= i < n ==> #[trigger] values_of(items, n)[i] == items[i]@,
    decreases n,
{
    if n > 0 {
        lemma_values_of(items, (n - 1) as nat);
    }
}

/// The contents of the first `n` fields are the contents of each, in order.
pub proof fn lemma_fields_of(fields: Seq<(String, ScriptValue)>, n: nat)
    requires
        n <= fields.len(),
    ensures
        fields_of(fields, n).len() == n,
        forall|i: int|
            0 <= i < n ==> #[trigger] fields_of(fields, n)[i] == (fields[i].0@, fields[i].1@),
    decreases n,
{
    if n > 0 {
        lemma_fields_of(fields, (n - 1) as nat);
    }
}

/// The key of a table entry.
#[derive(Debug, PartialEq)]
pub enum TableKey {
    /// An integer key.
    Index(i64),
    /// A string key.
    Name(String),
    /// A key of any other kind, which no object can hold.
    Unsupported,
}

/// The mathematical content of a [`TableKey`].
pub ghost enum KeyView {
    Index(i64),
    Name(Seq<char>),
    Unsupported,
}

impl View for TableKey {
    type V = KeyView;

    open spec fn view(&self) -> KeyView {
        match self {
            TableKey::Index(i) => KeyView::Index(*i),
            TableKey::Name(s) => KeyView::Name(s@),
            TableKey::Unsupported => KeyView::Unsupported,
        }
    }
}

/// A value as a script holds it.
#[derive(Debug, PartialEq)]
pub enum LuaValue {
    /// No value.
    Nil,
    /// A truth value.
    Boolean(bool),
    /// A whole number.
    Integer(i64),
    /// A floating-point number, by the bits of its encoding.
    Number(u64),
    /// A text.
    String(String),
    /// A table: its entries in the order in which they are walked.
    Table(Vec<(TableKey, LuaValue)>),
    /// A function or another value that only the script can use.
    Other,
}

/// The mathematical content of a [`LuaValue`].
pub ghost enum LuaView {
    Nil,
    Boolean(bool),
    Integer(i64),
    Number(u64),
    String(Seq<char>),
    Table(Seq<(KeyView, LuaView)>),
    Other,
}

/// The mathematical content of `v`.
pub open spec fn lua_view_of(v: LuaValue) -> LuaView
    decreases v, 0nat,
{
    match v {
        LuaValue::Nil => LuaView::Nil,
        LuaValue::Boolean(b) => LuaView::Boolean(b),
        LuaValue::Integer(i) => LuaView::Integer(i),
        LuaValue::Number(n) => LuaView::Number(n),
        LuaValue::String(s) => LuaView::String(s@),
        LuaValue::Table(entries) => LuaView::Table(entries_of(entries@, entries@.len())),
        LuaValue::Other => LuaView::Other,
    }
}

/// The contents of the first `n` of `entries`.
pub open spec fn entries_of(entries: Seq<(TableKey, LuaValue)>, n: nat) -> Seq<
    (KeyView, LuaView),
>
    decreases entries, n,
{
    if n == 0 || n > entries.len() {
        Seq::empty()
    } else {
        entries_of(entries, (n - 1) as nat).push(
            (entries[n - 1].0@, lua_view_of(entries[n - 1].1)),
        )
    }
}

impl View for LuaValue {
    type V = LuaView;

    open spec fn view(&self) -> LuaView {
        lua_view_of(*self)
    }
}

/// The views of a sequence of table entries.
pub open spec fn entry_views(entries: Seq<(TableKey, LuaValue)>) -> Seq<(KeyView, LuaView)> {
    entries_of(entries, entries.len())
}

/// The contents of the first `n` entries are the contents of each, in order.
pub proof fn lemma_entries_of(entries: Seq<(TableKey, LuaValue)>, n: nat)
    requires
        n <= entries.len(),
    ensures
        entries_of(entries, n).len() == n,
        forall|i: int|
            0 <= i < n ==> #[trigger] entries_of(entries, n)[i] == (entries[i].0@, entries[i].1@),
    decreases n,
{
    if n > 0 {
        lemma_entries_of(entries, (n - 1) as nat);
    }
}

/// Why a script's value has no exchange form.
#[derive(Debug, Clone, Copy, PartialEq, Eq, Structural)]
pub enum MarshalError {
    /// The value is a function or another value that only the script can use.
    UnsupportedValue,
    /// The number is infinite or not a number.
    InvalidNumber,
    /// A table that is no array has a key that is neither integer nor string.
    UnsupportedKey,
}

impl MarshalError {
    /// The message for this error.
    pub fn message(&self) -> (out: &'static str)
        ensures
            out@ == match self {
                MarshalError::UnsupportedValue => "Cannot convert value to JSON"@,
                MarshalError::InvalidNumber => "Invalid number for JSON"@,
                MarshalError::UnsupportedKey => "Cannot convert table key to a JSON object key"@,
            },
    {
        match self {
            MarshalError::UnsupportedValue => "Cannot convert value to JSON",
            MarshalError::InvalidNumber => "Invalid number for JSON",
            MarshalError::UnsupportedKey => "Cannot convert table key to a JSON object key",
        }
    }
}

/// Whether `bits` encode a finite number: the exponent field is not all
/// ones.
pub open spec fn is_finite_bits(bits: u64) -> bool {
    (bits >> 52) & 0x7ff != 0x7ff
}

/// Whether the number with the encoding `bits` is finite.
pub fn is_finite(bits: u64) -> (out: bool)
    ensures
        out == is_finite_bits(bits),
{
    (bits >> 52) & 0x7ff != 0x7ff
}

/// The keys of `entries`, in order.
pub open spec fn keys_of(entries: Seq<(KeyView, LuaView)>) -> Seq<KeyView> {
    Seq::new(entries.len(), |i: int| entries[i].0)
}

/// The rule that tells arrays from objects: `keys` are exactly the integers
/// from one up to their number, which is at least one. There are as many keys
/// as numbers to be found among them, so none occurs twice and none is left
/// out.
pub open spec fn is_sequence(keys: Seq<KeyView>) -> bool {
    &&& 1 <= keys.len() <= i64::MAX
    &&& forall|j: int|
        0 <= j < keys.len() ==> (#[trigger] keys[j] matches KeyView::Index(i) && 1 <= i
            <= keys.len())
    &&& forall|k: int| 1 <= k <= keys.len() ==> has_key(keys, k)
}

/// Whether the integer `k` is among `keys`.
pub open spec fn has_key(keys: Seq<KeyView>, k: int) -> bool {
    exists|j: int| is_first(keys, k, j)
}

/// Whether `j` is the first place in `keys` that holds the integer `k`.
pub open spec fn is_first(keys: Seq<KeyView>, k: int, j: int) -> bool {
    &&& 0 <= j < keys.len()
    &&& keys[j] == KeyView::Index(k as i64)
    &&& forall|e: int| 0 <= e < j ==> keys[e] != KeyView::Index(k as i64)
}

/// The first place in `keys` that holds the integer `k`.
pub open spec fn position(keys: Seq<KeyView>, k: int) -> int {
    choose|j: int| is_first(keys, k, j)
}

/// The name under which an object holds what a table holds under `key`.
pub open spec fn key_text(key: KeyView) -> Result<Seq<char>, MarshalError> {
    match key {
        KeyView::Index(i) => Ok(signed_decimal(i as int)),
        KeyView::Name(s) => Ok(s),
        KeyView::Unsupported => Err(MarshalError::UnsupportedKey),
    }
}

/// The exchange form of the script value `v`, or why it has none.
pub open spec fn to_json(v: LuaView) -> Result<Value, MarshalError>
    decreases v, 0nat,
{
    match v {
        LuaView::Nil => Ok(Value::Null),
        LuaView::Boolean(b) => Ok(Value::Bool(b)),
        LuaView::Integer(i) => Ok(Value::Int(i)),
        LuaView::Number(n) => if is_finite_bits(n) {
            Ok(Value::Float(n))
        } else {
            Err(MarshalError::InvalidNumber)
        },
        LuaView::String(s) => Ok(Value::String(s)),
        LuaView::Table(entries) => if is_sequence(keys_of(entries)) {
            match array_items(entries, entries.len()) {
                Ok(items) => Ok(Value::Array(items)),
                Err(e) => Err(e),
            }
        } else {
            match object_fields(entries, entries.len()) {
                Ok(fields) => Ok(Value::Object(fields)),
                Err(e) => Err(e),
            }
        },
        LuaView::Other => Err(MarshalError::UnsupportedValue),
    }
}

/// The exchange forms of what `entries` hold under the keys one to `n`, in
/// that order, or the first error met on the way.
pub open spec fn array_items(entries: Seq<(KeyView, LuaView)>, n: nat) -> Result<
    Seq<Value>,
    MarshalError,
>
    decreases entries, n,
{
    if n == 0 {
        Ok(Seq::empty())
    } else {
        match array_items(entries, (n - 1) as nat) {
            Err(e) => Err(e),
            Ok(items) => {
                let j = position(keys_of(entries), n as int);
                if 0 <= j < entries.len() {
                    match to_json(entries[j].1) {
                        Ok(item) => Ok(items.push(item)),
                        Err(e) => Err(e),
                    }
                } else {
                    Ok(items.push(Value::Null))
                }
            },
        }
    }
}

/// The first `n` of `entries` as the fields of an object, or the first error
/// met on the way.
pub open spec fn object_fields(entries: Seq<(KeyView, LuaView)>, n: nat) -> Result<
    Seq<(Seq<char>, Value)>,
    MarshalError,
>
    decreases entries, n,
{
    if n == 0 || n > entries.len() {
        Ok(Seq::empty())
    } else {
        match object_fields(entries, (n - 1) as nat) {
            Err(e) => Err(e),
            Ok(fields) => match key_text(entries[n - 1].0) {
                Err(e) => Err(e),
                Ok(name) => match to_json(entries[n - 1].1) {
                    Ok(value) => Ok(fields.push((name, value))),
                    Err(e) => Err(e),
                },
            },
        }
    }
}

/// The key under which a table holds item `i` of an array.
pub open spec fn array_key(i: int) -> i64 {
    if i < i64::MAX {
        (i + 1) as i64
    } else {
        i64::MAX
    }
}

/// The script's form of the exchange value `v`. A table never holds an entry
/// without a value, so items and fields that are null leave no entry.
pub open spec fn to_lua(v: Value) -> LuaView
    decreases v, 0nat,
{
    match v {
        Value::Null => LuaView::Nil,
        Value::Bool(b) => LuaView::Boolean(b),
        Value::Int(i) => LuaView::Integer(i),
        Value::Float(f) => LuaView::Number(f),
        Value::String(s) => LuaView::String(s),
        Value::Array(items) => LuaView::Table(array_entries(items, items.len())),
        Value::Object(fields) => LuaView::Table(object_entries(fields, fields.len())),
    }
}

/// The table entries for the first `n` of `items`.
pub open spec fn array_entries(items: Seq<Value>, n: nat) -> Seq<(KeyView, LuaView)>
    decreases items, n,
{
    if n == 0 || n > items.len() {
        Seq::empty()
    } else {
        let before = array_entries(items, (n - 1) as nat);
        if items[n - 1] is Null {
            before
        } else {
            before.push((KeyView::Index(array_key(n - 1)), to_lua(items[n - 1])))
        }
    }
}

/// The table entries for the first `n` of `fields`.
pub open spec fn object_entries(fields: Seq<(Seq<char>, Value)>, n: nat) -> Seq<
    (KeyView, LuaView),
>
    decreases fields, n,
{
    if n == 0 || n > fields.len() {
        Seq::empty()
    } else {
        let before = object_entries(fields, (n - 1) as nat);
        if fields[n - 1].1 is Null {
            before
        } else {
            before.push((KeyView::Name(fields[n - 1].0), to_lua(fields[n - 1].1)))
        }
    }
}

/// The first place that holds `k` is the only one that is the first.
pub proof fn lemma_position(keys: Seq<KeyView>, k: int, j: int)
    requires
        is_first(keys, k, j),
    ensures
        position(keys, k) == j,
        has_key(keys, k),
{
    let p = position(keys, k);
    assert(is_first(keys, k, p));
    if p < j {
        assert(keys[p] != KeyView::Index(k as i64));
    }
    if j < p {
        assert(keys[j] != KeyView::Index(k as i64));
    }
}

/// An error among the first `k` items is the error of any longer run.
pub proof fn lemma_array_items_error(entries: Seq<(KeyView, LuaView)>, k: nat, n: nat)
    requires
        k <= n,
        array_items(entries, k) is Err,
    ensures
        array_items(entries, n) == array_items(entries, k),
    decreases n,
{
    if k < n {
        lemma_array_items_error(entries, k, (n - 1) as nat);
    }
}

/// An error among the first `k` fields is the error of any longer run.
pub proof fn lemma_object_fields_error(entries: Seq<(KeyView, LuaView)>, k: nat, n: nat)
    requires
        k <= n <= entries.len(),
        object_fields(entries, k) is Err,
    ensures
        object_fields(entries, n) == object_fields(entries, k),
    decreases n,
{
    if k < n {
        lemma_object_fields_error(entries, k, (n - 1) as nat);
    }
}

/// Whether `value` is null.
pub fn is_null(value: &ScriptValue) -> (out: bool)
    ensures
        out == (value@ is Null),
{
    match value {
        ScriptValue::Null => true,
        _ => false,
    }
}

/// The script's form of the exchange value `value`.
pub fn json_to_lua_value(value: &ScriptValue) -> (out: LuaValue)
    ensures
        out@ == to_lua(value@),
    decreases value,
{
    match value {
        ScriptValue::Null => LuaValue::Nil,
        ScriptValue::Bool(b) => LuaValue::Boolean(*b),
        ScriptValue::Int(i) => LuaValue::Integer(*i),
        ScriptValue::Float(f) => LuaValue::Number(*f),
        ScriptValue::String(s) => LuaValue::String(s.clone()),
        ScriptValue::Array(items) => {
            let mut entries: Vec<(TableKey, LuaValue)> = Vec::new();
            let mut i: usize = 0;
            proof {
                lemma_values_of(items@, items@.len());
            }
            while i < items.len()
                invariant
                    i <= items.len(),
                    decreases_to!(value => *items),
                    value_views(items@).len() == items@.len(),
                    forall|e: int|
                        0 <= e < items@.len() ==> #[trigger] value_views(items@)[e] == items@[e]@,
                    entry_views(entries@) == array_entries(value_views(items@), i as nat),
                decreases items.len() - i,
            {
                let item = &items[i];
                if !is_null(item) {
                    let key: i64 = if (i as u64) < 0x7fff_ffff_ffff_ffffu64 {
                        (i + 1) as i64
                    } else {
                        i64::MAX
                    };
                    assert(decreases_to!(*items => items[i as int]));
                    let converted = json_to_lua_value(item);
                    let ghost before = entries@;
                    entries.push((TableKey::Index(key), converted));
                    proof {
                        lemma_entries_of(before, before.len());
                        lemma_entries_of(entries@, entries@.len());
                        assert(entry_views(entries@) =~= entry_views(before).push(
                            (KeyView::Index(array_key(i as int)), to_lua(items@[i as int]@)),
                        ));
                    }
                }
                i += 1;
            }
            LuaValue::Table(entries)
        },
        ScriptValue::Object(fields) => {
            let mut entries: Vec<(TableKey, LuaValue)> = Vec::new();
            let mut i: usize = 0;
            proof {
                lemma_fields_of(fields@, fields@.len());
            }
            while i < fields.len()
                invariant
                    i <= fields.len(),
                    decreases_to!(value => *fields),
                    field_views(fields@).len() == fields@.len(),
                    forall|e: int|
                        0 <= e < fields@.len() ==> #[trigger] field_views(fields@)[e] == (
                            fields@[e].0@,
                            fields@[e].1@,
                        ),
                    entry_views(entries@) == object_entries(field_views(fields@), i as nat),
                decreases fields.len() - i,
            {
                let field = &fields[i];
                if !is_null(&field.1) {
                    assert(decreases_to!(*fields => fields[i as int]));
                    assert(decreases_to!(fields[i as int] => fields[i as int].1));
                    let converted = json_to_lua_value(&field.1);
                    let ghost before = entries@;
                    entries.push((TableKey::Name(field.0.clone()), converted));
                    proof {
                        lemma_entries_of(before, before.len());
                        lemma_entries_of(entries@, entries@.len());
                        assert(entry_views(entries@) =~= entry_views(before).push(
                            (KeyView::Name(fields@[i as int].0@), to_lua(fields@[i as int].1@)),
                        ));
                    }
                }
                i += 1;
            }
            LuaValue::Table(entries)
        },
    }
}

/// The name under which an object holds what a table holds under `key`.
pub fn key_name(key: &TableKey) -> (out: Result<String, MarshalError>)
    ensures
        match key_text(key@) {
            Ok(name) => out is Ok && out->Ok_0@ == name,
            Err(e) => out == Err::<String, MarshalError>(e),
        },
{
    match key {
        TableKey::Index(i) => Ok(signed_decimal_string(*i)),
        TableKey::Name(s) => Ok(s.clone()),
        TableKey::Unsupported => Err(MarshalError::UnsupportedKey),
    }
}

/// For each of the numbers one to `entries.len()`, the first entry that has
/// it as its key, if the keys of `entries` are exactly those numbers; `None`
/// if they are not.
fn sequence_slots(entries: &Vec<(TableKey, LuaValue)>) -> (out: Option<Vec<usize>>)
    ensures
        out is Some <==> is_sequence(keys_of(entry_views(entries@))),
        out matches Some(slots) ==> {
            &&& slots@.len() == entries@.len()
            &&& forall|k: int|
                1 <= k <= entries@.len() ==> is_first(
                    keys_of(entry_views(entries@)),
                    k,
                    #[trigger] slots@[k - 1] as int,
                )
        },
{
    let n = entries.len();
    let ghost keys = keys_of(entry_views(entries@));
    proof {
        lemma_entries_of(entries@, entries@.len());
    }
    if n == 0 || (n as u64) > 0x7fff_ffff_ffff_ffffu64 {
        return None;
    }
    let mut found: Vec<Option<usize>> = Vec::new();
    let mut k: usize = 0;
    while k < n
        invariant
            k <= n,
            found@.len() == k,
            forall|e: int| 0 <= e < k ==> found@[e] is None,
        decreases n - k,
    {
        found.push(None);
        k += 1;
    }
    let mut j: usize = 0;
    while j < n
        invariant
            j <= n,
            n == entries@.len(),
            1 <= n <= i64::MAX,
            keys == keys_of(entry_views(entries@)),
            keys.len() == n,
            forall|e: int| 0 <= e < n ==> #[trigger] keys[e] == entries@[e].0@,
            found@.len() == n,
            forall|e: int|
                0 <= e < j ==> (#[trigger] keys[e] matches KeyView::Index(i) && 1 <= i <= n),
            forall|k: int|
                1 <= k <= n ==> match #[trigger] found@[k - 1] {
                    Some(p) => p < j && is_first(keys, k, p as int),
                    None => forall|e: int| 0 <= e < j ==> keys[e] != KeyView::Index(k as i64),
                },
        decreases n - j,
    {
        match &entries[j].0 {
            TableKey::Index(i) => {
                let i: i64 = *i;
                if i < 1 || (i as u64) > (n as u64) {
                    assert(!(keys[j as int] matches KeyView::Index(i) && 1 <= i <= n));
                    return None;
                }
                let slot: usize = (i - 1) as usize;
                if found[slot].is_none() {
                    found.set(slot, Some(j));
                    assert(is_first(keys, i as int, j as int));
                }
            },
            _ => {
                assert(!(keys[j as int] matches KeyView::Index(i) && 1 <= i <= n));
                return None;
            },
        }
        j += 1;
    }
    let mut slots: Vec<usize> = Vec::new();
    let mut k: usize = 0;
    while k < n
        invariant
            k <= n,
            n == entries@.len(),
            keys == keys_of(entry_views(entries@)),
            keys.len() == n,
            found@.len() == n,
            slots@.len() == k,
            forall|k: int|
                1 <= k <= n ==> match #[trigger] found@[k - 1] {
                    Some(p) => is_first(keys, k, p as int),
                    None => forall|e: int| 0 <= e < n ==> keys[e] != KeyView::Index(k as i64),
                },
            forall|e: int| 1 <= e <= k ==> is_first(keys, e, #[trigger] slots@[e - 1] as int),
        decreases n - k,
    {
        match found[k] {
            Some(p) => {
                assert(found@[(k + 1) - 1] == Some(p));
                slots.push(p);
            },
            None => {
                assert(found@[(k + 1) - 1] is None);
                let ghost missing: int = k + 1;
                assert(!has_key(keys, missing)) by {
                    if has_key(keys, missing) {
                        let w = choose|w: int| is_first(keys, missing, w);
                        assert(keys[w] != KeyView::Index(missing as i64));
                    }
                }
                return None;
            },
        }
        k += 1;
    }
    proof {
        assert forall|e: int| 1 <= e <= n implies has_key(keys, e) by {
            assert(is_first(keys, e, slots@[e - 1] as int));
        }
    }
    Some(slots)
}

/// The exchange form of the script value `value`, or why it has none.
pub fn lua_value_to_json(value: &LuaValue) -> (out: Result<ScriptValue, MarshalError>)
    ensures
        match to_json(value@) {
            Ok(v) => out is Ok && out->Ok_0@ == v,
            Err(e) => out == Err::<ScriptValue, MarshalError>(e),
        },
    decreases value,
{
    match value {
        LuaValue::Nil => Ok(ScriptValue::Null),
        LuaValue::Boolean(b) => Ok(ScriptValue::Bool(*b)),
        LuaValue::Integer(i) => Ok(ScriptValue::Int(*i)),
        LuaValue::Number(n) => if is_finite(*n) {
            Ok(ScriptValue::Float(*n))
        } else {
            Err(MarshalError::InvalidNumber)
        },
        LuaValue::String(s) => Ok(ScriptValue::String(s.clone())),
        LuaValue::Other => Err(MarshalError::UnsupportedValue),
        LuaValue::Table(entries) => {
            let n = entries.len();
            let ghost ev = entry_views(entries@);
            let ghost keys = keys_of(ev);
            proof {
                lemma_entries_of(entries@, entries@.len());
            }
            match sequence_slots(entries) {
                Some(slots) => {
                    let mut items: Vec<ScriptValue> = Vec::new();
                    let mut k: usize = 0;
                    while k < n
                        invariant
                            k <= n,
                            n == entries@.len(),
                            decreases_to!(value => *entries),
                            ev == entry_views(entries@),
                            keys == keys_of(ev),
                            ev.len() == n,
                            forall|e: int|
                                0 <= e < n ==> #[trigger] ev[e] == (entries@[e].0@, entries@[e].1@),
                            slots@.len() == n,
                            forall|e: int|
                                1 <= e <= n ==> is_first(keys, e, #[trigger] slots@[e - 1] as int),
                            array_items(ev, k as nat) == Ok::<Seq<Value>, MarshalError>(
                                value_views(items@),
                            ),
                            value@ == LuaView::Table(ev),
                            is_sequence(keys),
                        decreases n - k,
                    {
                        let p = slots[k];
                        proof {
                            assert(is_first(keys, k + 1, slots@[(k + 1) - 1] as int));
                            lemma_position(keys, k + 1, p as int);
                        }
                        assert(decreases_to!(*entries => entries[p as int]));
                        assert(decreases_to!(entries[p as int] => entries[p as int].1));
                        match lua_value_to_json(&entries[p].1) {
                            Ok(item) => {
                                let ghost before = items@;
                                items.push(item);
                                proof {
                                    lemma_values_of(before, before.len());
                                    lemma_values_of(items@, items@.len());
                                    assert(value_views(items@) =~= value_views(before).push(
                                        item@,
                                    ));
                                }
                            },
                            Err(e) => {
                                proof {
                                    lemma_array_items_error(ev, (k + 1) as nat, n as nat);
                                }
                                return Err(e);
                            },
                        }
                        k += 1;
                    }
                    Ok(ScriptValue::Array(items))
                },
                None => {
                    let mut fields: Vec<(String, ScriptValue)> = Vec::new();
                    let mut j: usize = 0;
                    while j < n
                        invariant
                            j <= n,
                            n == entries@.len(),
                            decreases_to!(value => *entries),
                            ev == entry_views(entries@),
                            ev.len() == n,
                            forall|e: int|
                                0 <= e < n ==> #[trigger] ev[e] == (entries@[e].0@, entries@[e].1@),
                            object_fields(ev, j as nat) == Ok::<
                                Seq<(Seq<char>, Value)>,
                                MarshalError,
                            >(field_views(fields@)),
                            value@ == LuaView::Table(ev),
                            !is_sequence(keys_of(ev)),
                        decreases n - j,
                    {
                        let name = match key_name(&entries[j].0) {
                            Ok(name) => name,
                            Err(e) => {
                                proof {
                                    lemma_object_fields_error(ev, (j + 1) as nat, n as nat);
                                }
                                return Err(e);
                            },
                        };
                        assert(decreases_to!(*entries => entries[j as int]));
                        assert(decreases_to!(entries[j as int] => entries[j as int].1));
                        match lua_value_to_json(&entries[j].1) {
                            Ok(item) => {
                                let ghost before = fields@;
                                fields.push((name, item));
                                proof {
                                    lemma_fields_of(before, before.len());
                                    lemma_fields_of(fields@, fields@.len());
                                    assert(field_views(fields@) =~= field_views(before).push(
                                        (name@, item@),
                                    ));
                                }
                            },
                            Err(e) => {
                                proof {
                                    lemma_object_fields_error(ev, (j + 1) as nat, n as nat);
                                }
                                return Err(e);
                            },
                        }
                        j += 1;
                    }
                    Ok(ScriptValue::Object(fields))
                },
            }
        },
    }
}

/// The values that come back unchanged from a script: every number in them
/// is finite, every array has an item, and no array or object holds null.
pub open spec fn portable(v: Value) -> bool
    decreases v,
{
    match v {
        Value::Float(f) => is_finite_bits(f),
        Value::Array(items) => {
            &&& 1 <= items.len() <= i64::MAX
            &&& forall|i: int|
                0 <= i < items.len() ==> !(#[trigger] items[i] is Null) && portable(items[i])
        },
        Value::Object(fields) => forall|i: int|
            0 <= i < fields.len() ==> !((#[trigger] fields[i]).1 is Null) && portable(
                fields[i].1,
            ),
        _ => true,
    }
}

/// The table entries for an array without null hold each item under its
/// place.
proof fn lemma_array_entries(items: Seq<Value>, m: nat)
    requires
        m <= items.len() <= i64::MAX,
        forall|i: int| 0 <= i < items.len() ==> !(#[trigger] items[i] is Null),
    ensures
        array_entries(items, m).len() == m,
        forall|i: int|
            0 <= i < m ==> #[trigger] array_entries(items, m)[i] == (
                KeyView::Index((i + 1) as i64),
                to_lua(items[i]),
            ),
    decreases m,
{
    if m > 0 {
        lemma_array_entries(items, (m - 1) as nat);
    }
}

/// The table entries for an object without null hold each field under its
/// name.
proof fn lemma_object_entries(fields: Seq<(Seq<char>, Value)>, m: nat)
    requires
        m <= fields.len(),
        forall|i: int| 0 <= i < fields.len() ==> !((#[trigger] fields[i]).1 is Null),
    ensures
        object_entries(fields, m).len() == m,
        forall|i: int|
            0 <= i < m ==> #[trigger] object_entries(fields, m)[i] == (
                KeyView::Name(fields[i].0),
                to_lua(fields[i].1),
            ),
    decreases m,
{
    if m > 0 {
        lemma_object_entries(fields, (m - 1) as nat);
    }
}

/// The table that stands for a portable array has exactly the keys one to
/// its length, and its first `m` items come back as they were.
proof fn lemma_array_round_trip(items: Seq<Value>, m: nat)
    requires
        m <= items.len(),
        portable(Value::Array(items)),
        forall|i: int| 0 <= i < items.len() ==> to_json(to_lua(#[trigger] items[i])) == Ok::<Value, MarshalError>(items[i]),
    ensures
        is_sequence(keys_of(array_entries(items, items.len()))),
        array_items(array_entries(items, items.len()), m) == Ok::<Seq<Value>, MarshalError>(
            items.take(m as int),
        ),
    decreases m,
{
    let entries = array_entries(items, items.len());
    let keys = keys_of(entries);
    lemma_array_entries(items, items.len());
    assert forall|k: int| 1 <= k <= keys.len() implies has_key(keys, k) by {
        assert(keys[k - 1] == entries[k - 1].0);
        assert forall|e: int| 0 <= e < k - 1 implies keys[e] != KeyView::Index(k as i64) by {
            assert(keys[e] == entries[e].0);
        }
        assert(is_first(keys, k, k - 1));
    }
    assert forall|j: int| 0 <= j < keys.len() implies (#[trigger] keys[j] matches KeyView::Index(
        i,
    ) && 1 <= i <= keys.len()) by {
        assert(keys[j] == entries[j].0);
    }
    if m > 0 {
        lemma_array_round_trip(items, (m - 1) as nat);
        assert(keys[m - 1] == entries[m - 1].0);
        assert forall|e: int| 0 <= e < m - 1 implies keys[e] != KeyView::Index(m as i64) by {
            assert(keys[e] == entries[e].0);
        }
        lemma_position(keys, m as int, m - 1);
        assert(to_json(to_lua(items[m - 1])) == Ok::<Value, MarshalError>(items[m - 1]));
        assert(items.take(m as int) =~= items.take(m - 1).push(items[m - 1]));
    } else {
        assert(items.take(0) =~= Seq::<Value>::empty());
    }
}

/// The table that stands for a portable object is no array, and its first
/// `m` fields come back as they were.
proof fn lemma_object_round_trip(fields: Seq<(Seq<char>, Value)>, m: nat)
    requires
        m <= fields.len(),
        portable(Value::Object(fields)),
        forall|i: int| 0 <= i < fields.len() ==> to_json(to_lua((#[trigger] fields[i]).1)) == Ok::<Value, MarshalError>(fields[i].1),
    ensures
        !is_sequence(keys_of(object_entries(fields, fields.len()))),
        object_fields(object_entries(fields, fields.len()), m) == Ok::<
            Seq<(Seq<char>, Value)>,
            MarshalError,
        >(fields.take(m as int)),
    decreases m,
{
    let entries = object_entries(fields, fields.len());
    let keys = keys_of(entries);
    lemma_object_entries(fields, fields.len());
    if fields.len() > 0 {
        assert(keys[0] == entries[0].0);
        assert(keys[0] is Name);
    }
    if m > 0 {
        lemma_object_round_trip(fields, (m - 1) as nat);
        assert(entries[m - 1] == (KeyView::Name(fields[m - 1].0), to_lua(fields[m - 1].1)));
        assert(to_json(to_lua(fields[m - 1].1)) == Ok::<Value, MarshalError>(fields[m - 1].1));
        assert(fields.take(m as int) =~= fields.take(m - 1).push(fields[m - 1]));
    } else {
        assert(fields.take(0) =~= Seq::<(Seq<char>, Value)>::empty());
    }
}

/// A portable value that is handed to a script and taken back is the value
/// it was.
pub proof fn lemma_round_trip(v: Value)
    requires
        portable(v),
    ensures
        to_json(to_lua(v)) == Ok::<Value, MarshalError>(v),
    decreases v,
{
    match v {
        Value::Array(items) => {
            assert forall|i: int| 0 <= i < items.len() implies to_json(
                to_lua(#[trigger] items[i]),
            ) == Ok::<Value, MarshalError>(items[i]) by {
                lemma_round_trip(items[i]);
            }
            lemma_array_round_trip(items, items.len());
            lemma_array_entries(items, items.len());
            assert(items.take(items.len() as int) =~= items);
        },
        Value::Object(fields) => {
            assert forall|i: int| 0 <= i < fields.len() implies to_json(
                to_lua((#[trigger] fields[i]).1),
            ) == Ok::<Value, MarshalError>(fields[i].1) by {
                lemma_round_trip(fields[i].1);
            }
            lemma_object_round_trip(fields, fields.len());
            lemma_object_entries(fields, fields.len());
            assert(fields.take(fields.len() as int) =~= fields);
        },
        _ => {},
    }
}

/// The script values that come back unchanged from the host: every number
/// in them is finite, nothing in them is a function, no table holds nil, and
/// every table has either the keys one to its length, in that order, or
/// string keys only.
pub open spec fn canonical(l: LuaView) -> bool
    decreases l,
{
    match l {
        LuaView::Number(n) => is_finite_bits(n),
        LuaView::Other => false,
        LuaView::Table(entries) => {
            &&& forall|i: int|
                0 <= i < entries.len() ==> !((#[trigger] entries[i]).1 is Nil) && canonical(
                    entries[i].1,
                )
            &&& {
                ||| (1 <= entries.len() <= i64::MAX && forall|i: int|
                    0 <= i < entries.len() ==> (#[trigger] entries[i]).0 == KeyView::Index(
                        (i + 1) as i64,
                    ))
                ||| forall|i: int| 0 <= i < entries.len() ==> (#[trigger] entries[i]).0 is Name
            }
        },
        _ => true,
    }
}

/// The exchange forms of the values of `entries`, each at its place.
spec fn forms_of(entries: Seq<(KeyView, LuaView)>) -> Seq<Value> {
    Seq::new(entries.len(), |i: int| to_json(entries[i].1)->Ok_0)
}

/// The fields that the entries of `entries` stand for, each at its place.
spec fn named_forms_of(entries: Seq<(KeyView, LuaView)>) -> Seq<(Seq<char>, Value)> {
    Seq::new(entries.len(), |i: int| (entries[i].0->Name_0, to_json(entries[i].1)->Ok_0))
}

/// A table with the keys one to its length, in that order, is an array, and
/// its first `m` items are the forms of its first `m` values.
proof fn lemma_sequence_forms(entries: Seq<(KeyView, LuaView)>, m: nat)
    requires
        m <= entries.len(),
        1 <= entries.len() <= i64::MAX,
        forall|i: int|
            0 <= i < entries.len() ==> (#[trigger] entries[i]).0 == KeyView::Index((i + 1) as i64),
        forall|i: int| 0 <= i < entries.len() ==> to_json((#[trigger] entries[i]).1) is Ok,
    ensures
        is_sequence(keys_of(entries)),
        array_items(entries, m) == Ok::<Seq<Value>, MarshalError>(forms_of(entries).take(m as int)),
    decreases m,
{
    let keys = keys_of(entries);
    assert forall|k: int| 1 <= k <= keys.len() implies has_key(keys, k) by {
        assert(keys[k - 1] == entries[k - 1].0);
        assert forall|e: int| 0 <= e < k - 1 implies keys[e] != KeyView::Index(k as i64) by {
            assert(keys[e] == entries[e].0);
        }
        assert(is_first(keys, k, k - 1));
    }
    assert forall|j: int| 0 <= j < keys.len() implies (#[trigger] keys[j] matches KeyView::Index(
        i,
    ) && 1 <= i <= keys.len()) by {
        assert(keys[j] == entries[j].0);
    }
    if m > 0 {
        lemma_sequence_forms(entries, (m - 1) as nat);
        assert(keys[m - 1] == entries[m - 1].0);
        assert forall|e: int| 0 <= e < m - 1 implies keys[e] != KeyView::Index(m as i64) by {
            assert(keys[e] == entries[e].0);
        }
        lemma_position(keys, m as int, m - 1);
        assert(to_json(entries[m - 1].1) is Ok);
        assert(forms_of(entries).take(m as int) =~= forms_of(entries).take(m - 1).push(
            to_json(entries[m - 1].1)->Ok_0,
        ));
    } else {
        assert(forms_of(entries).take(0) =~= Seq::<Value>::empty());
    }
}

/// A table with string keys only is an object, and its first `m` fields are
/// the forms of its first `m` entries.
proof fn lemma_named_forms(entries: Seq<(KeyView, LuaView)>, m: nat)
    requires
        m <= entries.len(),
        forall|i: int| 0 <= i < entries.len() ==> (#[trigger] entries[i]).0 is Name,
        forall|i: int| 0 <= i < entries.len() ==> to_json((#[trigger] entries[i]).1) is Ok,
    ensures
        !is_sequence(keys_of(entries)),
        object_fields(entries, m) == Ok::<Seq<(Seq<char>, Value)>, MarshalError>(
            named_forms_of(entries).take(m as int),
        ),
    decreases m,
{
    let keys = keys_of(entries);
    if entries.len() > 0 {
        assert(keys[0] == entries[0].0);
        assert(keys[0] is Name);
    }
    if m > 0 {
        lemma_named_forms(entries, (m - 1) as nat);
        assert(entries[m - 1].0 is Name);
        assert(to_json(entries[m - 1].1) is Ok);
        assert(named_forms_of(entries).take(m as int) =~= named_forms_of(entries).take(
            m - 1,
        ).push((entries[m - 1].0->Name_0, to_json(entries[m - 1].1)->Ok_0)));
    } else {
        assert(named_forms_of(entries).take(0) =~= Seq::<(Seq<char>, Value)>::empty());
    }
}

/// The table entries for the items that a table with the keys one to its
/// length stands for are the entries of that table.
proof fn lemma_array_entries_back(entries: Seq<(KeyView, LuaView)>, items: Seq<Value>, m: nat)
    requires
        m <= entries.len(),
        items.len() == entries.len(),
        entries.len() <= i64::MAX,
        forall|i: int|
            0 <= i < entries.len() ==> (#[trigger] entries[i]).0 == KeyView::Index((i + 1) as i64),
        forall|i: int|
            0 <= i < entries.len() ==> !(#[trigger] items[i] is Null) && to_lua(items[i])
                == entries[i].1,
    ensures
        array_entries(items, m) == entries.take(m as int),
    decreases m,
{
    if m > 0 {
        lemma_array_entries_back(entries, items, (m - 1) as nat);
        assert(entries[m - 1].0 == KeyView::Index(m as i64));
        assert(entries.take(m as int) =~= entries.take(m - 1).push(entries[m - 1]));
    } else {
        assert(entries.take(0) =~= Seq::<(KeyView, LuaView)>::empty());
    }
}

/// The table entries for the fields that a table with string keys stands
/// for are the entries of that table.
proof fn lemma_object_entries_back(
    entries: Seq<(KeyView, LuaView)>,
    fields: Seq<(Seq<char>, Value)>,
    m: nat,
)
    requires
        m <= entries.len(),
        fields.len() == entries.len(),
        forall|i: int|
            0 <= i < entries.len() ==> (#[trigger] entries[i]).0 == KeyView::Name(fields[i].0),
        forall|i: int|
            0 <= i < entries.len() ==> !((#[trigger] fields[i]).1 is Null) && to_lua(fields[i].1)
                == entries[i].1,
    ensures
        object_entries(fields, m) == entries.take(m as int),
    decreases m,
{
    if m > 0 {
        lemma_object_entries_back(entries, fields, (m - 1) as nat);
        assert(entries[m - 1].0 == KeyView::Name(fields[m - 1].0));
        assert(entries.take(m as int) =~= entries.take(m - 1).push(entries[m - 1]));
    } else {
        assert(entries.take(0) =~= Seq::<(KeyView, LuaView)>::empty());
    }
}

/// A canonical script value that is handed to the host and taken back is the
/// value it was.
pub proof fn lemma_script_round_trip(l: LuaView)
    requires
        canonical(l),
    ensures
        to_json(l) is Ok,
        to_lua(to_json(l)->Ok_0) == l,
        l is Nil <==> to_json(l)->Ok_0 is Null,
    decreases l,
{
    match l {
        LuaView::Table(entries) => {
            assert forall|i: int| 0 <= i < entries.len() implies to_json(
                (#[trigger] entries[i]).1,
            ) is Ok && to_lua(to_json(entries[i].1)->Ok_0) == entries[i].1 && !(to_json(
                entries[i].1,
            )->Ok_0 is Null) by {
                lemma_script_round_trip(entries[i].1);
            }
            if 1 <= entries.len() <= i64::MAX && forall|i: int|
                0 <= i < entries.len() ==> (#[trigger] entries[i]).0 == KeyView::Index(
                    (i + 1) as i64,
                ) {
                lemma_sequence_forms(entries, entries.len());
                let items = forms_of(entries);
                assert(items.take(entries.len() as int) =~= items);
                lemma_array_entries_back(entries, items, entries.len());
                assert(entries.take(entries.len() as int) =~= entries);
            } else {
                lemma_named_forms(entries, entries.len());
                let fields = named_forms_of(entries);
                assert(fields.take(entries.len() as int) =~= fields);
                assert forall|i: int| 0 <= i < entries.len() implies (#[trigger] entries[i]).0
                    == KeyView::Name(fields[i].0) by {
                    assert(entries[i].0 is Name);
                }
                lemma_object_entries_back(entries, fields, entries.len());
                assert(entries.take(entries.len() as int) =~= entries);
            }
        },
        _ => {},
    }
}

/// The script values that come back from the host as they were but for the
/// order in which a table is walked: every number in them is finite, nothing
/// in them is a function, no table holds nil or holds a key twice, and the
/// keys of every table are either the integers from one up to their number,
/// in any order, or strings only.
pub open spec fn regular(l: LuaView) -> bool
    decreases l,
{
    match l {
        LuaView::Number(n) => is_finite_bits(n),
        LuaView::Other => false,
        LuaView::Table(entries) => {
            &&& forall|i: int|
                0 <= i < entries.len() ==> !((#[trigger] entries[i]).1 is Nil) && regular(
                    entries[i].1,
                )
            &&& forall|i: int, j: int|
                0 <= i < j < entries.len() ==> (#[trigger] entries[i]).0 != (#[trigger] entries[j]).0
            &&& {
                ||| is_sequence(keys_of(entries))
                ||| forall|i: int| 0 <= i < entries.len() ==> (#[trigger] entries[i]).0 is Name
            }
        },
        _ => true,
    }
}

/// Whether `a` and `b` are the same script value but for the order in which
/// their tables are walked: they are equal, or they are tables with as many
/// entries, and each holds under every key of the other a value that is the
/// same in this sense.
pub open spec fn alike(a: LuaView, b: LuaView) -> bool
    decreases a, 1nat,
{
    match a {
        LuaView::Table(x) => match b {
            LuaView::Table(y) => {
                &&& x.len() == y.len()
                &&& forall|i: int| #![trigger x[i]] 0 <= i < x.len() ==> found_in(x[i], y)
                &&& forall|j: int| #![trigger y[j]] 0 <= j < y.len() ==> found_from(a, y[j])
            },
            _ => false,
        },
        _ => a == b,
    }
}

/// Whether the entries `y` hold, under the key of the entry `e`, a value
/// that is the same as that of `e` but for the order in which tables are
/// walked.
pub open spec fn found_in(e: (KeyView, LuaView), y: Seq<(KeyView, LuaView)>) -> bool
    decreases e, 0nat,
{
    exists|j: int| 0 <= j < y.len() && (#[trigger] y[j]).0 == e.0 && alike(e.1, y[j].1)
}

/// Whether the table `a` holds, under the key of the entry `e`, a value that
/// is the same as that of `e` but for the order in which tables are walked.
pub open spec fn found_from(a: LuaView, e: (KeyView, LuaView)) -> bool
    decreases a, 0nat,
{
    match a {
        LuaView::Table(x) => exists|i: int|
            0 <= i < x.len() && (#[trigger] x[i]).0 == e.0 && alike(x[i].1, e.1),
        _ => false,
    }
}

/// The exchange forms of what `entries` hold under the keys one, two and so
/// on, up to their number.
spec fn slot_forms(entries: Seq<(KeyView, LuaView)>) -> Seq<Value> {
    Seq::new(
        entries.len(),
        |i: int| to_json(entries[position(keys_of(entries), i + 1)].1)->Ok_0,
    )
}

/// The first `m` items of a table whose keys are the integers from one up to
/// their number are the forms of what it holds under the keys one to `m`.
proof fn lemma_slot_forms(entries: Seq<(KeyView, LuaView)>, m: nat)
    requires
        m <= entries.len(),
        is_sequence(keys_of(entries)),
        forall|i: int| 0 <= i < entries.len() ==> to_json((#[trigger] entries[i]).1) is Ok,
    ensures
        array_items(entries, m) == Ok::<Seq<Value>, MarshalError>(
            slot_forms(entries).take(m as int),
        ),
    decreases m,
{
    if m > 0 {
        lemma_slot_forms(entries, (m - 1) as nat);
        let keys = keys_of(entries);
        assert(has_key(keys, m as int));
        let j = position(keys, m as int);
        assert(is_first(keys, m as int, j));
        assert(to_json(entries[j].1) is Ok);
        assert(slot_forms(entries).take(m as int) =~= slot_forms(entries).take(m - 1).push(
            to_json(entries[j].1)->Ok_0,
        ));
    } else {
        assert(slot_forms(entries).take(0) =~= Seq::<Value>::empty());
    }
}

/// Two tables with as many entries are the same but for the order in which
/// they are walked where each entry of the one has the key of the entry of
/// the other at its place, and a value that is the same in that sense.
proof fn lemma_alike_in_place(back: Seq<(KeyView, LuaView)>, entries: Seq<(KeyView, LuaView)>)
    requires
        back.len() == entries.len(),
        forall|i: int|
            0 <= i < back.len() ==> (#[trigger] back[i]).0 == entries[i].0 && alike(
                back[i].1,
                entries[i].1,
            ),
    ensures
        alike(LuaView::Table(back), LuaView::Table(entries)),
{
    assert forall|i: int| 0 <= i < back.len() implies found_in(#[trigger] back[i], entries) by {
        assert(0 <= i < entries.len() && entries[i].0 == back[i].0 && alike(
            back[i].1,
            entries[i].1,
        ));
    }
    assert forall|j: int| 0 <= j < entries.len() implies found_from(
        LuaView::Table(back),
        #[trigger] entries[j],
    ) by {
        let x = LuaView::Table(back)->Table_0;
        assert(0 <= j < x.len() && x[j].0 == entries[j].0 && alike(x[j].1, entries[j].1));
    }
}

/// A table that holds under the keys one, two and so on what another holds
/// under them, in whatever order the other is walked, is the same table but
/// for that order.
proof fn lemma_alike_slots(back: Seq<(KeyView, LuaView)>, entries: Seq<(KeyView, LuaView)>)
    requires
        back.len() == entries.len(),
        is_sequence(keys_of(entries)),
        forall|i: int, j: int|
            0 <= i < j < entries.len() ==> (#[trigger] entries[i]).0 != (#[trigger] entries[j]).0,
        forall|i: int|
            0 <= i < back.len() ==> (#[trigger] back[i]).0 == KeyView::Index((i + 1) as i64)
                && alike(back[i].1, entries[position(keys_of(entries), i + 1)].1),
    ensures
        alike(LuaView::Table(back), LuaView::Table(entries)),
{
    let keys = keys_of(entries);
    assert forall|i: int| 0 <= i < back.len() implies found_in(#[trigger] back[i], entries) by {
        assert(has_key(keys, i + 1));
        let j = position(keys, i + 1);
        assert(is_first(keys, i + 1, j));
        assert(keys[j] == entries[j].0);
        assert(0 <= j < entries.len() && entries[j].0 == back[i].0 && alike(
            back[i].1,
            entries[j].1,
        ));
    }
    assert forall|j: int| 0 <= j < entries.len() implies found_from(
        LuaView::Table(back),
        #[trigger] entries[j],
    ) by {
        assert(keys[j] == entries[j].0);
        let k = keys[j]->Index_0;
        assert(1 <= k <= keys.len());
        assert forall|e: int| 0 <= e < j implies keys[e] != KeyView::Index(k) by {
            assert(keys[e] == entries[e].0);
            assert(entries[e].0 != entries[j].0);
        }
        assert(is_first(keys, k as int, j));
        lemma_position(keys, k as int, j);
        let i = k - 1;
        let x = LuaView::Table(back)->Table_0;
        assert(0 <= i < x.len() && x[i].0 == entries[j].0 && alike(x[i].1, entries[j].1));
    }
}

/// A regular script value that is handed to the host and taken back is the
/// value it was, but for the order in which its tables are walked.
pub proof fn lemma_script_round_trip_in_any_order(l: LuaView)
    requires
        regular(l),
    ensures
        to_json(l) is Ok,
        alike(to_lua(to_json(l)->Ok_0), l),
        l is Nil <==> to_json(l)->Ok_0 is Null,
    decreases l,
{
    match l {
        LuaView::Table(entries) => {
            let keys = keys_of(entries);
            assert forall|i: int| 0 <= i < entries.len() implies to_json(
                (#[trigger] entries[i]).1,
            ) is Ok && alike(to_lua(to_json(entries[i].1)->Ok_0), entries[i].1) && !(to_json(
                entries[i].1,
            )->Ok_0 is Null) by {
                lemma_script_round_trip_in_any_order(entries[i].1);
            }
            if is_sequence(keys) {
                lemma_slot_forms(entries, entries.len());
                let items = slot_forms(entries);
                assert(items.take(entries.len() as int) =~= items);
                assert forall|i: int| 0 <= i < items.len() implies !(#[trigger] items[i] is Null)
                    && alike(to_lua(items[i]), entries[position(keys, i + 1)].1) by {
                    assert(has_key(keys, i + 1));
                    let j = position(keys, i + 1);
                    assert(is_first(keys, i + 1, j));
                    assert(!(to_json(entries[j].1)->Ok_0 is Null));
                }
                lemma_array_entries(items, items.len());
                let back = array_entries(items, items.len());
                assert(to_lua(to_json(l)->Ok_0) == LuaView::Table(back));
                assert forall|i: int| 0 <= i < back.len() implies (#[trigger] back[i]).0
                    == KeyView::Index((i + 1) as i64) && alike(
                    back[i].1,
                    entries[position(keys_of(entries), i + 1)].1,
                ) by {
                    assert(back[i] == (KeyView::Index((i + 1) as i64), to_lua(items[i])));
                    assert(!(items[i] is Null));
                }
                lemma_alike_slots(back, entries);
            } else {
                lemma_named_forms(entries, entries.len());
                let fields = named_forms_of(entries);
                assert(fields.take(entries.len() as int) =~= fields);
                lemma_object_entries(fields, fields.len());
                let back = object_entries(fields, fields.len());
                assert(to_lua(to_json(l)->Ok_0) == LuaView::Table(back));
                assert forall|i: int| 0 <= i < back.len() implies (#[trigger] back[i]).0
                    == entries[i].0 && alike(back[i].1, entries[i].1) by {
                    assert(entries[i].0 is Name);
                    assert(back[i] == (KeyView::Name(fields[i].0), to_lua(fields[i].1)));
                    assert(alike(to_lua(to_json(entries[i].1)->Ok_0), entries[i].1));
                }
                lemma_alike_in_place(back, entries);
            }
        },
        _ => {},
    }
}

/// The name of the type of `v`, as error messages give it.
pub open spec fn kind_name_of(v: Value) -> Seq<char> {
    match v {
        Value::Null => "nil"@,
        Value::Bool(_) => "boolean"@,
        Value::Int(_) => "integer"@,
        Value::Float(_) => "number"@,
        Value::String(_) => "string"@,
        Value::Array(_) => "array"@,
        Value::Object(_) => "object"@,
    }
}

impl ScriptValue {
    /// The name of the type of this value, as error messages give it.
    pub fn kind_name(&self) -> (out: &'static str)
        ensures
            out@ == kind_name_of(self@),
    {
        match self {
            ScriptValue::Null => "nil",
            ScriptValue::Bool(_) => "boolean",
            ScriptValue::Int(_) => "integer",
            ScriptValue::Float(_) => "number",
            ScriptValue::String(_) => "string",
            ScriptValue::Array(_) => "array",
            ScriptValue::Object(_) => "object",
        }
    }

    /// A copy of this value.
    pub fn duplicate(&self) -> (out: ScriptValue)
        ensures
            out@ == self@,
        decreases self,
    {
        match self {
            ScriptValue::Null => ScriptValue::Null,
            ScriptValue::Bool(b) => ScriptValue::Bool(*b),
            ScriptValue::Int(i) => ScriptValue::Int(*i),
            ScriptValue::Float(f) => ScriptValue::Float(*f),
            ScriptValue::String(s) => ScriptValue::String(s.clone()),
            ScriptValue::Array(items) => {
                let mut copies: Vec<ScriptValue> = Vec::new();
                let mut i: usize = 0;
                while i < items.len()
                    invariant
                        i <= items.len(),
                        decreases_to!(self => *items),
                        copies@.len() == i,
                        forall|e: int| 0 <= e < i ==> #[trigger] copies@[e]@ == items@[e]@,
                    decreases items.len() - i,
                {
                    assert(decreases_to!(*items => items[i as int]));
                    copies.push(items[i].duplicate());
                    i += 1;
                }
                proof {
                    lemma_values_of(items@, items@.len());
                    lemma_values_of(copies@, copies@.len());
                    assert(value_views(copies@) =~= value_views(items@));
                }
                ScriptValue::Array(copies)
            },
            ScriptValue::Object(fields) => {
                let mut copies: Vec<(String, ScriptValue)> = Vec::new();
                let mut i: usize = 0;
                while i < fields.len()
                    invariant
                        i <= fields.len(),
                        decreases_to!(self => *fields),
                        copies@.len() == i,
                        forall|e: int|
                            0 <= e < i ==> (#[trigger] copies@[e]).0@ == fields@[e].0@
                                && copies@[e].1@ == fields@[e].1@,
                    decreases fields.len() - i,
                {
                    assert(decreases_to!(*fields => fields[i as int]));
                    assert(decreases_to!(fields[i as int] => fields[i as int].1));
                    copies.push((fields[i].0.clone(), fields[i].1.duplicate()));
                    i += 1;
                }
                proof {
                    lemma_fields_of(fields@, fields@.len());
                    lemma_fields_of(copies@, copies@.len());
                    assert(field_views(copies@) =~= field_views(fields@));
                }
                ScriptValue::Object(copies)
            },
        }
    }
}

/// A copy of `items`.
pub fn duplicate_values(items: &Vec<ScriptValue>) -> (out: Vec<ScriptValue>)
    ensures
        value_views(out@) == value_views(items@),
{
    let mut copies: Vec<ScriptValue> = Vec::new();
    let mut i: usize = 0;
    while i < items.len()
        invariant
            i <= items.len(),
            copies@.len() == i,
            forall|e: int| 0 <= e < i ==> #[trigger] copies@[e]@ == items@[e]@,
        decreases items.len() - i,
    {
        copies.push(items[i].duplicate());
        i += 1;
    }
    proof {
        lemma_values_of(items@, items@.len());
        lemma_values_of(copies@, copies@.len());
        assert(value_views(copies@) =~= value_views(items@));
    }
    copies
}

/// The views of a list with one more value are the views of the list with
/// one more view.
pub proof fn lemma_value_views_push(items: Seq<ScriptValue>, last: ScriptValue)
    ensures
        value_views(items.push(last)) == value_views(items).push(last@),
{
    lemma_values_of(items, items.len());
    lemma_values_of(items.push(last), items.len() + 1);
    assert(value_views(items.push(last)) =~= value_views(items).push(last@));
}

/// The views of a list with one more field are the views of the list with
/// one more view.
pub proof fn lemma_field_views_push(fields: Seq<(String, ScriptValue)>, last: (String, ScriptValue))
    ensures
        field_views(fields.push(last)) == field_views(fields).push((last.0@, last.1@)),
{
    lemma_fields_of(fields, fields.len());
    lemma_fields_of(fields.push(last), fields.len() + 1);
    assert(field_views(fields.push(last)) =~= field_views(fields).push((last.0@, last.1@)));
}

/// The views of the items of a list, each at its place.
pub proof fn lemma_value_views(items: Seq<ScriptValue>)
    ensures
        value_views(items).len() == items.len(),
        forall|i: int| 0 <= i < items.len() ==> #[trigger] value_views(items)[i] == items[i]@,
{
    lemma_values_of(items, items.len());
}

/// The view of an array is the array of its items' views.
pub proof fn lemma_array_view(items: Vec<ScriptValue>)
    ensures
        ScriptValue::Array(items)@ == Value::Array(value_views(items@)),
{
}

/// The view of an object is the object of its fields' views.
pub proof fn lemma_object_view(fields: Vec<(String, ScriptValue)>)
    ensures
        ScriptValue::Object(fields)@ == Value::Object(field_views(fields@)),
{
}

} // verus!
