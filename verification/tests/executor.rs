use liath::auth::AuthManager;
use liath::effect::{Effect, Event, Stage, Step, Suspended};
use liath::catalog::CatalogFunction;
use liath::errors::{RuntimeError, RuntimeErrorType};
use liath::executor::{authorize, begin, begin_call};
use liath::local::perform_local;
use liath::namespace::{MetricKind, NamespaceManager, ScalarKind};
use liath::resume::{make_content_key, make_index_key, make_meta_key, resume};
use liath::value::ScriptValue;
use std::cell::RefCell;
use std::collections::BTreeMap;

type Store = RefCell<BTreeMap<String, String>>;
type Index = RefCell<Vec<(u64, Vec<f64>)>>;

/// The world outside the executor, kept in memory: what a caller of the
/// library puts behind the effects.
struct World {
    auth: AuthManager,
    namespaces: NamespaceManager<Store, Index>,
    embeddings: Vec<(String, Vec<f64>)>,
    clock: (i64, i64),
    fail_next: Option<&'static str>,
    performed: Vec<String>,
}

fn s(t: &str) -> ScriptValue {
    ScriptValue::String(t.to_string())
}

fn whole(i: i64) -> ScriptValue {
    ScriptValue::Int(i)
}

fn num(x: f64) -> ScriptValue {
    ScriptValue::Float(x.to_bits())
}

fn vector(xs: &[f64]) -> ScriptValue {
    ScriptValue::Array(xs.iter().map(|x| num(*x)).collect())
}

fn as_float(v: &ScriptValue) -> f64 {
    match v {
        ScriptValue::Int(i) => *i as f64,
        ScriptValue::Float(bits) => f64::from_bits(*bits),
        other => panic!("no number: {:?}", other),
    }
}

fn to_json(v: &ScriptValue) -> serde_json::Value {
    match v {
        ScriptValue::Null => serde_json::Value::Null,
        ScriptValue::Bool(b) => serde_json::Value::Bool(*b),
        ScriptValue::Int(i) => serde_json::Value::from(*i),
        ScriptValue::Float(bits) => serde_json::Value::from(f64::from_bits(*bits)),
        ScriptValue::String(t) => serde_json::Value::String(t.clone()),
        ScriptValue::Array(items) => serde_json::Value::Array(items.iter().map(to_json).collect()),
        ScriptValue::Object(fields) => {
            let mut map = serde_json::Map::new();
            for (k, v) in fields {
                map.insert(k.clone(), to_json(v));
            }
            serde_json::Value::Object(map)
        }
    }
}

fn from_json(v: &serde_json::Value) -> ScriptValue {
    match v {
        serde_json::Value::Null => ScriptValue::Null,
        serde_json::Value::Bool(b) => ScriptValue::Bool(*b),
        serde_json::Value::Number(n) => match n.as_i64() {
            Some(i) => ScriptValue::Int(i),
            None => ScriptValue::Float(n.as_f64().unwrap().to_bits()),
        },
        serde_json::Value::String(t) => ScriptValue::String(t.clone()),
        serde_json::Value::Array(items) => ScriptValue::Array(items.iter().map(from_json).collect()),
        serde_json::Value::Object(map) => {
            ScriptValue::Object(map.iter().map(|(k, v)| (k.clone(), from_json(v))).collect())
        }
    }
}

impl World {
    fn new() -> World {
        let mut auth = AuthManager::new();
        let all: Vec<String> = CatalogFunction::all()
            .iter()
            .map(|f| f.name().to_string())
            .collect();
        auth.add_user("admin", all);
        auth.add_user("reader", vec!["get".to_string(), "scan".to_string()]);
        World {
            auth,
            namespaces: NamespaceManager::new(),
            embeddings: Vec::new(),
            clock: (1_700_000_000, 1_700_000_000_123_456_789),
            fail_next: None,
            performed: Vec::new(),
        }
    }

    fn distance(metric: MetricKind, a: &[f64], b: &[f64]) -> f64 {
        match metric {
            MetricKind::Cos => {
                let dot: f64 = a.iter().zip(b).map(|(x, y)| x * y).sum();
                let na: f64 = a.iter().map(|x| x * x).sum::<f64>().sqrt();
                let nb: f64 = b.iter().map(|x| x * x).sum::<f64>().sqrt();
                1.0 - dot / (na * nb)
            }
            MetricKind::L2sq => a.iter().zip(b).map(|(x, y)| (x - y) * (x - y)).sum(),
        }
    }

    fn perform(&mut self, effect: Effect) -> Event {
        self.performed.push(format!("{:?}", effect).split(' ').next().unwrap().to_string());
        if let Some(reason) = self.fail_next.take() {
            return Event::Failed(reason.to_string());
        }
        let done = Event::Reply(ScriptValue::Null);
        match effect {
            Effect::CreateNamespace { name, dimensions, metric, scalar } => {
                self.namespaces
                    .create_namespace(
                        &name,
                        dimensions,
                        metric,
                        scalar,
                        RefCell::new(BTreeMap::new()),
                        RefCell::new(Vec::new()),
                    )
                    .unwrap();
                done
            }
            Effect::DeleteNamespace { name } => {
                let _ = self.namespaces.delete_namespace(&name);
                done
            }
            Effect::KvGet { namespace, key } => {
                let ns = self.namespaces.get_namespace(&namespace).unwrap();
                let found = ns.db.borrow().get(&key).cloned();
                Event::Reply(found.map(ScriptValue::String).unwrap_or(ScriptValue::Null))
            }
            Effect::KvGetMany { namespace, keys } => {
                let ns = self.namespaces.get_namespace(&namespace).unwrap();
                let db = ns.db.borrow();
                Event::Reply(ScriptValue::Array(
                    keys.iter()
                        .map(|k| match k.as_ref().and_then(|k| db.get(k)) {
                            Some(v) => ScriptValue::String(v.clone()),
                            None => ScriptValue::Null,
                        })
                        .collect(),
                ))
            }
            Effect::KvPut { namespace, key, value } => {
                let ns = self.namespaces.get_namespace(&namespace).unwrap();
                ns.db.borrow_mut().insert(key, value);
                done
            }
            Effect::KvDelete { namespace, key } => {
                let ns = self.namespaces.get_namespace(&namespace).unwrap();
                ns.db.borrow_mut().remove(&key);
                done
            }
            Effect::KvBatchPut { namespace, items } => {
                let ns = self.namespaces.get_namespace(&namespace).unwrap();
                for (k, v) in items {
                    ns.db.borrow_mut().insert(k, v);
                }
                done
            }
            Effect::KvScan { namespace, prefix: _ } => {
                // hands back everything: the executor picks what begins with the prefix
                let ns = self.namespaces.get_namespace(&namespace).unwrap();
                let db = ns.db.borrow();
                Event::Reply(ScriptValue::Array(
                    db.iter()
                        .map(|(k, v)| ScriptValue::Array(vec![s(k), s(v)]))
                        .collect(),
                ))
            }
            Effect::VectorAdd { namespace, id, vector } => {
                let ns = self.namespaces.get_namespace(&namespace).unwrap();
                ns.vector_db
                    .borrow_mut()
                    .push((id, vector.iter().map(as_float).collect()));
                done
            }
            Effect::VectorSearch { namespace, vector, k } => {
                let ns = self.namespaces.get_namespace(&namespace).unwrap();
                let query: Vec<f64> = vector.iter().map(as_float).collect();
                let mut hits: Vec<(u64, f64)> = ns
                    .vector_db
                    .borrow()
                    .iter()
                    .map(|(id, v)| (*id, World::distance(ns.metric, &query, v)))
                    .collect();
                hits.sort_by(|a, b| a.1.partial_cmp(&b.1).unwrap());
                hits.truncate(k);
                Event::Reply(ScriptValue::Array(
                    hits.iter()
                        .map(|(id, d)| ScriptValue::Array(vec![whole(*id as i64), num(*d)]))
                        .collect(),
                ))
            }
            Effect::Embed { texts } => {
                let mut vectors = Vec::new();
                for t in &texts {
                    match self.embeddings.iter().find(|(known, _)| known == t) {
                        Some((_, v)) => vectors.push(vector(v)),
                        None => return Event::Failed(format!("no embedding for '{}'", t)),
                    }
                }
                Event::Reply(ScriptValue::Array(vectors))
            }
            Effect::JsonEncode { value } => {
                Event::Reply(ScriptValue::String(serde_json::to_string(&to_json(&value)).unwrap()))
            }
            Effect::JsonDecode { text } => match serde_json::from_str::<serde_json::Value>(&text) {
                Ok(v) => Event::Reply(from_json(&v)),
                Err(e) => Event::Failed(e.to_string()),
            },
            Effect::JsonDecodeMany { texts } => Event::Reply(ScriptValue::Array(
                texts
                    .iter()
                    .map(|t| {
                        match t
                            .as_ref()
                            .and_then(|t| serde_json::from_str::<serde_json::Value>(t).ok())
                        {
                            Some(v) => from_json(&v),
                            None => ScriptValue::Null,
                        }
                    })
                    .collect(),
            )),
            Effect::SaveAll => done,
            Effect::FreshUuid => unreachable!("performed on the spot"),
            Effect::Clock => {
                Event::Reply(ScriptValue::Array(vec![whole(self.clock.0), whole(self.clock.1)]))
            }
            Effect::Sleep { millis: _ } => done,
        }
    }

    fn call(
        &mut self,
        principal: &str,
        function: &str,
        args: Vec<ScriptValue>,
    ) -> Result<ScriptValue, RuntimeError> {
        let mut step = begin(&self.auth, &self.namespaces, principal, function, &args);
        loop {
            match step {
                Step::Perform(suspended, effect) => {
                    let event = match perform_local(&effect) {
                        Some(event) => event,
                        None => self.perform(effect),
                    };
                    step = resume(suspended, event);
                }
                Step::Return(value) => return Ok(value),
                Step::Raise(error) => return Err(error),
            }
        }
    }

    fn with_docs() -> World {
        let mut world = World::new();
        world
            .call("admin", "create_namespace", vec![s("docs"), whole(3), s("cosine"), s("f32")])
            .unwrap();
        world.embeddings = vec![
            ("text a".to_string(), vec![1.0, 0.0, 0.0]),
            ("text b".to_string(), vec![0.0, 1.0, 0.0]),
            ("query".to_string(), vec![0.9, 0.1, 0.0]),
        ];
        world
    }
}

fn field<'a>(value: &'a ScriptValue, name: &str) -> Option<&'a ScriptValue> {
    match value {
        ScriptValue::Object(fields) => fields.iter().find(|(k, _)| k == name).map(|(_, v)| v),
        _ => None,
    }
}

#[test]
fn semantic_search_finds_the_nearest_document_with_its_text() {
    let mut world = World::with_docs();
    assert_eq!(
        world.call("admin", "store_document", vec![s("docs"), whole(1), s("a"), s("text a")]),
        Ok(whole(1))
    );
    assert_eq!(
        world.call("admin", "store_document", vec![s("docs"), whole(2), s("b"), s("text b")]),
        Ok(whole(2))
    );
    let found = world
        .call("admin", "semantic_search", vec![s("docs"), s("query"), whole(1)])
        .unwrap();
    let hits = match found {
        ScriptValue::Array(hits) => hits,
        other => panic!("no array: {:?}", other),
    };
    assert_eq!(hits.len(), 1);
    assert_eq!(field(&hits[0], "id"), Some(&whole(1)));
    assert_eq!(field(&hits[0], "content"), Some(&s("text a")));
    assert_eq!(field(&hits[0], "key"), Some(&s("a")));
    assert!(as_float(field(&hits[0], "distance").unwrap()) < 0.01);
    // the way back from the vector to the key is kept beside the text
    assert_eq!(
        world.call("admin", "get", vec![s("docs"), s("_vidx:1")]),
        Ok(s("a"))
    );
    assert_eq!(world.call("admin", "get", vec![s("docs"), s("a")]), Ok(s("text a")));
}

#[test]
fn semantic_search_returns_hits_without_text_as_they_are() {
    let mut world = World::with_docs();
    world
        .call("admin", "add_vector", vec![s("docs"), whole(9), vector(&[1.0, 0.0, 0.0])])
        .unwrap();
    world
        .call("admin", "store_document", vec![s("docs"), whole(2), s("b"), s("text b")])
        .unwrap();
    world.call("admin", "delete", vec![s("docs"), s("b")]).unwrap();
    let found = world
        .call("admin", "semantic_search", vec![s("docs"), s("query"), whole(5)])
        .unwrap();
    let hits = match found {
        ScriptValue::Array(hits) => hits,
        other => panic!("no array: {:?}", other),
    };
    assert_eq!(hits.len(), 2);
    assert_eq!(field(&hits[0], "id"), Some(&whole(9)));
    assert_eq!(field(&hits[0], "content"), None);
    assert_eq!(field(&hits[1], "id"), Some(&whole(2)));
    assert_eq!(field(&hits[1], "content"), None);
    assert_eq!(field(&hits[1], "key"), None);
}

#[test]
fn put_get_delete() {
    let mut world = World::with_docs();
    assert_eq!(world.call("admin", "get", vec![s("docs"), s("k")]), Ok(ScriptValue::Null));
    assert_eq!(
        world.call("admin", "put", vec![s("docs"), s("k"), s("v")]),
        Ok(ScriptValue::Null)
    );
    assert_eq!(world.call("admin", "get", vec![s("docs"), s("k")]), Ok(s("v")));
    world.call("admin", "put", vec![s("docs"), s("k"), s("w")]).unwrap();
    assert_eq!(world.call("admin", "get", vec![s("docs"), s("k")]), Ok(s("w")));
    assert_eq!(
        world.call("admin", "delete", vec![s("docs"), s("k")]),
        Ok(ScriptValue::Null)
    );
    assert_eq!(world.call("admin", "get", vec![s("docs"), s("k")]), Ok(ScriptValue::Null));
    // the empty key and the empty value are a key and a value
    world.call("admin", "put", vec![s("docs"), s(""), s("")]).unwrap();
    assert_eq!(world.call("admin", "get", vec![s("docs"), s("")]), Ok(s("")));
}

#[test]
fn every_call_is_checked_against_the_permissions_of_the_moment() {
    let mut world = World::with_docs();
    world.call("admin", "put", vec![s("docs"), s("k"), s("v")]).unwrap();
    assert_eq!(world.call("reader", "get", vec![s("docs"), s("k")]), Ok(s("v")));
    let denied = world
        .call("reader", "put", vec![s("docs"), s("k"), s("x")])
        .unwrap_err();
    assert_eq!(denied.message, "User 'reader' is not authorized to call 'put'");
    assert!(matches!(
        denied.error_type,
        RuntimeErrorType::AuthorizationDenied { ref function, ref user }
            if function == "put" && user == "reader"
    ));
    assert_eq!(world.call("admin", "get", vec![s("docs"), s("k")]), Ok(s("v")));
    // nobody was asked to do anything for the call that was denied
    let before = world.performed.len();
    let _ = world.call("reader", "delete_namespace", vec![s("docs")]);
    assert_eq!(world.performed.len(), before);
    // a permission that is taken away counts from the next call on
    world.auth.remove_permission("reader", "get").unwrap();
    assert!(world.call("reader", "get", vec![s("docs"), s("k")]).is_err());
    world.auth.add_permission("reader", "get".to_string()).unwrap();
    assert!(world.call("reader", "get", vec![s("docs"), s("k")]).is_ok());
    // a principal that was never added may call nothing, not even what needs no store
    for function in CatalogFunction::all() {
        let error = world.call("stranger", function.name(), vec![]).unwrap_err();
        assert!(matches!(
            error.error_type,
            RuntimeErrorType::AuthorizationDenied { .. }
        ));
    }
    assert!(authorize(&world.auth, "admin", "get").is_none());
    assert!(authorize(&world.auth, "stranger", "get").is_some());
}

#[test]
fn namespaces_through_calls() {
    let mut world = World::new();
    assert_eq!(
        world.call("admin", "list_namespaces", vec![]),
        Ok(ScriptValue::Array(vec![]))
    );
    assert_eq!(
        world.call("admin", "namespace_exists", vec![s("a")]),
        Ok(ScriptValue::Bool(false))
    );
    world
        .call("admin", "create_namespace", vec![s("a"), whole(2), s("euclidean"), s("f16")])
        .unwrap();
    world
        .call("admin", "create_namespace", vec![s("b"), whole(4), s("cosine"), s("f32")])
        .unwrap();
    assert_eq!(
        world.call("admin", "namespace_exists", vec![s("a")]),
        Ok(ScriptValue::Bool(true))
    );
    assert_eq!(
        world.call("admin", "list_namespaces", vec![]),
        Ok(ScriptValue::Array(vec![s("a"), s("b")]))
    );
    let ns = world.namespaces.get_namespace("a").unwrap();
    assert_eq!((ns.dimensions, ns.metric, ns.scalar), (2, MetricKind::L2sq, ScalarKind::F16));
    let again = world
        .call("admin", "create_namespace", vec![s("a"), whole(9), s("cosine"), s("f32")])
        .unwrap_err();
    assert_eq!(
        again.message,
        "Failed to create namespace: Namespace 'a' already exists"
    );
    assert_eq!(world.namespaces.get_namespace("a").unwrap().dimensions, 2);
    let bad = world
        .call("admin", "create_namespace", vec![s("c"), whole(9), s("Cos"), s("f32")])
        .unwrap_err();
    assert_eq!(bad.message, "Invalid metric kind");
    let bad = world
        .call("admin", "create_namespace", vec![s("c"), whole(9), s("cosine"), s("f64")])
        .unwrap_err();
    assert_eq!(bad.message, "Invalid scalar kind");
    world.call("admin", "delete_namespace", vec![s("a")]).unwrap();
    let gone = world.call("admin", "get", vec![s("a"), s("k")]).unwrap_err();
    assert_eq!(gone.message, "Namespace 'a' not found");
    assert_eq!(
        gone.suggestion,
        "Available namespaces: b. Use one of these or create 'a'."
    );
    let gone = world.call("admin", "delete_namespace", vec![s("a")]).unwrap_err();
    assert!(matches!(
        gone.error_type,
        RuntimeErrorType::NamespaceNotFound { ref namespace, ref available }
            if namespace == "a" && available == &vec!["b".to_string()]
    ));
}

#[test]
fn arguments_of_the_wrong_type_are_type_errors() {
    let mut world = World::with_docs();
    let e = world.call("admin", "get", vec![s("docs")]).unwrap_err();
    assert_eq!(e.message, "Type error in get: expected string, got nil");
    let e = world.call("admin", "get", vec![whole(1), s("k")]).unwrap_err();
    assert_eq!(e.message, "Type error in get: expected string, got integer");
    let e = world
        .call("admin", "put", vec![s("docs"), s("k"), ScriptValue::Array(vec![])])
        .unwrap_err();
    assert_eq!(e.message, "Type error in put: expected string, got array");
    let e = world
        .call("admin", "add_vector", vec![s("docs"), whole(-1), vector(&[1.0, 0.0, 0.0])])
        .unwrap_err();
    assert_eq!(
        e.message,
        "Type error in add_vector: expected non-negative integer, got integer"
    );
    let e = world
        .call("admin", "add_vector", vec![s("docs"), whole(1), ScriptValue::Array(vec![s("x")])])
        .unwrap_err();
    assert_eq!(
        e.message,
        "Type error in add_vector: expected array of numbers, got array"
    );
    let e = world
        .call("admin", "batch_select", vec![s("docs"), ScriptValue::Array(vec![whole(1)])])
        .unwrap_err();
    assert_eq!(
        e.message,
        "Type error in batch_select: expected array of strings, got array"
    );
    let e = world
        .call("admin", "scan", vec![s("docs"), s(""), s("ten")])
        .unwrap_err();
    assert_eq!(
        e.message,
        "Type error in scan: expected non-negative integer, got string"
    );
    let e = world.call("admin", "sleep", vec![num(1.5)]).unwrap_err();
    assert!(matches!(e.error_type, RuntimeErrorType::TypeError { .. }));
    // the arguments are read before the namespace is looked up
    let e = world.call("admin", "put", vec![s("nowhere"), s("k")]).unwrap_err();
    assert!(matches!(e.error_type, RuntimeErrorType::TypeError { .. }));
    let e = world.call("admin", "frobnicate", vec![]).unwrap_err();
    assert_eq!(e.message, "attempt to call a nil value (global 'frobnicate')");
}

#[test]
fn vectors_must_fit_the_namespace() {
    let mut world = World::with_docs();
    let e = world
        .call("admin", "add_vector", vec![s("docs"), whole(1), vector(&[1.0, 0.0])])
        .unwrap_err();
    assert_eq!(
        e.message,
        "Vector has 2 dimensions, namespace 'docs' expects 3"
    );
    let e = world
        .call("admin", "similarity_search", vec![s("docs"), vector(&[]), whole(1)])
        .unwrap_err();
    assert_eq!(
        e.message,
        "Vector has 0 dimensions, namespace 'docs' expects 3"
    );
    // whole numbers are numbers
    world
        .call(
            "admin",
            "add_vector",
            vec![s("docs"), whole(1), ScriptValue::Array(vec![whole(1), whole(0), num(0.0)])],
        )
        .unwrap();
}

#[test]
fn the_vector_itself_is_its_own_nearest_neighbour() {
    for metric in ["cosine", "euclidean"] {
        let mut world = World::new();
        world
            .call("admin", "create_namespace", vec![s("v"), whole(3), s(metric), s("f32")])
            .unwrap();
        let points: [&[f64]; 4] = [
            &[1.0, 0.0, 0.0],
            &[0.0, 1.0, 0.0],
            &[0.6, 0.8, 0.0],
            &[0.0, 0.0, 2.0],
        ];
        for (i, p) in points.iter().enumerate() {
            world
                .call("admin", "add_vector", vec![s("v"), whole(i as i64 + 10), vector(p)])
                .unwrap();
        }
        for (i, p) in points.iter().enumerate() {
            let found = world
                .call("admin", "similarity_search", vec![s("v"), vector(p), whole(2)])
                .unwrap();
            let hits = match found {
                ScriptValue::Array(hits) => hits,
                other => panic!("no array: {:?}", other),
            };
            assert_eq!(hits.len(), 2);
            assert_eq!(field(&hits[0], "id"), Some(&whole(i as i64 + 10)));
            let nearest = as_float(field(&hits[0], "distance").unwrap());
            let next = as_float(field(&hits[1], "distance").unwrap());
            assert!(nearest.abs() < 1e-9);
            assert!(nearest <= next);
        }
    }
}

#[test]
fn scan_keeps_the_prefix_and_the_limit() {
    let mut world = World::with_docs();
    let items: Vec<ScriptValue> = (0..150)
        .map(|i| {
            ScriptValue::Object(vec![
                ("key".to_string(), s(&format!("user:{:03}", i))),
                ("value".to_string(), s(&format!("v{}", i))),
            ])
        })
        .collect();
    assert_eq!(
        world.call("admin", "batch_put", vec![s("docs"), ScriptValue::Array(items)]),
        Ok(whole(150))
    );
    world.call("admin", "put", vec![s("docs"), s("other"), s("x")]).unwrap();
    let len = |v: ScriptValue| match v {
        ScriptValue::Array(items) => items.len(),
        other => panic!("no array: {:?}", other),
    };
    let all = world.call("admin", "scan", vec![s("docs"), s("user:")]).unwrap();
    assert_eq!(len(all), 100);
    let some = world.call("admin", "scan", vec![s("docs"), s("user:"), whole(7)]).unwrap();
    match &some {
        ScriptValue::Array(items) => {
            assert_eq!(items.len(), 7);
            assert_eq!(field(&items[0], "key"), Some(&s("user:000")));
            assert_eq!(field(&items[0], "value"), Some(&s("v0")));
            assert_eq!(field(&items[6], "key"), Some(&s("user:006")));
        }
        other => panic!("no array: {:?}", other),
    }
    let few = world.call("admin", "scan", vec![s("docs"), s("user:14"), whole(500)]).unwrap();
    assert_eq!(len(few), 10);
    let none = world.call("admin", "scan", vec![s("docs"), s("user:"), whole(0)]).unwrap();
    assert_eq!(len(none), 0);
    let everything = world.call("admin", "scan", vec![s("docs"), s(""), whole(1000)]).unwrap();
    assert_eq!(len(everything), 151);
    let null_limit = world
        .call("admin", "scan", vec![s("docs"), s("o"), ScriptValue::Null])
        .unwrap();
    assert_eq!(len(null_limit), 1);
}

#[test]
fn batch_calls() {
    let mut world = World::with_docs();
    let bad = world
        .call(
            "admin",
            "batch_put",
            vec![
                s("docs"),
                ScriptValue::Array(vec![ScriptValue::Object(vec![("key".to_string(), s("k"))])]),
            ],
        )
        .unwrap_err();
    assert_eq!(
        bad.message,
        "Type error in batch_put: expected array of {key, value}, got array"
    );
    let items = ScriptValue::Array(vec![
        ScriptValue::Object(vec![("key".to_string(), s("a")), ("value".to_string(), s("1"))]),
        ScriptValue::Object(vec![("value".to_string(), s("2")), ("key".to_string(), s("b"))]),
    ]);
    assert_eq!(world.call("admin", "batch_put", vec![s("docs"), items]), Ok(whole(2)));
    let found = world
        .call(
            "admin",
            "batch_select",
            vec![s("docs"), ScriptValue::Array(vec![s("b"), s("missing"), s("a")])],
        )
        .unwrap();
    assert_eq!(
        found,
        ScriptValue::Object(vec![("b".to_string(), s("2")), ("a".to_string(), s("1"))])
    );
    assert_eq!(
        world.call("admin", "batch_select", vec![s("docs"), ScriptValue::Array(vec![])]),
        Ok(ScriptValue::Object(vec![]))
    );
}

#[test]
fn json_calls() {
    let mut world = World::with_docs();
    let value = ScriptValue::Object(vec![
        ("name".to_string(), s("test")),
        ("list".to_string(), ScriptValue::Array(vec![whole(1), num(2.5)])),
    ]);
    let encoded = world.call("admin", "json_encode", vec![value.duplicate()]).unwrap();
    assert_eq!(encoded, s("{\"list\":[1,2.5],\"name\":\"test\"}"));
    let decoded = world.call("admin", "json_decode", vec![encoded]).unwrap();
    assert_eq!(to_json(&decoded), to_json(&value));
    let bad = world.call("admin", "json_decode", vec![s("{")]).unwrap_err();
    assert!(bad.message.starts_with("json_decode: "));
    assert!(matches!(bad.error_type, RuntimeErrorType::LuaError));
    world
        .call("admin", "insert_json", vec![s("docs"), s("j"), value.duplicate()])
        .unwrap();
    assert_eq!(
        world.call("admin", "get", vec![s("docs"), s("j")]),
        Ok(s("{\"list\":[1,2.5],\"name\":\"test\"}"))
    );
    let back = world.call("admin", "select_json", vec![s("docs"), s("j")]).unwrap();
    assert_eq!(to_json(&back), to_json(&value));
    assert_eq!(
        world.call("admin", "select_json", vec![s("docs"), s("none")]),
        Ok(ScriptValue::Null)
    );
    world.call("admin", "put", vec![s("docs"), s("broken"), s("not json")]).unwrap();
    assert!(world.call("admin", "select_json", vec![s("docs"), s("broken")]).is_err());
}

#[test]
fn memories() {
    let mut world = World::with_docs();
    let id = world
        .call(
            "admin",
            "memory_store",
            vec![s("docs"), s("text a"), ScriptValue::Array(vec![s("x"), s("y")])],
        )
        .unwrap();
    assert_eq!(id, whole(1_700_000_000_123_456_789));
    world.clock = (1_700_000_001, 1_700_000_001_000_000_000);
    world.call("admin", "memory_store", vec![s("docs"), s("text b")]).unwrap();
    assert_eq!(
        world.call("admin", "get", vec![s("docs"), s("mem:1700000000123456789:content")]),
        Ok(s("text a"))
    );
    assert_eq!(
        world.call("admin", "get", vec![s("docs"), s("mem:1700000000123456789:meta")]),
        Ok(s("{\"created_at\":1700000000,\"id\":1700000000123456789,\"tags\":[\"x\",\"y\"]}"))
    );
    let recalled = world
        .call("admin", "memory_recall", vec![s("docs"), s("query"), whole(2)])
        .unwrap();
    let hits = match recalled {
        ScriptValue::Array(hits) => hits,
        other => panic!("no array: {:?}", other),
    };
    assert_eq!(hits.len(), 2);
    assert_eq!(field(&hits[0], "id"), Some(&whole(1_700_000_000_123_456_789)));
    assert_eq!(field(&hits[0], "content"), Some(&s("text a")));
    assert_eq!(
        field(&hits[0], "tags"),
        Some(&ScriptValue::Array(vec![s("x"), s("y")]))
    );
    assert_eq!(field(&hits[0], "created_at"), Some(&whole(1_700_000_000)));
    assert_eq!(field(&hits[1], "content"), Some(&s("text b")));
    assert_eq!(field(&hits[1], "tags"), Some(&ScriptValue::Array(vec![])));
    assert_eq!(make_content_key(12), "mem:12:content");
    assert_eq!(make_meta_key(0), "mem:0:meta");
    assert_eq!(make_index_key(u64::MAX), "_vidx:18446744073709551615");
}

#[test]
fn a_failure_ends_the_call_and_takes_nothing_back() {
    let mut world = World::with_docs();
    // no embedding is known for this text
    let e = world
        .call("admin", "store_document", vec![s("docs"), whole(1), s("k"), s("unknown")])
        .unwrap_err();
    assert_eq!(e.message, "store_document: no embedding for 'unknown'");
    assert!(matches!(e.error_type, RuntimeErrorType::LuaError));
    assert_eq!(world.call("admin", "get", vec![s("docs"), s("k")]), Ok(ScriptValue::Null));
    // the text is stored, then adding the vector fails: the text stays
    let step = begin(
        &world.auth,
        &world.namespaces,
        "admin",
        "store_document",
        &vec![s("docs"), whole(1), s("k"), s("text a")],
    );
    let (suspended, effect) = match step {
        Step::Perform(suspended, effect) => (suspended, effect),
        other => panic!("no effect: {:?}", other),
    };
    assert!(matches!(effect, Effect::Embed { ref texts } if texts == &vec!["text a".to_string()]));
    let embedded = world.perform(effect);
    let (suspended, effect) = match resume(suspended, embedded) {
        Step::Perform(suspended, effect) => (suspended, effect),
        other => panic!("no effect: {:?}", other),
    };
    assert!(matches!(effect, Effect::KvPut { ref key, ref value, .. } if key == "k" && value == "text a"));
    let stored = world.perform(effect);
    let (suspended, effect) = match resume(suspended, stored) {
        Step::Perform(suspended, effect) => (suspended, effect),
        other => panic!("no effect: {:?}", other),
    };
    assert!(matches!(effect, Effect::VectorAdd { id: 1, .. }));
    assert_eq!(suspended.stage, Stage::DocIndexed);
    let failed = resume(suspended, Event::Failed("index is full".to_string()));
    match failed {
        Step::Raise(e) => assert_eq!(e.message, "store_document: index is full"),
        other => panic!("no error: {:?}", other),
    }
    assert_eq!(world.call("admin", "get", vec![s("docs"), s("k")]), Ok(s("text a")));
    assert_eq!(
        world.call("admin", "get", vec![s("docs"), s("_vidx:1")]),
        Ok(ScriptValue::Null)
    );
}

#[test]
fn replies_of_the_wrong_shape_are_errors() {
    let world = World::with_docs();
    let start = |function: CatalogFunction, args: Vec<ScriptValue>| -> Suspended {
        match begin_call(&world.namespaces, function, &args) {
            Step::Perform(suspended, _) => suspended,
            other => panic!("no effect: {:?}", other),
        }
    };
    let unexpected = |step: Step, function: &str| match step {
        Step::Raise(e) => assert_eq!(e.message, format!("{}: unexpected reply", function)),
        other => panic!("no error: {:?}", other),
    };
    let get = || start(CatalogFunction::Get, vec![s("docs"), s("k")]);
    unexpected(resume(get(), Event::Reply(whole(1))), "get");
    unexpected(
        resume(
            start(CatalogFunction::Timestamp, vec![]),
            Event::Reply(ScriptValue::Array(vec![whole(-1), whole(0)])),
        ),
        "timestamp",
    );
    unexpected(
        resume(start(CatalogFunction::Uuid, vec![]), Event::Reply(ScriptValue::Null)),
        "uuid",
    );
    unexpected(
        resume(
            start(CatalogFunction::Scan, vec![s("docs"), s("")]),
            Event::Reply(ScriptValue::Array(vec![ScriptValue::Array(vec![s("k")])])),
        ),
        "scan",
    );
    unexpected(
        resume(
            start(
                CatalogFunction::SimilaritySearch,
                vec![s("docs"), vector(&[1.0, 0.0, 0.0]), whole(1)],
            ),
            Event::Reply(ScriptValue::Array(vec![ScriptValue::Array(vec![whole(-4), num(0.0)])])),
        ),
        "similarity_search",
    );
    unexpected(
        resume(
            start(
                CatalogFunction::BatchSelect,
                vec![s("docs"), ScriptValue::Array(vec![s("a"), s("b")])],
            ),
            Event::Reply(ScriptValue::Array(vec![s("only one")])),
        ),
        "batch_select",
    );
    match resume(
        start(CatalogFunction::StoreDocument, vec![s("docs"), whole(1), s("k"), s("t")]),
        Event::Reply(ScriptValue::Array(vec![])),
    ) {
        Step::Raise(e) => assert_eq!(e.message, "store_document: Failed to generate embedding"),
        other => panic!("no error: {:?}", other),
    }
    // a reply of the right shape
    match resume(
        start(CatalogFunction::Timestamp, vec![]),
        Event::Reply(ScriptValue::Array(vec![whole(1_700_000_000), whole(5)])),
    ) {
        Step::Return(v) => assert_eq!(v, whole(1_700_000_000)),
        other => panic!("no value: {:?}", other),
    }
}

#[test]
fn calls_that_need_no_store() {
    let mut world = World::new();
    let id = world.call("admin", "uuid", vec![]).unwrap();
    assert!(matches!(id, ScriptValue::String(ref t) if t.len() == 36));
    // the call gives the id as it was made, whatever it is called with
    let other = world.call("admin", "uuid", vec![whole(1)]).unwrap();
    assert!(matches!(other, ScriptValue::String(ref t) if t.len() == 36
        && t.as_bytes()[8] == b'-' && t.as_bytes()[14] == b'4'));
    assert_ne!(id, other);
    assert_eq!(world.call("admin", "timestamp", vec![]), Ok(whole(1_700_000_000)));
    assert_eq!(world.call("admin", "sleep", vec![whole(0)]), Ok(ScriptValue::Null));
    assert_eq!(world.call("admin", "save", vec![]), Ok(ScriptValue::Null));
    world.embeddings = vec![("a".to_string(), vec![0.5, 0.25])];
    assert_eq!(
        world.call("admin", "generate_embedding", vec![ScriptValue::Array(vec![s("a"), s("a")])]),
        Ok(ScriptValue::Array(vec![vector(&[0.5, 0.25]), vector(&[0.5, 0.25])]))
    );
    world.fail_next = Some("Failed to acquire embedding semaphore");
    let busy = world
        .call("admin", "generate_embedding", vec![ScriptValue::Array(vec![s("a")])])
        .unwrap_err();
    assert_eq!(
        busy.message,
        "generate_embedding: Failed to acquire embedding semaphore"
    );
}
