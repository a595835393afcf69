//! Namespaces: each pairs one key-value store with one vector index of a
//! fixed shape.
//!
//! The manager owns the table of namespaces. What a namespace stores lives
//! behind two handles that the manager carries and never looks into; the
//! shape (dimensions, metric, scalar kind) is fixed when the namespace is
//! created.

use crate::error::{LiathError, LiathErrorView};
use crate::registry::Registry;
use crate::text::views;
use vstd::prelude::*;
use vstd::string::StringExecFns;

verus! {

/// How the distance between two vectors is measured.
#[derive(Debug, Clone, Copy, PartialEq, Eq, Structural)]
pub enum MetricKind {
    /// Cosine distance.
    Cos,
    /// Squared Euclidean distance.
    L2sq,
}

/// How the components of a vector are stored.
#[derive(Debug, Clone, Copy, PartialEq, Eq, Structural)]
pub enum ScalarKind {
    /// 32-bit floating point.
    F32,
    /// 16-bit floating point.
    F16,
}

/// The name under which `metric` is persisted.
pub open spec fn metric_name(metric: MetricKind) -> Seq<char> {
    match metric {
        MetricKind::Cos => "cosine"@,
        MetricKind::L2sq => "euclidean"@,
    }
}

/// The name under which `scalar` is persisted.
pub open spec fn scalar_name(scalar: ScalarKind) -> Seq<char> {
    match scalar {
        ScalarKind::F32 => "f32"@,
        ScalarKind::F16 => "f16"@,
    }
}

/// The metric that `name` names, if it names one.
pub open spec fn metric_named(name: Seq<char>) -> Option<MetricKind> {
    if name == "cosine"@ {
        Some(MetricKind::Cos)
    } else if name == "euclidean"@ {
        Some(MetricKind::L2sq)
    } else {
        None
    }
}

/// The scalar kind that `name` names, if it names one.
pub open spec fn scalar_named(name: Seq<char>) -> Option<ScalarKind> {
    if name == "f32"@ {
        Some(ScalarKind::F32)
    } else if name == "f16"@ {
        Some(ScalarKind::F16)
    } else {
        None
    }
}

/// The name under which `metric` is persisted.
pub fn metric_to_string(metric: MetricKind) -> (out: &'static str)
    ensures
        out@ == metric_name(metric),
{
    match metric {
        MetricKind::Cos => "cosine",
        MetricKind::L2sq => "euclidean",
    }
}

/// The name under which `scalar` is persisted.
pub fn scalar_to_string(scalar: ScalarKind) -> (out: &'static str)
    ensures
        out@ == scalar_name(scalar),
{
    match scalar {
        ScalarKind::F32 => "f32",
        ScalarKind::F16 => "f16",
    }
}

/// The metric that `s` names. Any other text than the two names is an error.
pub fn parse_metric(s: &str) -> (out: Result<MetricKind, LiathError>)
    ensures
        match metric_named(s@) {
            Some(metric) => out matches Ok(m) && m == metric,
            None => out matches Err(e) && e@ == LiathErrorView::Configuration(
                "Unknown metric kind: "@ + s@,
            ),
        },
{
    if s.eq("cosine") {
        Ok(MetricKind::Cos)
    } else if s.eq("euclidean") {
        Ok(MetricKind::L2sq)
    } else {
        let mut text = String::from_str("Unknown metric kind: ");
        text.append(s);
        Err(LiathError::Configuration(text))
    }
}

/// The scalar kind that `s` names. Any other text than the two names is an
/// error.
pub fn parse_scalar(s: &str) -> (out: Result<ScalarKind, LiathError>)
    ensures
        match scalar_named(s@) {
            Some(scalar) => out matches Ok(k) && k == scalar,
            None => out matches Err(e) && e@ == LiathErrorView::Configuration(
                "Unknown scalar kind: "@ + s@,
            ),
        },
{
    if s.eq("f32") {
        Ok(ScalarKind::F32)
    } else if s.eq("f16") {
        Ok(ScalarKind::F16)
    } else {
        let mut text = String::from_str("Unknown scalar kind: ");
        text.append(s);
        Err(LiathError::Configuration(text))
    }
}

/// Each metric is read back from the name it is persisted under.
pub proof fn lemma_metric_round_trip(metric: MetricKind)
    ensures
        metric_named(metric_name(metric)) == Some(metric),
{
    reveal_strlit("cosine");
    reveal_strlit("euclidean");
    assert("cosine"@.len() != "euclidean"@.len());
}

/// Each scalar kind is read back from the name it is persisted under.
pub proof fn lemma_scalar_round_trip(scalar: ScalarKind)
    ensures
        scalar_named(scalar_name(scalar)) == Some(scalar),
{
    reveal_strlit("f32");
    reveal_strlit("f16");
    assert("f32"@[1] != "f16"@[1]);
}

/// The shape of a namespace as it is persisted: the metric and the scalar
/// kind by their names.
#[derive(Debug, Clone)]
pub struct NamespaceMetadata {
    /// The namespace's name.
    pub name: String,
    /// The number of components of each of its vectors.
    pub dimensions: usize,
    /// The name of its metric.
    pub metric: String,
    /// The name of its scalar kind.
    pub scalar: String,
}

/// The mathematical content of a [`NamespaceMetadata`].
pub ghost struct NamespaceMetadataView {
    pub name: Seq<char>,
    pub dimensions: usize,
    pub metric: Seq<char>,
    pub scalar: Seq<char>,
}

impl View for NamespaceMetadata {
    type V = NamespaceMetadataView;

    open spec fn view(&self) -> NamespaceMetadataView {
        NamespaceMetadataView {
            name: self.name@,
            dimensions: self.dimensions,
            metric: self.metric@,
            scalar: self.scalar@,
        }
    }
}

/// The shape of a namespace.
#[derive(Debug)]
pub struct NamespaceConfig {
    /// The namespace's name.
    pub name: String,
    /// The number of components of each of its vectors.
    pub dimensions: usize,
    /// Its metric.
    pub metric: MetricKind,
    /// Its scalar kind.
    pub scalar: ScalarKind,
}

/// The mathematical content of a [`NamespaceConfig`].
pub ghost struct NamespaceConfigView {
    pub name: Seq<char>,
    pub dimensions: usize,
    pub metric: MetricKind,
    pub scalar: ScalarKind,
}

impl View for NamespaceConfig {
    type V = NamespaceConfigView;

    open spec fn view(&self) -> NamespaceConfigView {
        NamespaceConfigView {
            name: self.name@,
            dimensions: self.dimensions,
            metric: self.metric,
            scalar: self.scalar,
        }
    }
}

/// The record under which the shape `config` is persisted.
pub open spec fn record_of(config: NamespaceConfigView) -> NamespaceMetadataView {
    NamespaceMetadataView {
        name: config.name,
        dimensions: config.dimensions,
        metric: metric_name(config.metric),
        scalar: scalar_name(config.scalar),
    }
}

/// The shape that the record `record` stands for, or the error for the first
/// of its names that is not understood.
pub open spec fn shape_of(record: NamespaceMetadataView) -> Result<
    NamespaceConfigView,
    LiathErrorView,
> {
    match metric_named(record.metric) {
        None => Err(LiathErrorView::Configuration("Unknown metric kind: "@ + record.metric)),
        Some(metric) => match scalar_named(record.scalar) {
            None => Err(LiathErrorView::Configuration("Unknown scalar kind: "@ + record.scalar)),
            Some(scalar) => Ok(
                NamespaceConfigView {
                    name: record.name,
                    dimensions: record.dimensions,
                    metric,
                    scalar,
                },
            ),
        },
    }
}

/// The shape that is persisted is the shape that is read back.
pub proof fn lemma_record_round_trip(config: NamespaceConfigView)
    ensures
        shape_of(record_of(config)) == Ok::<NamespaceConfigView, LiathErrorView>(config),
{
    lemma_metric_round_trip(config.metric);
    lemma_scalar_round_trip(config.scalar);
}

impl NamespaceConfig {
    /// The record under which this shape is persisted.
    pub fn to_metadata(&self) -> (out: NamespaceMetadata)
        ensures
            out@ == record_of(self@),
    {
        NamespaceMetadata {
            name: String::from_str(self.name.as_str()),
            dimensions: self.dimensions,
            metric: String::from_str(metric_to_string(self.metric)),
            scalar: String::from_str(scalar_to_string(self.scalar)),
        }
    }
}

impl NamespaceMetadata {
    /// The shape that this record stands for. A metric or scalar kind that is
    /// not understood is an error.
    pub fn to_config(&self) -> (out: Result<NamespaceConfig, LiathError>)
        ensures
            match shape_of(self@) {
                Ok(config) => out matches Ok(c) && c@ == config,
                Err(error) => out matches Err(e) && e@ == error,
            },
    {
        let metric = match parse_metric(self.metric.as_str()) {
            Ok(metric) => metric,
            Err(e) => {
                return Err(e);
            },
        };
        let scalar = match parse_scalar(self.scalar.as_str()) {
            Ok(scalar) => scalar,
            Err(e) => {
                return Err(e);
            },
        };
        Ok(
            NamespaceConfig {
                name: String::from_str(self.name.as_str()),
                dimensions: self.dimensions,
                metric,
                scalar,
            },
        )
    }
}

/// The shapes that the first `n` of `records` stand for, or the error of the
/// first among them that stands for none.
pub open spec fn shapes_of(records: Seq<NamespaceMetadata>, n: nat) -> Result<
    Seq<NamespaceConfigView>,
    LiathErrorView,
>
    decreases n,
{
    if n == 0 || n > records.len() {
        Ok(Seq::empty())
    } else {
        match shapes_of(records, (n - 1) as nat) {
            Err(e) => Err(e),
            Ok(shapes) => match shape_of(records[n - 1]@) {
                Err(e) => Err(e),
                Ok(shape) => Ok(shapes.push(shape)),
            },
        }
    }
}

/// The views of a sequence of shapes.
pub open spec fn config_views(configs: Seq<NamespaceConfig>) -> Seq<NamespaceConfigView> {
    Seq::new(configs.len(), |i: int| configs[i]@)
}

/// An error among the first `k` records is the error of any longer run.
proof fn lemma_shapes_error(records: Seq<NamespaceMetadata>, k: nat, n: nat)
    requires
        k <= n <= records.len(),
        shapes_of(records, k) is Err,
    ensures
        shapes_of(records, n) == shapes_of(records, k),
    decreases n,
{
    if k < n {
        lemma_shapes_error(records, k, (n - 1) as nat);
    }
}

/// The namespaces to bring back at start-up, from the records that were
/// persisted: the shape of each, in order. One record that is not understood
/// makes the whole start-up fail; which stores and indexes can then be opened
/// is for the caller to find out, one namespace at a time.
pub fn load_existing(records: &Vec<NamespaceMetadata>) -> (out: Result<
    Vec<NamespaceConfig>,
    LiathError,
>)
    ensures
        match shapes_of(records@, records@.len()) {
            Ok(shapes) => out matches Ok(configs) && config_views(configs@) == shapes,
            Err(error) => out matches Err(e) && e@ == error,
        },
{
    let mut configs: Vec<NamespaceConfig> = Vec::new();
    let mut i: usize = 0;
    assert(config_views(configs@) =~= Seq::<NamespaceConfigView>::empty());
    while i < records.len()
        invariant
            i <= records.len(),
            shapes_of(records@, i as nat) == Ok::<Seq<NamespaceConfigView>, LiathErrorView>(
                config_views(configs@),
            ),
        decreases records.len() - i,
    {
        match records[i].to_config() {
            Ok(config) => {
                let ghost before = configs@;
                configs.push(config);
                assert(config_views(configs@) =~= config_views(before).push(config@));
            },
            Err(e) => {
                proof {
                    lemma_shapes_error(records@, (i + 1) as nat, records@.len());
                }
                return Err(e);
            },
        }
        i += 1;
    }
    Ok(configs)
}

/// What came of reading a namespace's vector snapshot at start-up.
#[derive(Debug)]
pub enum SnapshotOutcome {
    /// The snapshot was read.
    Loaded,
    /// There is no snapshot.
    Missing,
    /// The snapshot could not be read; the text says why.
    Unreadable(String),
}

/// The warning to log for the namespace `name` after its snapshot was read
/// with the result `outcome`, if there is one to log. Whatever the outcome,
/// the namespace is brought back: without a readable snapshot its vector
/// index starts empty.
pub fn snapshot_warning(name: &str, outcome: &SnapshotOutcome) -> (out: Option<String>)
    ensures
        match outcome {
            SnapshotOutcome::Unreadable(reason) => out matches Some(text) && text@
                == "Failed to load vector index for '"@ + name@ + "': "@ + reason@,
            _ => out is None,
        },
{
    match outcome {
        SnapshotOutcome::Unreadable(reason) => {
            let mut text = String::from_str("Failed to load vector index for '");
            text.append(name);
            text.append("': ");
            text.append(reason.as_str());
            Some(text)
        },
        _ => None,
    }
}

/// One namespace: its shape, and the handles of its key-value store and of
/// its vector index.
pub struct Namespace<D, V> {
    /// The number of components of each of its vectors.
    pub dimensions: usize,
    /// Its metric.
    pub metric: MetricKind,
    /// Its scalar kind.
    pub scalar: ScalarKind,
    /// The handle of its key-value store.
    pub db: D,
    /// The handle of its vector index.
    pub vector_db: V,
}

impl<D, V> Namespace<D, V> {
    /// A namespace of the given shape over the given handles.
    pub fn new(dimensions: usize, metric: MetricKind, scalar: ScalarKind, db: D, vector_db: V) -> (out:
        Self)
        ensures
            out == (Namespace { dimensions, metric, scalar, db, vector_db }),
    {
        Namespace { dimensions, metric, scalar, db, vector_db }
    }
}

/// The table of namespaces by name.
pub type Namespaces<D, V> = Map<Seq<char>, Namespace<D, V>>;

/// The table after an attempt to create `namespace` under `name`, and
/// whether the attempt succeeded: it does so if the name is free, and
/// otherwise leaves the table as it is.
pub open spec fn created<D, V>(
    table: Namespaces<D, V>,
    name: Seq<char>,
    namespace: Namespace<D, V>,
) -> (Namespaces<D, V>, bool) {
    if table.contains_key(name) {
        (table, false)
    } else {
        (table.insert(name, namespace), true)
    }
}

/// A namespace that was created is found under its name with exactly the
/// shape it was created with, and a second creation under that name fails
/// and leaves the first as it is.
pub proof fn lemma_create_then_get<D, V>(
    table: Namespaces<D, V>,
    name: Seq<char>,
    first: Namespace<D, V>,
    second: Namespace<D, V>,
)
    requires
        !table.contains_key(name),
    ensures
        created(table, name, first).1,
        created(table, name, first).0.contains_key(name),
        created(table, name, first).0[name] == first,
        !created(created(table, name, first).0, name, second).1,
        created(created(table, name, first).0, name, second).0 == created(table, name, first).0,
{
}

/// The owner of the table of namespaces.
pub struct NamespaceManager<D, V> {
    namespaces: Registry<Namespace<D, V>>,
}

impl<D, V> NamespaceManager<D, V> {
    /// The namespaces by name.
    pub closed spec fn view(&self) -> Namespaces<D, V> {
        self.namespaces@
    }

    /// The names of the namespaces, in the order in which they were created.
    pub closed spec fn names(&self) -> Seq<Seq<char>> {
        self.namespaces.names()
    }

    /// The names listed are the names of the namespaces that exist.
    pub proof fn lemma_names(self)
        ensures
            forall|name: Seq<char>| self@.contains_key(name) <==> self.names().contains(name),
    {
        self.namespaces.lemma_names();
    }

    /// A manager without namespaces.
    pub fn new() -> (out: Self)
        ensures
            out@ == Map::<Seq<char>, Namespace<D, V>>::empty(),
            out.names() == Seq::<Seq<char>>::empty(),
            out.names().no_duplicates(),
    {
        NamespaceManager { namespaces: Registry::new() }
    }

    /// Creates the namespace `name` with the given shape over the given
    /// handles. Fails, and changes nothing, if a namespace of that name
    /// exists.
    pub fn create_namespace(
        &mut self,
        name: &str,
        dimensions: usize,
        metric: MetricKind,
        scalar: ScalarKind,
        db: D,
        vector_db: V,
    ) -> (out: Result<(), LiathError>)
        ensures
            (final(self)@, out is Ok) == created(
                old(self)@,
                name@,
                Namespace { dimensions, metric, scalar, db, vector_db },
            ),
            out matches Err(e) ==> e@ == LiathErrorView::NamespaceExists(name@),
            final(self).names() == if out is Ok {
                old(self).names().push(name@)
            } else {
                old(self).names()
            },
            final(self).names().no_duplicates(),
    {
        if self.namespaces.contains(name) {
            return Err(LiathError::NamespaceExists(String::from_str(name)));
        }
        self.namespaces.insert(name, Namespace::new(dimensions, metric, scalar, db, vector_db));
        Ok(())
    }

    /// The namespace `name`. Fails if there is none.
    pub fn get_namespace(&self, name: &str) -> (out: Result<&Namespace<D, V>, LiathError>)
        ensures
            out is Ok <==> self@.contains_key(name@),
            out matches Ok(namespace) ==> *namespace == self@[name@],
            out matches Err(e) ==> e@ == LiathErrorView::NamespaceNotFound(name@),
    {
        match self.namespaces.get(name) {
            Some(namespace) => Ok(namespace),
            None => Err(LiathError::NamespaceNotFound(String::from_str(name))),
        }
    }

    /// Takes the namespace `name` out of the table and hands it back, so that
    /// the caller can dispose of what it stores. Fails, and changes nothing,
    /// if there is none.
    pub fn delete_namespace(&mut self, name: &str) -> (out: Result<Namespace<D, V>, LiathError>)
        ensures
            out is Ok <==> old(self)@.contains_key(name@),
            out matches Ok(namespace) ==> namespace == old(self)@[name@],
            out matches Err(e) ==> e@ == LiathErrorView::NamespaceNotFound(name@),
            final(self)@ == old(self)@.remove(name@),
            final(self).names() == crate::registry::without(old(self).names(), name@),
            final(self).names().no_duplicates(),
    {
        match self.namespaces.remove(name) {
            Some(namespace) => Ok(namespace),
            None => Err(LiathError::NamespaceNotFound(String::from_str(name))),
        }
    }

    /// The names of the namespaces, in the order in which they were created:
    /// each namespace that exists once, and no other name.
    pub fn list_namespaces(&self) -> (out: Vec<String>)
        ensures
            views(out@) == self.names(),
            views(out@).no_duplicates(),
            forall|name: Seq<char>| views(out@).contains(name) <==> self@.contains_key(name),
    {
        self.namespaces.list()
    }

    /// Whether there is a namespace `name`.
    pub fn namespace_exists(&self, name: &str) -> (out: bool)
        ensures
            out == self@.contains_key(name@),
    {
        self.namespaces.contains(name)
    }

    /// The record under which the shape of the namespace `name` is persisted,
    /// if there is such a namespace.
    pub fn metadata(&self, name: &str) -> (out: Option<NamespaceMetadata>)
        ensures
            out is Some <==> self@.contains_key(name@),
            out matches Some(record) ==> record@ == record_of(
                NamespaceConfigView {
                    name: name@,
                    dimensions: self@[name@].dimensions,
                    metric: self@[name@].metric,
                    scalar: self@[name@].scalar,
                },
            ),
    {
        match self.namespaces.get(name) {
            Some(namespace) => Some(
                NamespaceMetadata {
                    name: String::from_str(name),
                    dimensions: namespace.dimensions,
                    metric: String::from_str(metric_to_string(namespace.metric)),
                    scalar: String::from_str(scalar_to_string(namespace.scalar)),
                },
            ),
            None => None,
        }
    }
}

} // verus!
