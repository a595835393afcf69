use liath::error::LiathError;
use liath::namespace::{
    load_existing, metric_to_string, parse_metric, parse_scalar, scalar_to_string,
    snapshot_warning, MetricKind, NamespaceConfig, NamespaceManager, NamespaceMetadata, ScalarKind,
    SnapshotOutcome,
};
use liath::registry::Registry;

#[test]
fn test_namespace_manager() {
    let mut manager: NamespaceManager<(), ()> = NamespaceManager::new();

    // Create a namespace
    assert!(manager
        .create_namespace("test1", 128, MetricKind::Cos, ScalarKind::F32, (), ())
        .is_ok());

    // Check if namespace exists
    assert!(manager.namespace_exists("test1"));
    assert!(!manager.namespace_exists("nonexistent"));

    // Try to create a duplicate namespace
    assert!(manager
        .create_namespace("test1", 128, MetricKind::Cos, ScalarKind::F32, (), ())
        .is_err());

    // Get a namespace
    let namespace = manager.get_namespace("test1");
    assert!(namespace.is_ok());

    // List namespaces
    let namespaces = manager.list_namespaces();
    assert_eq!(namespaces, vec!["test1"]);

    // Delete a namespace
    assert!(manager.delete_namespace("test1").is_ok());

    // Try to get a deleted namespace
    assert!(manager.get_namespace("test1").is_err());

    // Try to delete a non-existent namespace
    assert!(manager.delete_namespace("nonexistent").is_err());
}

#[test]
fn namespace_test_namespace_persistence() {
    // Create manager and add a namespace
    let records = {
        let mut manager: NamespaceManager<(), ()> = NamespaceManager::new();
        manager
            .create_namespace("persistent", 256, MetricKind::Cos, ScalarKind::F32, (), ())
            .unwrap();
        vec![manager.metadata("persistent").unwrap()]
    };

    // Create new manager and verify namespace was loaded
    {
        let mut manager: NamespaceManager<(), ()> = NamespaceManager::new();
        for config in load_existing(&records).unwrap() {
            manager
                .create_namespace(&config.name, config.dimensions, config.metric, config.scalar, (), ())
                .unwrap();
        }
        assert!(manager.namespace_exists("persistent"));
        let ns = manager.get_namespace("persistent").unwrap();
        assert_eq!(ns.dimensions, 256);
    }
}

#[test]
fn created_namespace_keeps_its_shape() {
    let mut manager: NamespaceManager<u8, u16> = NamespaceManager::new();
    manager
        .create_namespace("docs", 3, MetricKind::L2sq, ScalarKind::F16, 7, 9)
        .unwrap();
    let error = manager
        .create_namespace("docs", 99, MetricKind::Cos, ScalarKind::F32, 1, 2)
        .unwrap_err();
    assert!(matches!(error, LiathError::NamespaceExists(ref name) if name == "docs"));
    let ns = manager.get_namespace("docs").unwrap();
    assert_eq!(ns.dimensions, 3);
    assert_eq!(ns.metric, MetricKind::L2sq);
    assert_eq!(ns.scalar, ScalarKind::F16);
    assert_eq!(ns.db, 7);
    assert_eq!(ns.vector_db, 9);
    let error = manager.get_namespace("other").err().unwrap();
    assert_eq!(error.to_string(), "Namespace 'other' not found");
    let error = manager.delete_namespace("other").err().unwrap();
    assert!(matches!(error, LiathError::NamespaceNotFound(ref name) if name == "other"));
    assert_eq!(manager.metadata("other").map(|m| m.name), None);
}

#[test]
fn namespaces_are_listed_in_order_of_creation() {
    let mut manager: NamespaceManager<(), ()> = NamespaceManager::new();
    assert!(manager.list_namespaces().is_empty());
    for name in ["zeta", "alpha", "mid"] {
        manager
            .create_namespace(name, 1, MetricKind::Cos, ScalarKind::F32, (), ())
            .unwrap();
    }
    assert_eq!(manager.list_namespaces(), vec!["zeta", "alpha", "mid"]);
    let removed = manager.delete_namespace("alpha").unwrap();
    assert_eq!(removed.dimensions, 1);
    assert_eq!(manager.list_namespaces(), vec!["zeta", "mid"]);
    manager
        .create_namespace("alpha", 2, MetricKind::Cos, ScalarKind::F32, (), ())
        .unwrap();
    assert_eq!(manager.list_namespaces(), vec!["zeta", "mid", "alpha"]);
    assert_eq!(manager.get_namespace("alpha").unwrap().dimensions, 2);
}

#[test]
fn metric_and_scalar_names_are_strict() {
    assert_eq!(metric_to_string(MetricKind::Cos), "cosine");
    assert_eq!(metric_to_string(MetricKind::L2sq), "euclidean");
    assert_eq!(scalar_to_string(ScalarKind::F32), "f32");
    assert_eq!(scalar_to_string(ScalarKind::F16), "f16");
    assert_eq!(parse_metric("cosine").unwrap(), MetricKind::Cos);
    assert_eq!(parse_metric("euclidean").unwrap(), MetricKind::L2sq);
    assert_eq!(parse_scalar("f32").unwrap(), ScalarKind::F32);
    assert_eq!(parse_scalar("f16").unwrap(), ScalarKind::F16);
    for bad in ["", "Cosine", "cos", "l2", "cosine "] {
        let error = parse_metric(bad).unwrap_err();
        assert_eq!(
            error.to_string(),
            format!("Configuration error: Unknown metric kind: {}", bad)
        );
    }
    let error = parse_scalar("f64").unwrap_err();
    assert_eq!(
        error.to_string(),
        "Configuration error: Unknown scalar kind: f64"
    );
}

#[test]
fn records_round_trip_and_bad_records_are_fatal() {
    let config = NamespaceConfig {
        name: "docs".to_string(),
        dimensions: 384,
        metric: MetricKind::L2sq,
        scalar: ScalarKind::F16,
    };
    let record = config.to_metadata();
    assert_eq!(record.name, "docs");
    assert_eq!(record.dimensions, 384);
    assert_eq!(record.metric, "euclidean");
    assert_eq!(record.scalar, "f16");
    let back = record.to_config().unwrap();
    assert_eq!(back.name, "docs");
    assert_eq!(back.dimensions, 384);
    assert_eq!(back.metric, MetricKind::L2sq);
    assert_eq!(back.scalar, ScalarKind::F16);

    let bad_metric = NamespaceMetadata {
        name: "x".to_string(),
        dimensions: 1,
        metric: "manhattan".to_string(),
        scalar: "f8".to_string(),
    };
    // the metric is looked at first
    assert_eq!(
        bad_metric.to_config().unwrap_err().to_string(),
        "Configuration error: Unknown metric kind: manhattan"
    );
    let bad_scalar = NamespaceMetadata {
        name: "y".to_string(),
        dimensions: 1,
        metric: "cosine".to_string(),
        scalar: "f8".to_string(),
    };
    let loaded = load_existing(&vec![record.clone(), bad_scalar, bad_metric]);
    assert_eq!(
        loaded.unwrap_err().to_string(),
        "Configuration error: Unknown scalar kind: f8"
    );
    let loaded = load_existing(&vec![record.clone(), record]).unwrap();
    assert_eq!(loaded.len(), 2);
    assert!(load_existing(&vec![]).unwrap().is_empty());
}

#[test]
fn unreadable_snapshot_is_a_warning() {
    assert_eq!(snapshot_warning("docs", &SnapshotOutcome::Loaded), None);
    assert_eq!(snapshot_warning("docs", &SnapshotOutcome::Missing), None);
    assert_eq!(
        snapshot_warning("docs", &SnapshotOutcome::Unreadable("bad header".to_string())),
        Some("Failed to load vector index for 'docs': bad header".to_string())
    );
}

#[test]
fn registry_keeps_one_value_per_name() {
    let mut table: Registry<u32> = Registry::new();
    assert_eq!(table.len(), 0);
    assert!(!table.contains("a"));
    table.insert("a", 1);
    table.insert("b", 2);
    table.insert("a", 3);
    assert_eq!(table.len(), 2);
    assert_eq!(table.get("a"), Some(&3));
    assert_eq!(table.get("b"), Some(&2));
    assert_eq!(table.get("c"), None);
    assert_eq!(table.list(), vec!["a", "b"]);
    assert_eq!(table.remove("a"), Some(3));
    assert_eq!(table.remove("a"), None);
    assert_eq!(table.list(), vec!["b"]);
}
