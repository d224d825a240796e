//! Diagnostic bundles.

use kobe::crd::profile::DiagnosticsConfig;
use kobe::diagnostics::{
    capture_bundle, capture_events, capture_node_info, capture_resource_dump, capture_secrets,
    keep_log, log_targets, storage_location, tail_lines, Captured, DiagnosticBundle, Listing,
    PodLog, PRESIGNED_SECONDS,
};
use kobe::k8s::{Container, ObjectMeta, Pod, PodSpec};

fn container(name: &str) -> Container {
    Container {
        name: name.into(),
        image: None,
        command: None,
        args: None,
        ports: None,
        resources: None,
        security_context: None,
        env: vec![],
        env_from: vec![],
        volume_mounts: vec![],
        volume_devices: vec![],
    }
}

fn pod(namespace: Option<&str>, name: &str, containers: Vec<Container>) -> Pod {
    Pod {
        metadata: ObjectMeta {
            name: Some(name.into()),
            namespace: namespace.map(str::to_string),
            ..ObjectMeta::default()
        },
        spec: Some(PodSpec {
            runtime_class_name: None,
            node_name: None,
            automount_service_account_token: None,
            enable_service_links: None,
            security_context: None,
            host_users: None,
            restart_policy: None,
            host_network: None,
            host_pid: None,
            host_ipc: None,
            share_process_namespace: None,
            volumes: vec![],
            init_containers: vec![],
            ephemeral_containers: vec![],
            containers,
        }),
        conditions: vec![],
    }
}

/// A list of one object.
fn listed(kind: &str, item: &str) -> Listing {
    Listing::Listed(format!(
        "{{\"apiVersion\":\"v1\",\"items\":[{item}],\"kind\":\"{kind}\",\"metadata\":{{}}}}"
    ))
}

const EVENT: &str = r#"{
    "apiVersion": "v1",
    "kind": "Event",
    "metadata": { "name": "ev-1", "namespace": "default" },
    "involvedObject": {
        "kind": "Pod", "name": "web-0", "namespace": "default", "apiVersion": "v1"
    },
    "reason": "Pulled",
    "message": "Successfully pulled image",
    "type": "Normal"
}"#;

const POD: &str = r#"{
    "apiVersion": "v1",
    "kind": "Pod",
    "metadata": { "name": "p1", "namespace": "default" },
    "spec": { "containers": [{ "name": "c1", "image": "img" }] }
}"#;

const SERVICE: &str = r#"{
    "apiVersion": "v1",
    "kind": "Service",
    "metadata": { "name": "svc-1", "namespace": "default" },
    "spec": { "type": "ClusterIP", "ports": [] }
}"#;

const DEPLOYMENT: &str = r#"{
    "apiVersion": "apps/v1",
    "kind": "Deployment",
    "metadata": { "name": "dep-1", "namespace": "default" },
    "spec": {
        "replicas": 1,
        "selector": { "matchLabels": { "app": "dep" } },
        "template": {
            "metadata": { "labels": { "app": "dep" } },
            "spec": { "containers": [{ "name": "c", "image": "img" }] }
        }
    }
}"#;

const SECRET: &str = r#"{
    "apiVersion": "v1",
    "kind": "Secret",
    "metadata": { "name": "my-secret", "namespace": "default" },
    "type": "Opaque",
    "data": { "key": "dmFsdWU=" }
}"#;

const NODE: &str = r#"{
    "apiVersion": "v1",
    "kind": "Node",
    "metadata": { "name": "node-1" },
    "status": { "conditions": [{ "type": "Ready", "status": "True" }] }
}"#;

fn failed() -> Listing {
    Listing::Failed("internal error".into())
}

#[test]
fn bundle_new_sets_fields_correctly() {
    let bundle = DiagnosticBundle::new("claim-42", "my-cluster");
    assert_eq!(bundle.claim_id, "claim-42");
    assert_eq!(bundle.cluster_name, "my-cluster");
    assert!(bundle.pod_logs.is_empty());
    assert!(bundle.events.is_empty());
    assert!(bundle.resource_dump.is_empty());
    assert!(bundle.secrets_dump.is_none());
    assert!(bundle.node_info.is_empty());
    // captured_at should be a valid RFC3339 timestamp
    assert!(!bundle.captured_at.is_empty());
    assert!(
        chrono::DateTime::parse_from_rfc3339(&bundle.captured_at).is_ok(),
        "captured_at should be valid RFC3339"
    );
}

#[test]
fn test_capture_pod_logs_empty() {
    assert!(log_targets(Ok(vec![])).is_empty());
}

#[test]
fn test_capture_pod_logs_with_pods() {
    let targets = log_targets(Ok(vec![pod(Some("app-ns"), "web-0", vec![container("web")])]));
    assert_eq!(targets.len(), 1);
    let mut result: Vec<PodLog> = vec![];
    for target in targets {
        keep_log(&mut result, target, Ok("hello from web container".into()));
    }
    assert_eq!(result.len(), 1);
    assert_eq!(result[0].namespace, "app-ns");
    assert_eq!(result[0].pod, "web-0");
    assert_eq!(result[0].container, "web");
    assert_eq!(result[0].logs, "hello from web container");
}

#[test]
fn test_capture_pod_logs_list_error_returns_empty() {
    assert!(log_targets(Err("internal server error".into())).is_empty());
}

#[test]
fn every_container_is_captured_in_order_and_failures_are_left_out() {
    let mut bare = pod(None, "bare", vec![]);
    bare.spec = None;
    let targets = log_targets(Ok(vec![
        pod(None, "one", vec![container("a"), container("b")]),
        bare,
        pod(Some("ns"), "two", vec![container("c")]),
    ]));
    let names: Vec<(&str, &str, &str)> = targets
        .iter()
        .map(|target| {
            (
                target.namespace.as_str(),
                target.pod.as_str(),
                target.container.as_str(),
            )
        })
        .collect();
    assert_eq!(
        names,
        [("", "one", "a"), ("", "one", "b"), ("ns", "two", "c")]
    );
    let mut logs: Vec<PodLog> = vec![];
    for target in targets {
        let answer = if target.container == "b" {
            Err("gone".to_string())
        } else {
            Ok(target.container.clone())
        };
        keep_log(&mut logs, target, answer);
    }
    let kept: Vec<&str> = logs.iter().map(|log| log.logs.as_str()).collect();
    assert_eq!(kept, ["a", "c"]);
}

#[test]
fn test_capture_events_success() {
    let result = capture_events(listed("EventList", EVENT));
    assert!(!result.is_empty());
    // Should be valid JSON
    let parsed: serde_json::Value = serde_json::from_str(&result).unwrap();
    assert!(parsed["items"].is_array());
}

#[test]
fn test_capture_events_error() {
    let result = capture_events(failed());
    assert!(
        result.starts_with("CAPTURE FAILED:"),
        "Expected error string, got: {result}"
    );
}

#[test]
fn test_capture_resource_dump_success() {
    let result = capture_resource_dump(
        listed("PodList", POD),
        listed("ServiceList", SERVICE),
        listed("DeploymentList", DEPLOYMENT),
    );
    assert!(result.contains("--- Pods ---"), "Expected pods section");
    assert!(
        result.contains("--- Services ---"),
        "Expected services section"
    );
    assert!(
        result.contains("--- Deployments ---"),
        "Expected deployments section"
    );
}

#[test]
fn test_capture_secrets_success() {
    let result = capture_secrets(listed("SecretList", SECRET));
    assert!(!result.is_empty());
    // Should be valid JSON
    let parsed: serde_json::Value = serde_json::from_str(&result).unwrap();
    assert!(parsed["items"].is_array());
}

#[test]
fn test_capture_secrets_error() {
    let result = capture_secrets(failed());
    assert!(
        result.starts_with("CAPTURE FAILED:"),
        "Expected error string, got: {result}"
    );
}

#[test]
fn test_capture_node_info_success() {
    let result = capture_node_info(listed("NodeList", NODE));
    assert!(!result.is_empty());
    // Should be valid JSON
    let parsed: serde_json::Value = serde_json::from_str(&result).unwrap();
    assert!(parsed["items"].is_array());
}

#[test]
fn test_capture_node_info_error() {
    let result = capture_node_info(failed());
    assert!(
        result.starts_with("CAPTURE FAILED:"),
        "Expected error string, got: {result}"
    );
}

#[test]
fn a_failed_section_leaves_the_others() {
    assert_eq!(
        capture_resource_dump(
            failed(),
            Listing::Unserializable("depth".into()),
            Listing::Listed("{}".into())
        ),
        "--- Pods (CAPTURE FAILED: internal error) ---\n--- Services ---\nERROR: Failed to serialize service list: depth\n--- Deployments ---\n{}\n"
    );
    assert_eq!(
        capture_events(Listing::Unserializable("depth".into())),
        "ERROR: Failed to serialize events: depth"
    );
    assert_eq!(
        capture_node_info(Listing::Unserializable("depth".into())),
        "ERROR: Failed to serialize node info: depth"
    );
    assert_eq!(
        capture_secrets(Listing::Unserializable("depth".into())),
        "ERROR: Failed to serialize secrets: depth"
    );
}

#[test]
fn secrets_are_captured_only_where_asked_for() {
    let mut config = DiagnosticsConfig {
        enabled: true,
        storage: "s3://bucket".into(),
        retention_days: 30,
        log_lines: 500,
        include_secrets: false,
    };
    assert_eq!(tail_lines(&config), 500);
    assert_eq!(PRESIGNED_SECONDS, 7 * 24 * 60 * 60);
    let captured = |secrets: Option<Listing>| Captured {
        pod_logs: vec![],
        events: Listing::Listed("events".into()),
        pods: Listing::Listed("pods".into()),
        services: Listing::Listed("services".into()),
        deployments: Listing::Listed("deployments".into()),
        secrets,
        nodes: Listing::Listed("nodes".into()),
    };
    let empty = DiagnosticBundle::captured_at("claim", "cluster", "then".into());
    let secrets = Some(Listing::Listed("secrets".into()));
    let bundle = capture_bundle(empty.clone(), &config, captured(secrets.clone()));
    assert_eq!(bundle.secrets_dump, None);
    assert_eq!(bundle.claim_id, "claim");
    assert_eq!(bundle.captured_at, "then");
    assert_eq!(bundle.events, "events");
    assert_eq!(bundle.node_info, "nodes");
    config.include_secrets = true;
    let bundle = capture_bundle(empty.clone(), &config, captured(secrets));
    assert_eq!(bundle.secrets_dump.as_deref(), Some("secrets"));
    let bundle = capture_bundle(empty, &config, captured(Some(failed())));
    assert_eq!(
        bundle.secrets_dump.as_deref(),
        Some("CAPTURE FAILED: internal error")
    );
}

#[test]
fn s3_uri_parsing_bucket_only() {
    let location = storage_location("s3://my-bucket", "claim-1").unwrap();
    assert_eq!(location.bucket, "my-bucket");
    assert_eq!(location.key, "claim-1/diagnostics.json");
}

#[test]
fn s3_uri_parsing_with_prefix() {
    let location = storage_location("s3://my-bucket/some/prefix/", "claim-1").unwrap();
    assert_eq!(location.bucket, "my-bucket");
    assert_eq!(location.key, "some/prefix/claim-1/diagnostics.json");
}

#[test]
fn s3_uri_parsing_rejects_non_s3() {
    assert!(
        storage_location("gs://wrong-scheme/path", "claim-1").is_err(),
        "Non-s3 URIs should not parse"
    );
}

#[test]
fn odd_storage_locations_keep_their_shape() {
    assert_eq!(
        storage_location("gs://x", "c").unwrap_err(),
        "Storage URI must start with s3://"
    );
    let slash = storage_location("s3://bucket/", "c").unwrap();
    assert_eq!(slash.key, "c/diagnostics.json");
    let slashes = storage_location("s3://bucket//", "c").unwrap();
    assert_eq!(slashes.bucket, "bucket");
    assert_eq!(slashes.key, "/c/diagnostics.json");
    let nothing = storage_location("s3://", "c").unwrap();
    assert_eq!(nothing.bucket, "");
    assert_eq!(nothing.key, "c/diagnostics.json");
}
