use digital_twin_mw::errors::ErrorKind;
use digital_twin_mw::lifecycle::container_names;
use digital_twin_mw::lifecycle::mark_components_deleted;
use digital_twin_mw::lifecycle::teardown_targets;
use digital_twin_mw::lifecycle::ProvisionSaga;
use digital_twin_mw::twin::DeploymentKind;
use digital_twin_mw::twin::Twin;
use digital_twin_mw::twin::TwinComponent;
use digital_twin_mw::twin::TwinStatus;

fn stopped_twin(kind: DeploymentKind) -> Twin {
    Twin {
        id: "twin-1".to_string(),
        name: "Demo Model".to_string(),
        model_id: "model-1".to_string(),
        policy_id: None,
        owner_id: "user-1".to_string(),
        kind,
        status: TwinStatus::Stopped,
        network_name: None,
        twin_port: None,
        enable_data_sharing: false,
        deleted_by: None,
        deleted_at: None,
    }
}

fn component(name: &str, exposed: bool) -> TwinComponent {
    TwinComponent {
        id: format!("comp-{}", name),
        name: name.to_string(),
        twin_id: "twin-1".to_string(),
        image_source: format!("repo/{}:latest", name),
        component_alias: Some(name.to_string()),
        container_port: Some(80),
        host_port: None,
        is_exposed: exposed,
        container_name: None,
        deleted_by: None,
        deleted_at: None,
    }
}

#[test]
fn provisioning_succeeds_component_by_component() {
    let comps = vec![component("api", true), component("db", false)];
    let mut saga =
        ProvisionSaga::new(stopped_twin(DeploymentKind::Container), comps, "user@mail.com".to_string(), 42)
            .unwrap();
    assert_eq!(saga.network(), "demo_model_network_usermailcom_42");

    let q = saga.next_request().unwrap();
    assert_eq!(q.container_name, "api_container_usermailcom_42");
    assert_eq!(q.image, "repo/api:latest");
    assert_eq!(q.alias, "api");
    assert_eq!(q.container_port, 80);
    assert!(q.wants_host_port);
    assert_eq!(q.network, "demo_model_network_usermailcom_42");
    saga.record_success(Some(8080));

    let q = saga.next_request().unwrap();
    assert_eq!(q.container_name, "db_container_usermailcom_42");
    assert!(!q.wants_host_port);
    saga.record_success(None);

    assert!(saga.next_request().is_none());
    assert!(saga.is_complete());
    let (twin, comps) = saga.finish();
    // Only now — after every component — is the twin Running.
    assert_eq!(twin.status, TwinStatus::Running);
    assert_eq!(twin.network_name.as_deref(), Some("demo_model_network_usermailcom_42"));
    assert_eq!(twin.twin_port, Some(8080));
    assert_eq!(comps[0].container_name.as_deref(), Some("api_container_usermailcom_42"));
    assert_eq!(comps[0].host_port, Some(8080));
    assert_eq!(comps[1].container_name.as_deref(), Some("db_container_usermailcom_42"));
    assert_eq!(comps[1].host_port, None);
}

#[test]
fn failed_provisioning_leaves_twin_not_running() {
    let comps = vec![component("api", false), component("db", false)];
    let mut saga =
        ProvisionSaga::new(stopped_twin(DeploymentKind::Container), comps, "user@mail.com".to_string(), 7)
            .unwrap();

    // The first container is created and started...
    saga.next_request().unwrap();
    saga.record_success(None);
    // ...and the second one fails.
    saga.next_request().unwrap();
    saga.record_failure();
    assert!(saga.next_request().is_none());
    assert!(!saga.is_complete());

    let (twin, comps) = saga.abandon();
    // The twin's status is untouched: not Running.
    assert_eq!(twin.status, TwinStatus::Stopped);
    assert!(twin.network_name.is_none());
    // The first container exists and stays for remediation.
    assert_eq!(comps[0].container_name.as_deref(), Some("api_container_usermailcom_7"));
    assert!(comps[1].container_name.is_none());

    // A later teardown sweeps exactly what was created.
    let targets = teardown_targets(&comps);
    assert_eq!(targets.len(), 1);
    assert_eq!(targets[0].container_name, "api_container_usermailcom_7");
    assert_eq!(targets[0].host_port, None);
}

#[test]
fn non_container_kinds_have_no_provisioner() {
    let e = ProvisionSaga::new(
        stopped_twin(DeploymentKind::Wasm),
        vec![component("api", false)],
        "user@mail.com".to_string(),
        1,
    )
    .unwrap_err();
    assert_eq!(e.error_kind(), ErrorKind::NotImplemented);
    assert_eq!(e.status_code(), 501);
}

#[test]
fn teardown_releases_reserved_ports() {
    let comps = vec![component("api", true), component("db", false)];
    let mut saga =
        ProvisionSaga::new(stopped_twin(DeploymentKind::Container), comps, "u@m.c".to_string(), 3)
            .unwrap();
    saga.next_request().unwrap();
    saga.record_success(Some(9001));
    saga.next_request().unwrap();
    saga.record_success(None);
    let (_, comps) = saga.finish();
    let targets = teardown_targets(&comps);
    assert_eq!(targets.len(), 2);
    assert_eq!(targets[0].host_port, Some(9001));
    assert_eq!(targets[1].host_port, None);
}

#[test]
fn start_plan_needs_provisioned_components() {
    let unprovisioned = vec![component("api", false)];
    let e = container_names(&unprovisioned).unwrap_err();
    assert_eq!(e.error_kind(), ErrorKind::ResourceProvisioningError);

    let mut provisioned = vec![component("api", false)];
    provisioned[0].container_name = Some("api_container_x_1".to_string());
    let names = container_names(&provisioned).unwrap();
    assert_eq!(names, vec!["api_container_x_1".to_string()]);
}

#[test]
fn components_are_soft_deleted_with_their_twin() {
    let mut comps = vec![component("api", false), component("db", false)];
    comps[0].container_name = Some("api_c".to_string());
    let actor = "user-1".to_string();
    let marked = mark_components_deleted(comps, &actor, 1234);
    assert_eq!(marked.len(), 2);
    for c in &marked {
        assert_eq!(c.deleted_by.as_deref(), Some("user-1"));
        assert_eq!(c.deleted_at, Some(1234));
    }
    assert_eq!(marked[0].container_name.as_deref(), Some("api_c"));
    assert_eq!(marked[0].name, "api");
}
