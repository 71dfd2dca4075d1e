use digital_twin_mw::errors::ErrorKind;
use digital_twin_mw::twin::DeploymentKind;
use digital_twin_mw::twin::ModelComponent;
use digital_twin_mw::twin::ModelInfo;
use digital_twin_mw::twin::Twin;
use digital_twin_mw::twin::TwinComponent;
use digital_twin_mw::twin::TwinOp;
use digital_twin_mw::twin::TwinStatus;

fn sample_twin(status: TwinStatus) -> Twin {
    Twin {
        id: "twin-1".to_string(),
        name: "demo".to_string(),
        model_id: "model-1".to_string(),
        policy_id: None,
        owner_id: "user-1".to_string(),
        kind: DeploymentKind::Container,
        status,
        network_name: None,
        twin_port: None,
        enable_data_sharing: false,
        deleted_by: None,
        deleted_at: None,
    }
}

#[test]
fn transition_table() {
    assert!(matches!(TwinStatus::Stopped.apply_op(TwinOp::Start), Ok(TwinStatus::Running)));
    assert!(matches!(TwinStatus::Running.apply_op(TwinOp::Stop), Ok(TwinStatus::Stopped)));
    assert!(matches!(TwinStatus::Stopped.apply_op(TwinOp::Decommission), Ok(TwinStatus::Deleted)));
    assert!(matches!(TwinStatus::Running.apply_op(TwinOp::Decommission), Ok(TwinStatus::Deleted)));
    assert!(TwinStatus::Running.apply_op(TwinOp::Start).is_err());
    assert!(TwinStatus::Stopped.apply_op(TwinOp::Stop).is_err());
    assert!(TwinStatus::Deleted.apply_op(TwinOp::Start).is_err());
    assert!(TwinStatus::Deleted.apply_op(TwinOp::Stop).is_err());
    assert!(TwinStatus::Deleted.apply_op(TwinOp::Decommission).is_err());
}

#[test]
fn invalid_transition_reports_invalid_state() {
    let e = TwinStatus::Running.apply_op(TwinOp::Start).unwrap_err();
    assert_eq!(e.error_kind(), ErrorKind::InvalidState);
    assert_eq!(e.status_code(), 400);
}

#[test]
fn start_on_running_twin_changes_nothing() {
    let mut twin = sample_twin(TwinStatus::Running);
    let r = twin.start();
    assert_eq!(r.unwrap_err().error_kind(), ErrorKind::InvalidState);
    assert_eq!(twin.status, TwinStatus::Running);
    assert_eq!(twin.id, "twin-1");
    assert!(twin.deleted_at.is_none());
}

#[test]
fn stop_on_stopped_twin_changes_nothing() {
    let mut twin = sample_twin(TwinStatus::Stopped);
    let r = twin.stop();
    assert_eq!(r.unwrap_err().error_kind(), ErrorKind::InvalidState);
    assert_eq!(twin.status, TwinStatus::Stopped);
}

#[test]
fn start_then_stop_round_trip() {
    let mut twin = sample_twin(TwinStatus::Stopped);
    twin.start().unwrap();
    assert_eq!(twin.status, TwinStatus::Running);
    twin.stop().unwrap();
    assert_eq!(twin.status, TwinStatus::Stopped);
}

#[test]
fn deletion_is_soft_and_terminal() {
    let mut twin = sample_twin(TwinStatus::Running);
    twin.mark_deleted("user-1".to_string(), 1700000000).unwrap();
    assert_eq!(twin.status, TwinStatus::Deleted);
    assert_eq!(twin.deleted_by.as_deref(), Some("user-1"));
    assert_eq!(twin.deleted_at, Some(1700000000));
    assert!(twin.start().is_err());
    assert!(twin.stop().is_err());
    let again = twin.mark_deleted("user-2".to_string(), 1700000001);
    assert_eq!(again.unwrap_err().error_kind(), ErrorKind::InvalidState);
    assert_eq!(twin.deleted_by.as_deref(), Some("user-1"));
}

#[test]
fn status_codes_round_trip() {
    for s in [TwinStatus::Stopped, TwinStatus::Running, TwinStatus::Deleted] {
        assert_eq!(TwinStatus::from_code(s.code()), Some(s));
    }
    assert_eq!(TwinStatus::from_code(3), None);
    assert_eq!(TwinStatus::Stopped.code(), 1);
    assert_eq!(TwinStatus::Running.code(), 2);
    assert_eq!(TwinStatus::Deleted.code(), 4);
}

#[test]
fn status_labels() {
    assert_eq!(TwinStatus::Stopped.label(), "Stopped");
    assert_eq!(TwinStatus::Running.label(), "Running");
    assert_eq!(TwinStatus::Deleted.label(), "Deleted");
}

#[test]
fn subscription_twin_record() {
    let model = ModelInfo {
        id: "model-1".to_string(),
        name: "demo".to_string(),
        kind: DeploymentKind::Container,
        enable_data_sharing: true,
    };
    let t = Twin::subscription(
        "twin-9".to_string(),
        &model,
        "user-1".to_string(),
        Some("pol-1".to_string()),
        Some(true),
    );
    assert_eq!(t.status, TwinStatus::Stopped);
    assert_eq!(t.name, "demo");
    assert_eq!(t.model_id, "model-1");
    assert_eq!(t.policy_id.as_deref(), Some("pol-1"));
    assert!(t.enable_data_sharing);
    assert!(t.network_name.is_none() && t.twin_port.is_none());

    // Sharing needs both the model's flag and the subscriber's request.
    let t2 = Twin::subscription("t".to_string(), &model, "u".to_string(), None, None);
    assert!(!t2.enable_data_sharing);
    let closed = ModelInfo {
        id: "m".to_string(),
        name: "n".to_string(),
        kind: DeploymentKind::Container,
        enable_data_sharing: false,
    };
    let t3 = Twin::subscription("t".to_string(), &closed, "u".to_string(), None, Some(true));
    assert!(!t3.enable_data_sharing);
}

#[test]
fn subscription_component_record() {
    let comp = ModelComponent {
        name: "api".to_string(),
        image_source: "repo/api:latest".to_string(),
        component_alias: Some("api".to_string()),
        container_port: Some(80),
        is_exposed: true,
    };
    let c: TwinComponent =
        TwinComponent::subscription(&comp, "comp-1".to_string(), "twin-1".to_string());
    assert_eq!(c.id, "comp-1");
    assert_eq!(c.twin_id, "twin-1");
    assert_eq!(c.image_source, "repo/api:latest");
    assert!(c.container_name.is_none());
    assert!(c.host_port.is_none());
    assert!(c.is_exposed);
}

#[test]
fn deployment_kind_codes() {
    assert_eq!(DeploymentKind::from_code(1), DeploymentKind::Container);
    assert_eq!(DeploymentKind::from_code(2), DeploymentKind::Wasm);
    assert_eq!(DeploymentKind::from_code(0), DeploymentKind::Wasm);
}

#[test]
fn error_kinds_map_to_their_status_codes() {
    assert_eq!(ErrorKind::NotFound.status_code(), 404);
    assert_eq!(ErrorKind::InvalidState.status_code(), 400);
    assert_eq!(ErrorKind::QuotaExceeded.status_code(), 451);
    assert_eq!(ErrorKind::ResourceProvisioningError.status_code(), 500);
    assert_eq!(ErrorKind::ResourceExhausted.status_code(), 503);
    assert_eq!(ErrorKind::UpstreamUnavailable.status_code(), 502);
    assert_eq!(ErrorKind::NotImplemented.status_code(), 501);
    assert_eq!(ErrorKind::ValidationFailed.status_code(), 400);
    assert_eq!(ErrorKind::Internal.status_code(), 500);
}
