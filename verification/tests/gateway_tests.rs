use digital_twin_mw::cache::CacheValue;
use digital_twin_mw::cache::TtlCache;
use digital_twin_mw::errors::ErrorKind;
use digital_twin_mw::gateway::build_forward;
use digital_twin_mw::gateway::cached_verb;
use digital_twin_mw::gateway::forward_result;
use digital_twin_mw::gateway::quota_gate;
use digital_twin_mw::gateway::require_running;
use digital_twin_mw::gateway::resolve_twin;
use digital_twin_mw::gateway::usage_record;
use digital_twin_mw::gateway::ForwardOutcome;
use digital_twin_mw::keys::verb_key;
use digital_twin_mw::policy::PolicyAction;
use digital_twin_mw::policy::ResetFrequency;
use digital_twin_mw::twin::DeploymentKind;
use digital_twin_mw::twin::Twin;
use digital_twin_mw::twin::TwinStatus;

fn running_twin() -> Twin {
    Twin {
        id: "twin-1".to_string(),
        name: "demo".to_string(),
        model_id: "model-1".to_string(),
        policy_id: Some("pol-1".to_string()),
        owner_id: "user-1".to_string(),
        kind: DeploymentKind::Container,
        status: TwinStatus::Running,
        network_name: Some("demo_network_u_1".to_string()),
        twin_port: Some(8005),
        enable_data_sharing: true,
        deleted_by: None,
        deleted_at: None,
    }
}

fn infer_action(limit: u64) -> PolicyAction {
    PolicyAction {
        id: "act-1".to_string(),
        policy_id: "pol-1".to_string(),
        end_point: b"infer".to_vec(),
        description: "inference".to_string(),
        verb: b"PUT".to_vec(),
        action_count: limit,
        reset: ResetFrequency::Daily,
    }
}

#[test]
fn missing_twin_is_not_found() {
    let e = resolve_twin(None).unwrap_err();
    assert_eq!(e.error_kind(), ErrorKind::NotFound);
    let t = resolve_twin(Some(running_twin())).unwrap();
    assert_eq!(t.id, "twin-1");
}

#[test]
fn only_running_twins_take_traffic() {
    assert!(require_running(&running_twin()).is_ok());
    let mut stopped = running_twin();
    stopped.status = TwinStatus::Stopped;
    let e = require_running(&stopped).unwrap_err();
    assert_eq!(e.error_kind(), ErrorKind::InvalidState);
    assert_eq!(e.message(), "Twin is not running");
}

#[test]
fn quota_denial_aborts_with_quota_exceeded() {
    let mut cache = TtlCache::new();
    let twin = running_twin();
    let a = infer_action(1);
    assert!(quota_gate(&mut cache, &twin, b"infer", "user-1", Some(&a), 0).is_ok());
    let e = quota_gate(&mut cache, &twin, b"infer", "user-1", Some(&a), 1).unwrap_err();
    assert_eq!(e.error_kind(), ErrorKind::QuotaExceeded);
    assert_eq!(e.status_code(), 451);
    assert_eq!(e.message(), "Resource usage policy not satisfied!");
}

#[test]
fn policyless_twin_is_unrestricted() {
    let mut cache = TtlCache::new();
    let mut twin = running_twin();
    twin.policy_id = None;
    for now in 0..10 {
        assert!(quota_gate(&mut cache, &twin, b"infer", "user-1", None, now).is_ok());
    }
}

#[test]
fn verb_override_forwards_put_for_inbound_post() {
    let mut cache = TtlCache::new();
    cache.set(verb_key("pol-1", b"infer"), CacheValue::Bytes(b"PUT".to_vec()), None, 0);
    let twin = running_twin();

    let verb = cached_verb(&cache, "pol-1", b"infer", 5).unwrap();
    assert_eq!(verb, b"PUT".to_vec());

    // The inbound request arrived as POST; the policy's verb wins.
    let f = build_forward(&twin, "infer", verb, b"POST", b"{\"a\":2}".to_vec()).unwrap();
    assert_eq!(f.method, b"PUT".to_vec());
    assert_eq!(f.port, 8005);
    assert_eq!(f.uri, "http://localhost:8005/infer");
    assert_eq!(f.body, b"{\"a\":2}".to_vec());
}

#[test]
fn missing_cached_verb_is_reported() {
    let cache = TtlCache::new();
    assert!(cached_verb(&cache, "pol-1", b"infer", 0).is_none());
}

#[test]
fn twin_without_public_port_cannot_forward() {
    let mut twin = running_twin();
    twin.twin_port = None;
    let e = build_forward(&twin, "infer", b"PUT".to_vec(), b"POST", Vec::new()).unwrap_err();
    assert_eq!(e.error_kind(), ErrorKind::InvalidState);
}

#[test]
fn upstream_failure_surfaces_without_retry() {
    let e = forward_result(ForwardOutcome::Failed).unwrap_err();
    assert_eq!(e.error_kind(), ErrorKind::UpstreamUnavailable);
    assert_eq!(e.status_code(), 502);

    let (status, body) =
        forward_result(ForwardOutcome::Response { status: 200, body: b"ok".to_vec() }).unwrap();
    assert_eq!(status, 200);
    assert_eq!(body, b"ok".to_vec());
}

#[test]
fn usage_is_recorded_exactly_on_shared_success() {
    let twin = running_twin();
    let outcome = ForwardOutcome::Response { status: 200, body: b"{\"x\":1}".to_vec() };
    let record = usage_record(&twin, b"{\"a\":2}", &outcome).unwrap();
    assert_eq!(record.model_id, "model-1");
    assert_eq!(record.input_data, b"{\"a\":2}".to_vec());
    assert_eq!(record.output_response, b"{\"x\":1}".to_vec());
}

#[test]
fn no_usage_record_after_upstream_failure() {
    let twin = running_twin();
    assert!(usage_record(&twin, b"{\"a\":2}", &ForwardOutcome::Failed).is_none());
}

#[test]
fn no_usage_record_without_sharing() {
    let mut twin = running_twin();
    twin.enable_data_sharing = false;
    let outcome = ForwardOutcome::Response { status: 200, body: b"{\"x\":1}".to_vec() };
    assert!(usage_record(&twin, b"{\"a\":2}", &outcome).is_none());
}
