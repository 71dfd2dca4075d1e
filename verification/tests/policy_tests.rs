use digital_twin_mw::cache::CacheValue;
use digital_twin_mw::cache::TtlCache;
use digital_twin_mw::errors::ErrorKind;
use digital_twin_mw::keys::model_limit_key;
use digital_twin_mw::keys::user_count_key;
use digital_twin_mw::keys::verb_key;
use digital_twin_mw::policy::Policy;
use digital_twin_mw::policy::ResetFrequency;
use digital_twin_mw::validate::RequestPolicyValidated;
use digital_twin_mw::validate::ValidateCreatePolicy;
use digital_twin_mw::validate::ValidateCreatePolicyAction;

fn sample_request() -> RequestPolicyValidated {
    RequestPolicyValidated {
        policy_info: ValidateCreatePolicy {
            name: Some("basic".to_string()),
            description: Some("basic plan".to_string()),
            model_id: Some(1),
            block_after: None,
        },
        policy_action_info: vec![ValidateCreatePolicyAction {
            policy_id: Some(1),
            end_point: Some("Infer".to_string()),
            description: Some("inference calls".to_string()),
            end_point_verb: Some("put".to_string()),
            action_count: Some(10),
            reset_frequency_id: Some(1),
        }],
    }
}

#[test]
fn window_lengths() {
    assert_eq!(ResetFrequency::Daily.window_minutes(), Some(1440));
    assert_eq!(ResetFrequency::Weekly.window_minutes(), Some(7 * 1440));
    assert_eq!(ResetFrequency::Monthly.window_minutes(), Some(30 * 1440));
    assert_eq!(ResetFrequency::Yearly.window_minutes(), Some(365 * 1440));
    assert_eq!(ResetFrequency::Unbounded.window_minutes(), None);
    assert_eq!(ResetFrequency::Daily.window_seconds(), Some(86400));
    assert_eq!(ResetFrequency::Unbounded.window_seconds(), None);
}

#[test]
fn reset_frequency_codes() {
    assert_eq!(ResetFrequency::from_code(1), ResetFrequency::Daily);
    assert_eq!(ResetFrequency::from_code(2), ResetFrequency::Weekly);
    assert_eq!(ResetFrequency::from_code(3), ResetFrequency::Monthly);
    assert_eq!(ResetFrequency::from_code(4), ResetFrequency::Yearly);
    assert_eq!(ResetFrequency::from_code(0), ResetFrequency::Unbounded);
    assert_eq!(ResetFrequency::from_code(99), ResetFrequency::Unbounded);
}

#[test]
fn build_normalizes_and_versions() {
    let req = sample_request();
    let p = Policy::build(
        "pol-1".to_string(),
        "model-1".to_string(),
        &req,
        vec!["act-1".to_string()],
        0,
    )
    .unwrap();
    assert_eq!(p.version, 1);
    assert_eq!(p.name, "basic");
    assert_eq!(p.block_after, 0);
    assert_eq!(p.actions.len(), 1);
    let a = &p.actions[0];
    assert_eq!(a.id, "act-1");
    assert_eq!(a.policy_id, "pol-1");
    // The endpoint is lower-cased and the verb upper-cased.
    assert_eq!(a.end_point, b"infer".to_vec());
    assert_eq!(a.verb, b"PUT".to_vec());
    assert_eq!(a.action_count, 10);
    assert_eq!(a.reset, ResetFrequency::Daily);
}

#[test]
fn build_supersedes_previous_versions() {
    let req = sample_request();
    let p = Policy::build(
        "pol-2".to_string(),
        "model-1".to_string(),
        &req,
        vec!["act-2".to_string()],
        3,
    )
    .unwrap();
    assert_eq!(p.version, 4);
}

#[test]
fn build_clamps_missing_and_negative_counts() {
    let mut req = sample_request();
    req.policy_action_info[0].action_count = None;
    let p = Policy::build("p".to_string(), "m".to_string(), &req, vec!["a".to_string()], 0)
        .unwrap();
    assert_eq!(p.actions[0].action_count, 0);

    let mut req = sample_request();
    req.policy_action_info[0].action_count = Some(-5);
    let p = Policy::build("p".to_string(), "m".to_string(), &req, vec!["a".to_string()], 0)
        .unwrap();
    assert_eq!(p.actions[0].action_count, 0);
}

#[test]
fn build_refuses_invalid_payload() {
    let mut req = sample_request();
    req.policy_action_info[0].end_point = None;
    let e = Policy::build("p".to_string(), "m".to_string(), &req, vec!["a".to_string()], 0)
        .unwrap_err();
    assert_eq!(e.error_kind(), ErrorKind::ValidationFailed);
    assert_eq!(e.message(), "missing policy endPoint");
}

#[test]
fn latest_takes_highest_version() {
    let req = sample_request();
    let mk = |id: &str, v: u32| {
        let mut p = Policy::build(
            id.to_string(),
            "model-1".to_string(),
            &req,
            vec!["a".to_string()],
            0,
        )
        .unwrap();
        p.version = v;
        p
    };
    let policies = vec![mk("p1", 1), mk("p3", 3), mk("p2", 2)];
    let latest = Policy::latest(&policies).unwrap();
    assert_eq!(latest.id, "p3");
    assert_eq!(latest.version, 3);
    let none: Vec<Policy> = Vec::new();
    assert!(Policy::latest(&none).is_none());
}

#[test]
fn policy_creation_seeds_limit_and_verb() {
    let req = sample_request();
    let p = Policy::build(
        "pol-1".to_string(),
        "model-1".to_string(),
        &req,
        vec!["act-1".to_string()],
        0,
    )
    .unwrap();
    let writes = p.seed_writes();
    assert_eq!(writes.len(), 2);
    assert_eq!(writes[0].key, model_limit_key("pol-1", b"infer"));
    assert!(matches!(writes[0].value, CacheValue::Count(10)));
    assert_eq!(writes[0].ttl, None);
    assert_eq!(writes[1].key, verb_key("pol-1", b"infer"));
    match &writes[1].value {
        CacheValue::Bytes(v) => assert_eq!(v, &b"PUT".to_vec()),
        _ => panic!("verb write holds no bytes"),
    }
    assert_eq!(writes[1].ttl, None);

    let mut cache = TtlCache::new();
    cache.apply(writes, 0);
    assert!(cache.get(&model_limit_key("pol-1", b"infer"), 0).is_some());
    assert!(cache.get(&verb_key("pol-1", b"infer"), 0).is_some());
}

#[test]
fn subscription_seeds_zeroed_counters() {
    let req = sample_request();
    let p = Policy::build(
        "pol-1".to_string(),
        "model-1".to_string(),
        &req,
        vec!["act-1".to_string()],
        0,
    )
    .unwrap();
    let writes = p.seed_user_writes("user-1", "twin-1");
    assert_eq!(writes.len(), 1);
    assert_eq!(writes[0].key, user_count_key("user-1", "twin-1", b"infer"));
    assert!(matches!(writes[0].value, CacheValue::Count(0)));
    // A daily action's counter expires with the day.
    assert_eq!(writes[0].ttl, Some(86400));
}
