use poe_node::service::{
    plan_full, plan_partial, AuraPlan, GrandpaPlan, NodeSettings, PartialPlan, ServiceError,
    GRANDPA_GOSSIP_DURATION_MS, GRANDPA_JUSTIFICATION_PERIOD, TELEMETRY_BUFFER_SIZE,
};

fn settings() -> NodeSettings {
    NodeSettings {
        keystore_remote: false,
        telemetry_endpoints_set: false,
        telemetry_endpoints_empty: false,
        is_authority: true,
        offchain_worker_enabled: true,
        disable_grandpa: false,
        force_authoring: false,
    }
}

#[test]
fn remote_keystore_is_refused() {
    let s = NodeSettings { keystore_remote: true, ..settings() };
    assert_eq!(plan_partial(&s), Err(ServiceError::RemoteKeystoresUnsupported));
    assert_eq!(plan_full(&s), Err(ServiceError::RemoteKeystoresUnsupported));
    assert_eq!(
        ServiceError::RemoteKeystoresUnsupported.message(),
        "Remote Keystores are not supported."
    );
}

#[test]
fn telemetry_runs_only_with_endpoints() {
    assert_eq!(plan_partial(&settings()), Ok(PartialPlan { telemetry_buffer: None, pool_is_validator: true }));
    let empty = NodeSettings { telemetry_endpoints_set: true, telemetry_endpoints_empty: true, ..settings() };
    assert_eq!(plan_partial(&empty), Ok(PartialPlan { telemetry_buffer: None, pool_is_validator: true }));
    let set = NodeSettings { telemetry_endpoints_set: true, ..settings() };
    assert_eq!(plan_partial(&set), Ok(PartialPlan { telemetry_buffer: Some(16), pool_is_validator: true }));
    assert_eq!(TELEMETRY_BUFFER_SIZE, 16);
}

#[test]
fn authority_runs_aura_and_grandpa_with_keystore() {
    let s = NodeSettings { force_authoring: true, ..settings() };
    let p = plan_full(&s).unwrap();
    assert!(p.offchain_workers);
    assert_eq!(p.aura, Some(AuraPlan { force_authoring: true }));
    assert_eq!(
        p.grandpa,
        Some(GrandpaPlan {
            gossip_duration_ms: 333,
            justification_period: 512,
            observer_enabled: false,
            with_keystore: true,
        })
    );
    assert_eq!(GRANDPA_GOSSIP_DURATION_MS, 333);
    assert_eq!(GRANDPA_JUSTIFICATION_PERIOD, 512);
}

#[test]
fn full_node_without_authoring_needs_no_keystore() {
    let s = NodeSettings { is_authority: false, offchain_worker_enabled: false, ..settings() };
    let p = plan_full(&s).unwrap();
    assert!(!p.offchain_workers);
    assert_eq!(p.aura, None);
    assert_eq!(p.grandpa.map(|g| g.with_keystore), Some(false));
}

#[test]
fn grandpa_can_be_disabled() {
    let s = NodeSettings { disable_grandpa: true, telemetry_endpoints_set: true, ..settings() };
    let p = plan_full(&s).unwrap();
    assert_eq!(p.grandpa, None);
    assert_eq!(p.partial, PartialPlan { telemetry_buffer: Some(16), pool_is_validator: true });
}

#[test]
fn pool_validates_only_on_an_authority() {
    let s = NodeSettings { is_authority: false, ..settings() };
    assert_eq!(plan_partial(&s).unwrap().pool_is_validator, false);
    assert_eq!(plan_partial(&settings()).unwrap().pool_is_validator, true);
}
