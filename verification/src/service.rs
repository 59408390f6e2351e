//! How the node that hosts the pallet starts: which services it runs and with which
//! settings, decided from the plain values of its configuration. The services themselves are
//! started by the host.
use vstd::prelude::*;

verus! {

/// The marker type that names the node's native executor. It carries no behaviour here: the
/// executor trait belongs to the Substrate client crates, so the host implements it on its own
/// copy of this type, which forwards runtime calls to the natively compiled runtime.
pub struct ExecutorDispatch;

/// Why the node refuses to start.
#[derive(Debug, Clone, Copy, PartialEq, Eq)]
pub enum ServiceError {
    /// The configuration asks for a remote keystore, which this node does not support.
    RemoteKeystoresUnsupported,
}

impl ServiceError {
    /// The message that the node reports for this error.
    pub fn message(&self) -> (r: String)
        ensures
            r@ == "Remote Keystores are not supported."@,
    {
        match self {
            ServiceError::RemoteKeystoresUnsupported => "Remote Keystores are not supported.".to_owned(),
        }
    }
}

/// The values of the node's configuration that decide how it starts.
#[derive(Debug, Clone, Copy, PartialEq, Eq)]
pub struct NodeSettings {
    /// A remote keystore is configured.
    pub keystore_remote: bool,
    /// Telemetry endpoints are configured.
    pub telemetry_endpoints_set: bool,
    /// The configured list of telemetry endpoints is empty.
    pub telemetry_endpoints_empty: bool,
    /// The node is an authority: it authors blocks.
    pub is_authority: bool,
    /// Offchain workers are enabled.
    pub offchain_worker_enabled: bool,
    /// GRANDPA finality is disabled.
    pub disable_grandpa: bool,
    /// Blocks are authored even when the node is not in sync.
    pub force_authoring: bool,
}

/// The number of messages that the telemetry worker buffers.
pub const TELEMETRY_BUFFER_SIZE: usize = 16;

/// How long GRANDPA waits between gossip rounds, in milliseconds.
pub const GRANDPA_GOSSIP_DURATION_MS: u64 = 333;

/// Every how many blocks GRANDPA produces a justification.
pub const GRANDPA_JUSTIFICATION_PERIOD: u32 = 512;

/// What the first stage of start-up sets up besides the client, backend, pools and queues.
#[derive(Debug, Clone, Copy, PartialEq, Eq)]
pub struct PartialPlan {
    /// The buffer size of the telemetry worker, when telemetry runs.
    pub telemetry_buffer: Option<usize>,
    /// Whether the transaction pool validates transactions itself (on an authority) rather
    /// than only passing them on.
    pub pool_is_validator: bool,
}

/// How the AURA block-authoring task runs.
#[derive(Debug, Clone, Copy, PartialEq, Eq)]
pub struct AuraPlan {
    /// Blocks are authored even when the node is not in sync.
    pub force_authoring: bool,
}

/// How the GRANDPA voter runs.
#[derive(Debug, Clone, Copy, PartialEq, Eq)]
pub struct GrandpaPlan {
    /// The gossip duration, in milliseconds.
    pub gossip_duration_ms: u64,
    /// Every how many blocks a justification is produced.
    pub justification_period: u32,
    /// Whether the observer protocol is enabled.
    pub observer_enabled: bool,
    /// Whether the voter is given the node's keystore.
    pub with_keystore: bool,
}

/// Which services a full node runs.
#[derive(Debug, Clone, Copy, PartialEq, Eq)]
pub struct FullPlan {
    /// The first stage.
    pub partial: PartialPlan,
    /// Whether offchain workers run.
    pub offchain_workers: bool,
    /// The block-authoring task, when the node authors blocks.
    pub aura: Option<AuraPlan>,
    /// The finality voter, when GRANDPA is enabled.
    pub grandpa: Option<GrandpaPlan>,
}

/// Whether telemetry runs: endpoints are configured and there is at least one.
pub open spec fn telemetry_runs(s: NodeSettings) -> bool {
    s.telemetry_endpoints_set && !s.telemetry_endpoints_empty
}

/// Decides the first stage of start-up: a node with a remote keystore is refused; the
/// telemetry worker runs, with a buffer of `TELEMETRY_BUFFER_SIZE`, when endpoints are set;
/// and the transaction pool validates transactions when the node is an authority.
pub fn plan_partial(s: &NodeSettings) -> (r: Result<PartialPlan, ServiceError>)
    ensures
        r == plan_partial_spec(*s),
{
    if s.keystore_remote {
        return Err(ServiceError::RemoteKeystoresUnsupported);
    }
    let runs = s.telemetry_endpoints_set && !s.telemetry_endpoints_empty;
    let telemetry_buffer = if runs {
        Some(TELEMETRY_BUFFER_SIZE)
    } else {
        None
    };
    Ok(PartialPlan { telemetry_buffer, pool_is_validator: s.is_authority })
}

/// Decides which services a full node runs: the first stage as `plan_partial` decides it;
/// offchain workers when enabled; block authoring when the node is an authority; and the
/// GRANDPA voter unless disabled, holding the keystore only on an authority.
pub fn plan_full(s: &NodeSettings) -> (r: Result<FullPlan, ServiceError>)
    ensures
        r == plan_full_spec(*s),
{
    let partial = match plan_partial(s) {
        Ok(p) => p,
        Err(e) => return Err(e),
    };
    let aura = if s.is_authority {
        Some(AuraPlan { force_authoring: s.force_authoring })
    } else {
        None
    };
    let grandpa = if !s.disable_grandpa {
        Some(
            GrandpaPlan {
                gossip_duration_ms: GRANDPA_GOSSIP_DURATION_MS,
                justification_period: GRANDPA_JUSTIFICATION_PERIOD,
                observer_enabled: false,
                with_keystore: s.is_authority,
            },
        )
    } else {
        None
    };
    Ok(FullPlan { partial, offchain_workers: s.offchain_worker_enabled, aura, grandpa })
}

/// What `plan_partial` returns.
pub open spec fn plan_partial_spec(s: NodeSettings) -> Result<PartialPlan, ServiceError> {
    if s.keystore_remote {
        Err(ServiceError::RemoteKeystoresUnsupported)
    } else {
        Ok(
            PartialPlan {
                telemetry_buffer: if telemetry_runs(s) {
                    Some(TELEMETRY_BUFFER_SIZE)
                } else {
                    None
                },
                pool_is_validator: s.is_authority,
            },
        )
    }
}

/// What `plan_full` returns.
pub open spec fn plan_full_spec(s: NodeSettings) -> Result<FullPlan, ServiceError> {
    match plan_partial_spec(s) {
        Err(e) => Err(e),
        Ok(partial) => Ok(
            FullPlan {
                partial,
                offchain_workers: s.offchain_worker_enabled,
                aura: if s.is_authority {
                    Some(AuraPlan { force_authoring: s.force_authoring })
                } else {
                    None
                },
                grandpa: if s.disable_grandpa {
                    None
                } else {
                    Some(
                        GrandpaPlan {
                            gossip_duration_ms: GRANDPA_GOSSIP_DURATION_MS,
                            justification_period: GRANDPA_JUSTIFICATION_PERIOD,
                            observer_enabled: false,
                            with_keystore: s.is_authority,
                        },
                    )
                },
            },
        ),
    }
}

} // verus!
