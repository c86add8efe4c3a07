//! The process-wide Tor capability: an initialize-once lifecycle with an
//! `initialized?` query. Bootstrapping itself is asynchronous outside work;
//! the decisions over its outcomes are here.

use vstd::prelude::*;

use crate::request::NetRequestKind;
use crate::response::NetResponseKind;
use crate::status::NetResultStatus;

verus! {

/// The two states of the process-wide Tor client.
#[derive(Debug, Clone, Copy, PartialEq, Eq, Structural)]
pub enum TorLifecycle {
    /// No bootstrap has succeeded yet.
    Uninitialized,
    /// One bootstrap succeeded; the client stands for the process lifetime.
    Bootstrapped,
}

impl TorLifecycle {
    /// Initialization step, over the outcomes the Tor library reported:
    /// whether the directories made a valid client configuration, and whether
    /// the bootstrap succeeded. Initializing an already-bootstrapped client
    /// is a successful no-op; a bad configuration is `InvalidTorConfig`; a
    /// failed bootstrap is `TorInitializationFailed`. The state never leaves
    /// `Bootstrapped`.
    pub fn init_step(&mut self, config_ok: bool, bootstrap_ok: bool) -> (r: Result<
        (),
        NetResultStatus,
    >)
        ensures
            *old(self) is Bootstrapped ==> (r is Ok && *final(self) is Bootstrapped),
            *old(self) is Uninitialized && !config_ok ==> (r matches Err(e) && e
                == NetResultStatus::InvalidTorConfig && *final(self) is Uninitialized),
            *old(self) is Uninitialized && config_ok && !bootstrap_ok ==> (r matches Err(e) && e
                == NetResultStatus::TorInitializationFailed && *final(self) is Uninitialized),
            *old(self) is Uninitialized && config_ok && bootstrap_ok ==> (r is Ok
                && *final(self) is Bootstrapped),
    {
        match self {
            TorLifecycle::Bootstrapped => Ok(()),
            TorLifecycle::Uninitialized => {
                if !config_ok {
                    Err(NetResultStatus::InvalidTorConfig)
                } else if !bootstrap_ok {
                    Err(NetResultStatus::TorInitializationFailed)
                } else {
                    *self = TorLifecycle::Bootstrapped;
                    Ok(())
                }
            },
        }
    }

    /// Whether a Tor-routed connection may be opened: only once bootstrapped;
    /// before that, `TorClientNotInitialized`.
    pub fn connect_allowed(&self) -> (r: Result<(), NetResultStatus>)
        ensures
            r is Ok <==> self is Bootstrapped,
            r matches Err(e) ==> e == NetResultStatus::TorClientNotInitialized,
    {
        match self {
            TorLifecycle::Bootstrapped => Ok(()),
            TorLifecycle::Uninitialized => Err(NetResultStatus::TorClientNotInitialized),
        }
    }
}

/// Serve a configuration-update request (the Tor operations): `InitTor` runs
/// the initialization step over the reported outcomes and answers
/// `TorInited(true)` on success or the step's error as an error response;
/// `TorInited` answers the query; any other kind is rejected synchronously.
pub fn update_config_response(
    state: &mut TorLifecycle,
    kind: &NetRequestKind,
    config_ok: bool,
    bootstrap_ok: bool,
) -> (r: Result<NetResponseKind, NetResultStatus>)
    ensures
        kind is InitTor ==> {
            &&& (*old(state) is Bootstrapped || (config_ok && bootstrap_ok)) ==> (r matches Ok(k)
                && k matches NetResponseKind::TorInited(b) && b && *final(state) is Bootstrapped)
            &&& (*old(state) is Uninitialized && !config_ok) ==> (r matches Ok(k) && k matches
                NetResponseKind::ResponseError(e) && e == NetResultStatus::InvalidTorConfig
                && *final(state) is Uninitialized)
            &&& (*old(state) is Uninitialized && config_ok && !bootstrap_ok) ==> (r matches Ok(k)
                && k matches NetResponseKind::ResponseError(e) && e
                == NetResultStatus::TorInitializationFailed && *final(state) is Uninitialized)
        },
        kind is TorInited ==> (r matches Ok(k) && k matches NetResponseKind::TorInited(b) && b == (
        *old(state) is Bootstrapped) && *final(state) == *old(state)),
        !(kind is InitTor) && !(kind is TorInited) ==> (r matches Err(e) && e
            == NetResultStatus::InvalidRequestParameters && *final(state) == *old(state)),
{
    match kind {
        NetRequestKind::InitTor(_) => {
            match state.init_step(config_ok, bootstrap_ok) {
                Ok(_) => Ok(NetResponseKind::TorInited(true)),
                Err(e) => Ok(NetResponseKind::ResponseError(e)),
            }
        },
        NetRequestKind::TorInited => {
            let inited = match state {
                TorLifecycle::Bootstrapped => true,
                TorLifecycle::Uninitialized => false,
            };
            Ok(NetResponseKind::TorInited(inited))
        },
        _ => Err(NetResultStatus::InvalidRequestParameters),
    }
}

} // verus!
