//! Proxy-wide state that handshake and middle-relay paths share.

pub mod shared_state;

pub use shared_state::{
    AuthProbeSaturationState, AuthProbeState, ClientIp, DesyncDedupRotationState,
    ProxySharedState, RelayIdleCandidateMeta, RelayIdleCandidateRegistry,
};
