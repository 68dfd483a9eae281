//! Sidecar supervisor for an externally supplied tunnel agent.
//!
//! The library holds the decision logic of the sidecar: the supervision
//! state machine that launches, watches and restarts the agent, the
//! classification of health probes, the derivation of the tunnel identity
//! from deployment metadata, and the command plans issued against the
//! external control-plane client.  All process, network and signal work
//! is left to the surrounding program, which performs the actions this
//! library asks for and feeds the observed outcomes back in.

pub mod cloudflared;
pub mod health;
pub mod metadata;
pub mod structs;
pub mod supervisor;
