//! Plain data carried through the sidecar: the command-line arguments,
//! the tunnel configuration, and the deployment-metadata document.

use vstd::prelude::*;
use std::collections::HashMap;

verus! {

/// Command-line surface of the sidecar.
#[derive(Debug, Clone)]
pub struct Args {
    /// Service name used when deriving the tunnel identity.
    pub service_name: String,
    /// URL traffic is forwarded to; handed to the agent unchanged.
    pub target_url: String,
    /// Seconds to wait for the target URL to report healthy before
    /// supervision starts; zero disables the wait.
    pub health_delay: u32,
}

/// Identity and routing targets of one tunnel, fixed for the whole
/// supervision run.
#[derive(Debug, Clone)]
pub struct TunnelConfig {
    pub tunnel_name: String,
    pub target_lb: String,
    pub target_pool: String,
    pub url: String,
}

impl TunnelConfig {
    /// All four fields are non-empty for the lifetime of a supervision run.
    pub open spec fn wf(&self) -> bool {
        &&& self.tunnel_name@.len() > 0
        &&& self.target_lb@.len() > 0
        &&& self.target_pool@.len() > 0
        &&& self.url@.len() > 0
    }
}

/// Deployment-metadata document describing the running task.
#[derive(Debug, Clone)]
pub struct EcsTask {
    pub cluster: String,
    pub task_arn: String,
    pub family: String,
    pub revision: String,
    pub desired_status: String,
    pub known_status: String,
    pub containers: Vec<Container>,
    pub limits: Limits2,
    pub pull_started_at: String,
    pub pull_stopped_at: String,
    pub availability_zone: String,
}

/// One container entry of the metadata document.
#[derive(Debug, Clone)]
pub struct Container {
    pub docker_id: String,
    pub name: String,
    pub docker_name: String,
    pub image: String,
    pub image_id: String,
    pub labels: HashMap<String, String>,
    pub desired_status: String,
    pub known_status: String,
    pub limits: Limits,
    pub created_at: String,
    pub started_at: String,
    pub type_field: String,
    pub networks: Vec<Network>,
    pub health: Option<Health>,
    pub volumes: Vec<Volume>,
}

/// Resource limits of one container.
#[derive(Debug, Clone)]
pub struct Limits {
    pub cpu: i64,
    pub memory: Option<i64>,
}

/// Network attachment of one container.
#[derive(Debug, Clone)]
pub struct Network {
    pub network_mode: String,
    pub ipv4addresses: Vec<String>,
}

/// Reported health of one container.
#[derive(Debug, Clone)]
pub struct Health {
    pub status: String,
    pub status_since: String,
}

/// Volume mounted into one container.
#[derive(Debug, Clone)]
pub struct Volume {
    pub docker_name: String,
    pub destination: String,
}

/// Resource limits of the whole task.
#[derive(Debug, Clone)]
pub struct Limits2 {
    pub cpu: i64,
    pub memory: i64,
}

} // verus!
