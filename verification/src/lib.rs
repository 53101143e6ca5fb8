//! Verified core of the JMCP control plane: the signed work-envelope protocol,
//! and the pure mapping logic of its worker adapters and cockpit projections.

pub mod clock;
pub mod crypto;
pub mod domain;
pub mod ecosystem;
pub mod envelope;
pub mod forge;
pub mod evidence;
pub mod jailgun;
pub mod jailgun_ingest;
pub mod jailgun_request;
pub mod jankurai;
pub mod jekko;
pub mod jitux;
pub mod json;
pub mod ops;
pub mod subject;
pub mod telegram;
pub mod text;
pub mod universe;
pub mod voice;
pub mod worker_json;
pub mod zyal;
