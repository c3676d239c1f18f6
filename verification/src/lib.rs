//! Verified decision logic of the Weavelit Server: startup classification,
//! request-head admission, bounded response composition, TLS material
//! screening, opaque bearer credentials, and the lifecycle slots and gates
//! the listener and its workflows share.

pub mod startup;
pub mod bytes;
pub mod http_head;
pub mod response;
pub mod pem;
pub mod credentials;
pub mod restore;
pub mod log_assignment;
pub mod audit_recovery;
pub mod password_change;
pub mod admission;
pub mod lifecycle_gate;
pub mod listener;
pub mod request_flow;
pub mod serving;
pub mod database_handle;
