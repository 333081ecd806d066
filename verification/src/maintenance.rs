//! Database maintenance: which registered databases and stray files a request
//! covers, and the course of stopping the service, deleting, and restarting.

pub mod laws;
pub mod orchestrator;
pub mod summary;
pub mod targets;
