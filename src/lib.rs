// A message service's core: worker identities, per-worker request counts, the
// shared message log, and the request handlers that tie them together.

pub mod identity;
pub mod store;
pub mod worker;
pub mod handlers;
pub mod service;
