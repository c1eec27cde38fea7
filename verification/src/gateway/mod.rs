//! Protocol-agnostic routing: how upstream adapters are reached and which
//! inputs a route is resolved from, and the bridge from plugin manifests.
pub mod route;
pub mod spawn;
pub mod bridge;
