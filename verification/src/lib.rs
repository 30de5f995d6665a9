//! State and decision engine of a reverse-proxying load balancer.
//!
//! The library holds the instance registry with its enable/disable
//! lifecycle, the selection algorithms (random, round-robin), the
//! health-check hysteresis rule, and the capacity-based admission
//! control. All I/O (serving HTTP, probing backends, forwarding
//! requests) lives outside the library and hands it plain values.

mod counter;
mod dispatch;
mod hysteresis;
mod laws;
mod provider;
mod registry;
mod select;
mod types;

pub use counter::RequestCounter;
pub use dispatch::try_admit;
pub use dispatch::wrap_response;
pub use hysteresis::health_count_after;
pub use hysteresis::health_step_count;
pub use hysteresis::health_step_enabled;
pub use hysteresis::lemma_health_count_saturates;
pub use hysteresis::lemma_hysteresis;
pub use laws::lemma_round_robin_window;
pub use laws::lemma_rr_trace_serialized;
pub use laws::lemma_rr_trace_enabled;
pub use laws::rr_trace;
pub use provider::check;
pub use registry::LoadBalancerState;
pub use registry::RegistryModel;
pub use registry::count_true;
pub use registry::spec_current_capacity;
pub use select::any_enabled;
pub use select::gap;
pub use select::rr_find;
pub use select::rr_selected;
pub use select::step_idx;
pub use types::Algorithm;
pub use types::BalancerError;
pub use types::Instance;
