//! A circuit breaker for calls to an unreliable operation.
//!
//! The breaker is a three-state machine. While `Closed` it lets attempts
//! through and counts consecutive failures; once tripped it is `Open` and turns
//! calls away until a recovery window has passed; it then goes `HalfOpen` and
//! lets probes through, closing again after enough consecutive successes.
//!
//! The library holds no clock and starts no worker: the caller hands in the
//! current time and the result of the timed attempt, so every transition is a
//! function of plain values.

pub mod model;
pub mod error;
pub mod breaker;
pub mod laws;
pub mod service;

pub use breaker::{CircuitBreaker, Outcome};
pub use error::{function_error_text, MyError};
pub use model::State;
pub use service::{unreliable_service, ServiceError};
