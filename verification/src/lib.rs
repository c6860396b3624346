//! Per-task signal delivery.
//!
//! A task's signal state tracks which signals are pending and masked, how
//! each signal number is disposed (default action, ignore, or a user
//! handler), and the detour of the task's saved execution context into a
//! handler and back out of it.

pub mod context;
pub mod defs;
pub mod signal_result;
pub mod state;

pub use context::LocalContext;
pub use defs::DefaultAction;
pub use defs::HandlerAction;
pub use defs::SignalDisposition;
pub use defs::MAX_SIG;
pub use defs::NON_MASKABLE_BITS;
pub use defs::SIGKILL;
pub use defs::SIGSTOP;
pub use defs::default_action_of;
pub use signal_result::SignalResult;
pub use state::SignalState;
