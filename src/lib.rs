//! Whether the running process requires secure execution: the tri-state
//! status and its word encoding, the resolution of a platform probe, and the
//! process-wide memoized query built on them.

pub mod status;

pub use status::{Status, UNRESOLVED_WORD};
pub mod platform;

pub use platform::{requires_secure_execution_uncached, Probe};
pub mod cache;

pub use cache::{next_step, publish, requires_secure_execution, Step};
