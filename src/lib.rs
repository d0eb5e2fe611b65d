//! Launch-error lifecycle: an error value that must be inspected before it is
//! discarded, the diagnostic report it yields when it is not, and the
//! decisions of a template-engine adapter.

pub mod error;
pub mod report;
pub mod tracing_context;
pub mod template;
