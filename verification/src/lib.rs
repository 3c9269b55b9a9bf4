//! A moving (sliding-window) average service whose arithmetic is delegated to
//! two dependencies: one that sums a list of values and one that divides.
//!
//! The library holds the service's decisions: its identity and API document,
//! the validation of a request, the order in which windows are summed and
//! divided, how each dependency reply is read, and which reply the service
//! sends. The caller performs the calls to the dependencies: it starts an
//! evaluation with [`evaluation::begin`], makes each request the evaluation
//! asks for, and hands the reply back until the evaluation is finished.

pub mod api;
pub mod api_doc;
pub mod evaluation;
pub mod laws;
pub mod reply;
