//! The decision logic of a stand-alone interpreter front end: command-line
//! classification, the plan that the driver follows, the incremental loader
//! of the interactive loop, and the protected-call bookkeeping.

pub mod args;
pub mod args_laws;
pub mod driver;
pub mod interrupt;
pub mod loader;
pub mod report;
pub mod status;
pub mod text;
