//! The verified core of a component host runtime that bridges a sandboxed
//! guest module to a thread-confined native windowing loop: the resource table
//! of windows, the window broker's request bookkeeping, the normalisation and
//! ordered dispatch of native events, and the wake-cycle decisions of the loop.

pub mod broker;
pub mod dispatch;
pub mod driver;
pub mod event;
pub mod model;
pub mod table;
