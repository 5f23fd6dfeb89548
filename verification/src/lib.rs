//! Control protocol of a step-by-step figure generation debugger.
//!
//! A generation run is driven by two parties: a control panel that decides,
//! once per rendered frame, which commands to issue, and a worker that
//! decides, once per received command, whether to advance the optimizer or to
//! leave. This crate holds those decisions as state machines over plain
//! values, together with the single-value slot through which the worker hands
//! its latest figure to the renderer.
pub mod message;
pub mod input;
pub mod worker;
pub mod slot;
pub mod panel;
pub mod render;
pub mod session;
