//! A two-operand integer calculator engine.
//!
//! The engine is a deterministic state machine over two `i64` operands, a
//! pending arithmetic operator and an input-focus flag. It is driven by four
//! events (digit press, operator press, equals, clear) and queried through a
//! display value; a rendering layer draws the state and dispatches the events.

pub mod engine;
pub mod laws;
