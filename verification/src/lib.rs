//! Counter engine for a control-surface device: pure transition logic for a
//! persisted counter (its value survives across appearances) and a temporary
//! counter (its value resets to zero whenever it becomes visible).
//!
//! The engine is pure: each handler takes the instance's current settings and
//! returns the updated settings together with the decimal title to display.
//! The host glue that persists the settings and renders the title lives
//! outside this crate.
//!
//! Arithmetic policy: `value` and `step` are `i64`, and every addition and
//! multiplication wraps around in two's complement (the one deterministic
//! policy this crate commits to).

pub mod arith;
pub mod decimal;
pub mod engine;
pub mod settings;
