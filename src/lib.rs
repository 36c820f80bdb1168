//! Verified core of a keyboard and pointer input logger: key resolution,
//! modifier tracking, the event model and the buffering policy.

pub mod keys;
pub mod modifiers;
pub mod event;
pub mod logger;
