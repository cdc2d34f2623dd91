//! Leveled, tag-scoped logging with independently filtered destinations,
//! together with a few small data types shared by binary-format code.

pub mod codec;
pub mod log;
pub mod types;
