//! Elementary helpers: packed colours and small numeric routines.

pub mod color;
pub mod math;
