//! Fallible growth for `Vec`: operations that report a failed allocation
//! instead of aborting the process.

pub mod capacity;
pub mod fallible_vec;
pub mod grow;
pub mod read;

pub use crate::fallible_vec::FallibleVec;
pub use crate::read::try_read_to_end;
