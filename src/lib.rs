//! A fixed-capacity set of boolean flags, packed one bit per flag into a byte
//! array whose length is a const generic parameter.
pub mod bits;
pub mod flag;
pub mod flags;
pub mod render;

pub use flag::Flag;
pub use flags::Flags;
