//! One module per specialist. None depends on another.

pub mod address;
pub mod damage;
pub mod dummy;
