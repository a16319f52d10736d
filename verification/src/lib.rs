//! A value wrapper that can be mutated freely and later put back to the value
//! it held before the first mutation since its last reset.

pub mod capability;
pub mod laws;
pub mod state;
pub mod wrapper;

pub use capability::Resettable;
pub use state::State;
pub use wrapper::ResettableWrapper;
