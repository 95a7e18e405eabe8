//! The two capabilities of a transform, for a single import.

pub use crate::transform::{Chain, Transform};
