//! The samplers that the renderer draws camera and light samples from.
pub mod random;
pub mod stratified;
