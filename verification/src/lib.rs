//! Verified core of a small physically based renderer: the stratified and
//! uniform samplers, the work scheduling and progress reporting of the
//! renderer, and the declarative descriptions of the bundled test scenes.
pub mod configuration;
pub mod configurations;
pub mod progress;
pub mod random_source;
pub mod renderer;
pub mod samplers;
pub mod stratification;
pub mod time_format;
