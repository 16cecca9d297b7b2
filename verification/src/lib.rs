//! Core of a newsletter-subscription service: validated domain values,
//! confirmation-token generation, an atomic two-row subscription store,
//! confirmation-email construction, and the pipeline that sequences them
//! with a precise error taxonomy.

pub mod domain;
pub mod email;
pub mod errors;
pub mod pipeline;
pub mod store;
pub mod token;
