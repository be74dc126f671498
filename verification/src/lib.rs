//! Waste detection for cloud resources: resource model, response decoding,
//! cost estimation and the detection rules, with their contracts.

pub mod text;
pub mod json;
pub mod provider;
pub mod rules;
pub mod numfmt;
pub mod clock;
pub mod detector;
pub mod gcp;
pub mod account;
pub mod credentials;
pub mod engine;
pub mod export;
pub mod cost;
