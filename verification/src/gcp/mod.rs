pub mod auth;
pub mod compute;
pub mod data;
pub mod network;
pub mod parse;
pub mod pricing;
pub mod scan;
pub mod serverless;
pub mod services;
