//! Resolution, validation and plan synthesis for derived conversions between
//! two parallel data types, and the runtime helpers the generated code uses.
pub mod model;
pub mod diag;
pub mod resolve;
pub mod validate;
pub mod plan;
pub mod synth;
pub mod mapper;
pub mod naming;
pub mod laws;
pub mod with;
