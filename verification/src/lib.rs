//! Request building for the Google Slides v1 API: OAuth scopes, the hub's
//! settings, the call builders of the `presentations` resource and the
//! request plans they produce.

pub mod scope;
pub mod text;
pub mod scope_set;
pub mod param_map;
pub mod query;
pub mod call_options;
pub mod hub;
pub mod plan;
pub mod calls;
pub mod schema;
pub mod exchange;
pub mod laws;
