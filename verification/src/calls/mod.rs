//! The call builders of the `presentations` resource. Each holds what its
//! call needs and produces the plan of the request it makes.

pub mod page_get;
pub mod thumbnail;
pub mod batch_update;
pub mod create;
pub mod get;
pub mod requests;
