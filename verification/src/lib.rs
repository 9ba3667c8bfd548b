//! Verified core of a small HTTP gateway: service records, their cache keys,
//! request routing and the decision steps of the service-management operations.

pub mod text;
pub mod model;
pub mod keys;
pub mod urls;
pub mod routing;
pub mod proxy;
pub mod error;
pub mod service;
pub mod service_laws;
pub mod cache;
pub mod gateway_laws;
pub mod consistency;
