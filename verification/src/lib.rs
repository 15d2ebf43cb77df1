//! Role-based access control for the FluxaPay payment contracts.
//!
//! The state of the access-control registry is modelled by
//! [`access_control::AccessControl`]; roles and accounts by the types of
//! [`role`].

pub mod access_control;
pub mod laws;
pub mod role;
