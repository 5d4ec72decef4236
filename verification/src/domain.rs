//! The entities of the community and the components that govern them.

pub mod accounts;
pub mod announcement;
pub mod audit;
pub mod authorization;
pub mod catalog;
pub mod models;
pub mod price;
pub mod retry;
pub mod verification;
