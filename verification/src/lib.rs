//! Verified business rules of a wholesale-market ordering platform: order
//! pricing, inspection outcomes, order-flow decisions, access checks,
//! calendar month bounds, credential checks, code generation and menu trees.

pub mod error;
pub mod text;
pub mod decimal;
pub mod pricing;
pub mod calendar;
pub mod tenant;
pub mod order;
pub mod inspection;
pub mod credentials;
pub mod access;
pub mod codes;
pub mod menu;
pub mod tenant_admin;
pub mod paging;
pub mod system_log;
pub mod requirements;
pub mod statements;
pub mod announcements;
pub mod users;
pub mod trends;
pub mod preparing;
pub mod ordering;
