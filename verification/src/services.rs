//! The terminal's services: the decisions each one makes between the store, the platform and
//! the person at the till.

pub mod offline_service;
pub mod auth_service;
pub mod operator_sign_in;
pub mod platform_heartbeat_service;
pub mod pairing_service;
pub mod conflict_service;
pub mod draft_service;
pub mod emv_service;
pub mod parse;
pub mod log_service;
pub mod cart_service;
pub mod platform_sync;
pub mod feature_service;
