//! Domain logic of a point-of-sale terminal: PIN entry and operator identity, the
//! product catalogue, cart arithmetic, transactions, the offline queue and the
//! decisions the terminal's services make around the platform.

pub mod dec;
pub mod text;
pub mod fields;
pub mod time;
pub mod ids;
pub mod models;
pub mod services;
pub mod printing;
