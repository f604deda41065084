//! The domain models: PIN and operator identity, the catalogue, carts, transactions, shifts
//! and reports.

pub mod parse;
pub mod pin;
pub mod operator;
pub mod verification;
pub mod product;
pub mod shift;
pub mod feature;
pub mod enrolment;
pub mod cart;
pub mod transaction;
pub mod z_report;
