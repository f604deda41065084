//! Parsing domain enums from the strings that storage and the wire use.
use vstd::prelude::*;

use crate::text::owned;

verus! {

/// A stored or transmitted string that names no variant of the domain type it was read as.
/// Each variant carries the rejected input verbatim.
#[derive(Debug, Clone, PartialEq, Eq)]
pub enum ParseError {
    /// Not a shift status.
    ShiftStatus(String),
    /// Not a transaction status.
    TransactionStatus(String),
    /// Not a payment method.
    PaymentMethod(String),
    /// Not a product type.
    ProductType(String),
    /// Not a product nature.
    ProductNature(String),
    /// Not an operator role.
    OperatorRole(String),
}

impl ParseError {
    /// The sentence this error says, naming the rejected value.
    pub open spec fn message_text(&self) -> Seq<char> {
        match self {
            ParseError::ShiftStatus(v) => "`"@ + v@
                + "` is not a shift status (expected active, closed or suspended)"@,
            ParseError::TransactionStatus(v) => "`"@ + v@
                + "` is not a transaction status (expected DRAFT, COMPLETED, VOIDED or RETURNED)"@,
            ParseError::PaymentMethod(v) => "`"@ + v@
                + "` is not a payment method (expected CASH, CARD, WALLET, CREDIT or OTHER)"@,
            ParseError::ProductType(v) => "`"@ + v@
                + "` is not a product type (expected PHYSICAL_GOOD, CONSUMABLE, BUNDLE, SERVICE, FEE, LABOR, DIGITAL, SUBSCRIPTION, RENTAL, WARRANTY or RAW_MATERIAL)"@,
            ParseError::ProductNature(v) => "`"@ + v@
                + "` is not a product nature (expected TANGIBLE, INTANGIBLE or HYBRID)"@,
            ParseError::OperatorRole(v) => "`"@ + v@
                + "` is not an operator role (expected CASHIER, SUPERVISOR or MANAGER)"@,
        }
    }

    /// The sentence this error says, naming the rejected value.
    pub fn message(&self) -> (s: String)
        ensures
            s@ == self.message_text(),
    {
        let mut s = owned("`");
        match self {
            ParseError::ShiftStatus(v) => {
                s.append(v.as_str());
                s.append("` is not a shift status (expected active, closed or suspended)");
            },
            ParseError::TransactionStatus(v) => {
                s.append(v.as_str());
                s.append(
                    "` is not a transaction status (expected DRAFT, COMPLETED, VOIDED or RETURNED)",
                );
            },
            ParseError::PaymentMethod(v) => {
                s.append(v.as_str());
                s.append(
                    "` is not a payment method (expected CASH, CARD, WALLET, CREDIT or OTHER)",
                );
            },
            ParseError::ProductType(v) => {
                s.append(v.as_str());
                s.append(
                    "` is not a product type (expected PHYSICAL_GOOD, CONSUMABLE, BUNDLE, SERVICE, FEE, LABOR, DIGITAL, SUBSCRIPTION, RENTAL, WARRANTY or RAW_MATERIAL)",
                );
            },
            ParseError::ProductNature(v) => {
                s.append(v.as_str());
                s.append("` is not a product nature (expected TANGIBLE, INTANGIBLE or HYBRID)");
            },
            ParseError::OperatorRole(v) => {
                s.append(v.as_str());
                s.append("` is not an operator role (expected CASHIER, SUPERVISOR or MANAGER)");
            },
        }
        s
    }
}

} // verus!
