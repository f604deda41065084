//! Parsing the enums the services read back from text.
use vstd::prelude::*;

use crate::text::{append_str, owned};

verus! {

/// A string that names no variant of the type it was read as; it carries the rejected input.
#[derive(Debug, Clone, PartialEq, Eq)]
pub enum ParseError {
    /// Not a log level.
    LogLevel(String),
    /// Not a return reason.
    ReturnReason(String),
    /// Not a refund method.
    RefundMethod(String),
}

impl ParseError {
    /// The sentence this error says, naming the rejected value.
    pub fn message(&self) -> (s: String)
        ensures
            self matches ParseError::LogLevel(v) ==> s@ == "`"@ + v@
                + "` is not a log level (expected ERROR, WARN, INFO, DEBUG or TRACE)"@,
            self matches ParseError::ReturnReason(v) ==> s@ == "`"@ + v@
                + "` is not a return reason (expected DEFECTIVE, WRONG_PRODUCT, CHANGED_MIND, EXPIRED, PRICE_ADJUSTMENT, EXCHANGE or OTHER)"@,
            self matches ParseError::RefundMethod(v) ==> s@ == "`"@ + v@
                + "` is not a refund method (expected CASH, CARD, STORE_CREDIT or EXCHANGE)"@,
    {
        let mut s = owned("`");
        match self {
            ParseError::LogLevel(v) => {
                append_str(&mut s, v.as_str());
                append_str(&mut s, "` is not a log level (expected ERROR, WARN, INFO, DEBUG or TRACE)");
            },
            ParseError::ReturnReason(v) => {
                append_str(&mut s, v.as_str());
                append_str(
                    &mut s,
                    "` is not a return reason (expected DEFECTIVE, WRONG_PRODUCT, CHANGED_MIND, EXPIRED, PRICE_ADJUSTMENT, EXCHANGE or OTHER)",
                );
            },
            ParseError::RefundMethod(v) => {
                append_str(&mut s, v.as_str());
                append_str(
                    &mut s,
                    "` is not a refund method (expected CASH, CARD, STORE_CREDIT or EXCHANGE)",
                );
            },
        }
        s
    }
}

} // verus!
