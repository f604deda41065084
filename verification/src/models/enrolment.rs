//! Whether the platform considers this terminal's hardware already enrolled.
//!
//! Completing a re-enrolment archives a working terminal, and completing a first enrolment
//! does not; a terminal that was not told is undetermined, never "not enrolled".
use vstd::prelude::*;

verus! {

/// Whether the platform considers this terminal's hardware already enrolled.
#[derive(Debug, Clone, Copy, PartialEq, Eq, Structural)]
pub enum HardwareEnrolment {
    /// The platform said this hardware is enrolled: pairing again archives a terminal.
    AlreadyEnrolled,
    /// The platform said this hardware is not enrolled.
    NotEnrolled,
    /// The platform said nothing.
    Undetermined,
}

impl HardwareEnrolment {
    /// The platform's boolean answer: `true` is already enrolled, `false` is not.
    pub fn from_platform_flag(flag: bool) -> (e: HardwareEnrolment)
        ensures
            flag ==> e == HardwareEnrolment::AlreadyEnrolled,
            !flag ==> e == HardwareEnrolment::NotEnrolled,
    {
        if flag {
            HardwareEnrolment::AlreadyEnrolled
        } else {
            HardwareEnrolment::NotEnrolled
        }
    }
}

impl Default for HardwareEnrolment {
    fn default() -> (e: HardwareEnrolment)
        ensures
            e == HardwareEnrolment::Undetermined,
    {
        HardwareEnrolment::Undetermined
    }
}

} // verus!
