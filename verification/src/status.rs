//! Status codes and their severity.

use vstd::prelude::*;
use crate::stack::{stack_status_text, status_code_text};

verus! {

/// The class of a status code, held in its two highest bits.
#[derive(Clone, Copy, Debug, PartialEq, Eq, Structural)]
pub enum Severity {
    Good,
    Uncertain,
    Bad,
}

/// A 32-bit OPC UA status code.
#[derive(Clone, Copy, Debug, PartialEq, Eq, Structural)]
pub struct StatusCode {
    pub bits: u32,
}

/// The operation succeeded.
pub const GOOD: u32 = 0;

/// The node id refers to a node that does not exist in the server address space.
pub const BAD_NODE_ID_UNKNOWN: u32 = 0x8034_0000;

/// The subscription id is not valid.
pub const BAD_SUBSCRIPTION_ID_INVALID: u32 = 0x8028_0000;

/// The operation was cancelled because the connection was closed.
pub const BAD_CONNECTION_CLOSED: u32 = 0x80AE_0000;

/// An unexpected error occurred.
pub const BAD_UNEXPECTED_ERROR: u32 = 0x8001_0000;

/// The severity that a status code of these bits has: good below `0x4000_0000`,
/// uncertain below `0x8000_0000`, bad from there on.
pub open spec fn severity_of(bits: u32) -> Severity {
    if bits < 0x4000_0000 {
        Severity::Good
    } else if bits < 0x8000_0000 {
        Severity::Uncertain
    } else {
        Severity::Bad
    }
}

impl StatusCode {
    /// The status code with these bits.
    pub fn new(bits: u32) -> (code: StatusCode)
        ensures
            code.bits == bits,
    {
        StatusCode { bits }
    }

    /// The status code of success.
    pub fn good() -> (code: StatusCode)
        ensures
            code.bits == GOOD,
            code.is_good_spec(),
    {
        StatusCode { bits: GOOD }
    }

    pub open spec fn severity_spec(&self) -> Severity {
        severity_of(self.bits)
    }

    pub open spec fn is_good_spec(&self) -> bool {
        self.severity_spec() == Severity::Good
    }

    pub open spec fn is_bad_spec(&self) -> bool {
        self.severity_spec() == Severity::Bad
    }

    pub open spec fn is_uncertain_spec(&self) -> bool {
        self.severity_spec() == Severity::Uncertain
    }

    /// The severity of the status code.
    pub fn severity(&self) -> (s: Severity)
        ensures
            s == self.severity_spec(),
    {
        if self.bits < 0x4000_0000 {
            Severity::Good
        } else if self.bits < 0x8000_0000 {
            Severity::Uncertain
        } else {
            Severity::Bad
        }
    }

    /// Writes the name of the status code as the stack displays it.
    pub fn text(&self) -> (text: String)
        ensures
            text@ == status_code_text(self.bits),
    {
        stack_status_text(self.bits)
    }

    /// Whether the operation succeeded.
    #[verifier::when_used_as_spec(is_good_spec)]
    pub fn is_good(&self) -> (b: bool)
        ensures
            b == self.is_good_spec(),
    {
        self.bits < 0x4000_0000
    }

    /// Whether the operation failed.
    #[verifier::when_used_as_spec(is_bad_spec)]
    pub fn is_bad(&self) -> (b: bool)
        ensures
            b == self.is_bad_spec(),
    {
        self.bits >= 0x8000_0000
    }

    /// Whether the outcome of the operation is in doubt.
    #[verifier::when_used_as_spec(is_uncertain_spec)]
    pub fn is_uncertain(&self) -> (b: bool)
        ensures
            b == self.is_uncertain_spec(),
    {
        0x4000_0000 <= self.bits && self.bits < 0x8000_0000
    }
}

/// The severity is the value of the two highest bits, where both bits set
/// counts as bad.
pub proof fn lemma_severity_is_top_bits(bits: u32)
    ensures
        severity_of(bits) == Severity::Good <==> (bits >> 30) == 0,
        severity_of(bits) == Severity::Uncertain <==> (bits >> 30) == 1,
        severity_of(bits) == Severity::Bad <==> (bits >> 30) == 2 || (bits >> 30) == 3,
{
    assert(bits < 0x4000_0000 <==> (bits >> 30) == 0) by (bit_vector);
    assert(0x4000_0000 <= bits < 0x8000_0000 <==> (bits >> 30) == 1) by (bit_vector);
    assert(bits >= 0x8000_0000 <==> ((bits >> 30) == 2 || (bits >> 30) == 3)) by (bit_vector);
}

} // verus!
