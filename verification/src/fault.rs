//! The kinds of failure that an operation reports.

use vstd::prelude::*;

verus! {

/// Why an operation failed. Each kind has a number of its own, so that a
/// caller can tell the kinds apart without reading the message.
#[derive(Clone, Copy, Debug, PartialEq, Eq, Structural)]
pub enum Fault {
    /// No row has the identifier that was looked up.
    NotFound,
    /// A uniqueness or reference rule of the tables forbids the row.
    Conflict,
    /// No connection to the store could be had in time.
    ResourceExhausted,
    /// The store could not be reached, or failed while answering.
    StoreUnavailable,
    /// The store answered in a way that its own rules exclude.
    Unexpected,
}

impl Fault {
    /// The number that stands for this kind on the wire.
    pub open spec fn spec_code(self) -> int {
        match self {
            Fault::NotFound => -32001,
            Fault::Conflict => -32002,
            Fault::ResourceExhausted => -32003,
            Fault::StoreUnavailable => -32004,
            Fault::Unexpected => -32603,
        }
    }

    /// The kind that a number stands for, if any.
    pub open spec fn spec_from_code(code: int) -> Option<Fault> {
        if code == -32001 {
            Some(Fault::NotFound)
        } else if code == -32002 {
            Some(Fault::Conflict)
        } else if code == -32003 {
            Some(Fault::ResourceExhausted)
        } else if code == -32004 {
            Some(Fault::StoreUnavailable)
        } else if code == -32603 {
            Some(Fault::Unexpected)
        } else {
            None
        }
    }

    /// The text that goes with this kind.
    pub open spec fn spec_message(self) -> Seq<char> {
        match self {
            Fault::NotFound => "not found"@,
            Fault::Conflict => "conflict"@,
            Fault::ResourceExhausted => "resource exhausted"@,
            Fault::StoreUnavailable => "store unavailable"@,
            Fault::Unexpected => "unexpected store state"@,
        }
    }

    /// The number that stands for this kind on the wire.
    pub fn code(&self) -> (code: i64)
        ensures
            code == self.spec_code(),
    {
        match self {
            Fault::NotFound => -32001,
            Fault::Conflict => -32002,
            Fault::ResourceExhausted => -32003,
            Fault::StoreUnavailable => -32004,
            Fault::Unexpected => -32603,
        }
    }

    /// The kind that a number stands for, if any.
    pub fn from_code(code: i64) -> (kind: Option<Fault>)
        ensures
            kind == Fault::spec_from_code(code as int),
    {
        if code == -32001 {
            Some(Fault::NotFound)
        } else if code == -32002 {
            Some(Fault::Conflict)
        } else if code == -32003 {
            Some(Fault::ResourceExhausted)
        } else if code == -32004 {
            Some(Fault::StoreUnavailable)
        } else if code == -32603 {
            Some(Fault::Unexpected)
        } else {
            None
        }
    }

    /// The text that goes with this kind.
    pub fn message(&self) -> (text: &'static str)
        ensures
            text@ == self.spec_message(),
    {
        match self {
            Fault::NotFound => "not found",
            Fault::Conflict => "conflict",
            Fault::ResourceExhausted => "resource exhausted",
            Fault::StoreUnavailable => "store unavailable",
            Fault::Unexpected => "unexpected store state",
        }
    }
}

/// A fault's number identifies its kind: reading the number back gives the
/// fault, so two different kinds never share a number.
pub proof fn lemma_code_identifies_fault(fault: Fault)
    ensures
        Fault::spec_from_code(fault.spec_code()) == Some(fault),
{
}

/// Only the five numbers of the five kinds stand for a fault.
pub proof fn lemma_fault_has_code(code: int, fault: Fault)
    requires
        Fault::spec_from_code(code) == Some(fault),
    ensures
        fault.spec_code() == code,
{
}

} // verus!
