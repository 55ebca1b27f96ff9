//! RPC status values: an outcome code together with a human-readable message.

use vstd::prelude::*;

verus! {

/// Outcome code of an exchange, a closed set of protocol-defined codes.
#[derive(Clone, Copy, PartialEq, Eq, Structural, Debug)]
pub enum Code {
    Okay,
    Unknown,
    Internal,
}

/// The numeric value a code carries in a trailer record.
pub open spec fn code_num(c: Code) -> u32 {
    match c {
        Code::Okay => 0,
        Code::Unknown => 2,
        Code::Internal => 13,
    }
}

impl Code {
    /// The numeric value of this code, as transmitted in a trailer.
    pub fn number(self) -> (n: u32)
        ensures
            n == code_num(self),
    {
        match self {
            Code::Okay => 0,
            Code::Unknown => 2,
            Code::Internal => 13,
        }
    }
}

/// Mathematical model of a status: its code and the characters of its message.
pub ghost struct StatusView {
    pub code: Code,
    pub message: Seq<char>,
}

/// An RPC status: an outcome code plus a diagnostic message.
#[derive(Debug)]
pub struct Status {
    code: Code,
    message: String,
}

impl View for Status {
    type V = StatusView;

    closed spec fn view(&self) -> StatusView {
        StatusView { code: self.code, message: self.message@ }
    }
}

/// The status an exchange reports when it completed cleanly.
pub open spec fn ok_status_view() -> StatusView {
    StatusView { code: Code::Okay, message: Seq::<char>::empty() }
}

impl Status {
    /// A successful status with the given message.
    pub fn ok(message: &str) -> (s: Status)
        ensures
            s@ == (StatusView { code: Code::Okay, message: message@ }),
    {
        Status { code: Code::Okay, message: message.to_owned() }
    }

    /// An internal-error status with the given message.
    pub fn internal(message: &str) -> (s: Status)
        ensures
            s@ == (StatusView { code: Code::Internal, message: message@ }),
    {
        Status { code: Code::Internal, message: message.to_owned() }
    }

    /// The status's outcome code.
    pub fn code(&self) -> (c: Code)
        ensures
            c == self@.code,
    {
        self.code
    }

    /// The status's diagnostic message.
    pub fn message(&self) -> (m: &String)
        ensures
            m@ == self@.message,
    {
        &self.message
    }
}

} // verus!
