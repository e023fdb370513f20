//! The protocol's numeric status codes, as they travel in the
//! `grpc-status` trailer.

use vstd::prelude::*;

verus! {

/// A protocol status.
#[derive(Clone, Copy, Debug, PartialEq, Eq, Structural)]
pub enum ProtoStatus {
    Success,
    InvalidArgument,
    NotFound,
    AlreadyExists,
    Unauthenticated,
}

/// The numeric value of a protocol status.
pub open spec fn code_of(s: ProtoStatus) -> u16 {
    match s {
        ProtoStatus::Success => 0,
        ProtoStatus::InvalidArgument => 3,
        ProtoStatus::NotFound => 5,
        ProtoStatus::AlreadyExists => 6,
        ProtoStatus::Unauthenticated => 16,
    }
}

impl ProtoStatus {
    /// The numeric value, as entered into the trailer.
    pub fn code(&self) -> (r: u16)
        ensures
            r == code_of(*self),
    {
        match self {
            ProtoStatus::Success => 0,
            ProtoStatus::InvalidArgument => 3,
            ProtoStatus::NotFound => 5,
            ProtoStatus::AlreadyExists => 6,
            ProtoStatus::Unauthenticated => 16,
        }
    }
}

} // verus!
