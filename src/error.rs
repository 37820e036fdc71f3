use vstd::prelude::*;
use crate::response::Section;

verus! {

/// The outcome that the system resolver reports when it produced no message.
#[derive(Debug, Clone, Copy, PartialEq, Eq, Structural)]
pub enum ResolutionError {
    /// Success
    Success,
    /// Authoritative answer: host not found.
    HostNotFound,
    /// Non-authoritative "host not found", or a server failure.
    TryAgain,
    /// An error that cannot be recovered from: FORMERR, REFUSED, NOTIMP.
    NoRecovery,
    /// The name is valid, but holds no record of the requested type.
    NoData,
}

impl ResolutionError {
    /// The outcome for a resolver error number; an unknown number counts as
    /// "host not found".
    pub open spec fn spec_from_code(code: i32) -> ResolutionError {
        if code == 0 {
            ResolutionError::Success
        } else if code == 2 {
            ResolutionError::TryAgain
        } else if code == 3 {
            ResolutionError::NoRecovery
        } else if code == 4 {
            ResolutionError::NoData
        } else {
            ResolutionError::HostNotFound
        }
    }

    /// Maps a resolver error number to its outcome.
    pub fn from_code(code: i32) -> (r: ResolutionError)
        ensures
            r == Self::spec_from_code(code),
    {
        match code {
            0 => ResolutionError::Success,
            2 => ResolutionError::TryAgain,
            3 => ResolutionError::NoRecovery,
            4 => ResolutionError::NoData,
            _ => ResolutionError::HostNotFound,
        }
    }

    /// A short text that describes the outcome.
    pub fn message(&self) -> &'static str {
        match self {
            ResolutionError::Success => "Resolver Error 0 (no error)",
            ResolutionError::HostNotFound => "Unknown host",
            ResolutionError::TryAgain => "Host name lookup failure",
            ResolutionError::NoRecovery => "Unknown server error",
            ResolutionError::NoData => "No address associated with name",
        }
    }
}

/// Everything that can go wrong while a message is decoded.
#[derive(Debug, Clone, Copy, PartialEq, Eq, Structural)]
pub enum Error {
    /// Name resolution failed before any message was produced.
    Resolver(ResolutionError),
    /// The message is too short or its records do not fit in it.
    ParseError,
    /// The section holds fewer records than the index asks for.
    NoSuchSectionIndex(Section, usize),
    /// A compressed name points outside the message, loops, or uses a
    /// reserved label kind.
    UncompressError,
    /// A name grows beyond the longest length a domain name may have.
    Unterminated,
    /// The record is not of the requested type.
    WrongRRType,
    /// The record's class is not one of the known classes.
    UnknownClass(u16),
}

impl Error {
    /// A short text that describes the kind of error.
    pub fn description(&self) -> &'static str {
        match self {
            Error::Resolver(_) => "Name Resolution failed",
            Error::ParseError => "Name service response does not parse",
            Error::NoSuchSectionIndex(_, _) => "No such section index",
            Error::UncompressError => "Error uncompressing domain name",
            Error::Unterminated => "Domain name exceeds the maximum length",
            Error::WrongRRType => "Wrong Resource Record type",
            Error::UnknownClass(_) => "Unknown class",
        }
    }
}

impl From<ResolutionError> for Error {
    fn from(err: ResolutionError) -> (r: Error)
        ensures
            r == Error::Resolver(err),
    {
        Error::Resolver(err)
    }
}

impl vstd::std_specs::convert::FromSpecImpl<ResolutionError> for Error {
    open spec fn obeys_from_spec() -> bool {
        true
    }

    open spec fn from_spec(err: ResolutionError) -> Error {
        Error::Resolver(err)
    }
}

} // verus!
