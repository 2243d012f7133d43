//! What can go wrong between the bridge and the SIP exchange.

use vstd::prelude::*;

verus! {

/// Why a message could not be made or understood.
#[derive(Clone, Copy, Debug, PartialEq, Eq, Structural)]
pub enum SipError {
    /// The address of this machine could not be found out.
    NoLocalAddress,
    /// A response carries no challenge.
    MissingChallenge,
    /// The challenge of a response cannot be read.
    InvalidChallenge,
    /// A challenge names no algorithm.
    MissingAlgorithm,
    /// A response stands where a request is needed.
    NotARequest,
    /// A message carries no `Via` header.
    MissingVia,
    /// The `Via` header of a message cannot be read.
    InvalidVia,
    /// The `Via` header of a response carries no branch.
    MissingBranch,
    /// A request carries no `CSeq` header.
    MissingCSeq,
    /// The `CSeq` header of a request cannot be read.
    InvalidCSeq,
    /// The `CSeq` header of a request holds the largest number there is.
    ExhaustedCSeq,
    /// The `Contact` header of a response cannot be read.
    InvalidContact,
    /// A dialled address cannot be read.
    InvalidUri,
    /// A response cannot be read.
    InvalidResponse,
    /// A text is not UTF-8.
    InvalidUtf8,
    /// The description of a call cannot be read.
    InvalidDescription,
    /// The domain of the exchange is not one.
    InvalidDomain,
    /// A frame came that is not a text.
    UnexpectedFrame,
    /// The connection broke.
    ConnectionLost,
    /// No response came to an invitation.
    NoResponse,
}

/// The wording of an error.
pub open spec fn error_text(error: SipError) -> Seq<char> {
    match error {
        SipError::NoLocalAddress => "Local IP address not found"@,
        SipError::MissingChallenge => "Missing WWW-Authenticate header"@,
        SipError::InvalidChallenge => "Invalid WWW-Authenticate header"@,
        SipError::MissingAlgorithm => "WWW-Authenticate header missing algorithm"@,
        SipError::NotARequest => "Expected a request message but got a response"@,
        SipError::MissingVia => "Missing Via header"@,
        SipError::InvalidVia => "Invalid Via header"@,
        SipError::MissingBranch => "Got no branch in response"@,
        SipError::MissingCSeq => "Missing CSeq header"@,
        SipError::InvalidCSeq => "Invalid CSeq header"@,
        SipError::ExhaustedCSeq => "CSeq number exhausted"@,
        SipError::InvalidContact => "Invalid Contact header"@,
        SipError::InvalidUri => "Invalid SIP address"@,
        SipError::InvalidResponse => "Invalid response"@,
        SipError::InvalidUtf8 => "Invalid UTF-8"@,
        SipError::InvalidDescription => "Invalid session description"@,
        SipError::InvalidDomain => "invalid dnsname"@,
        SipError::UnexpectedFrame => "Got unexpected response"@,
        SipError::ConnectionLost => "Connection lost"@,
        SipError::NoResponse => "Got no response on invite"@,
    }
}

impl SipError {
    /// The wording of the error.
    pub fn text(self) -> (text: &'static str)
        ensures
            text@ == error_text(self),
    {
        match self {
            SipError::NoLocalAddress => "Local IP address not found",
            SipError::MissingChallenge => "Missing WWW-Authenticate header",
            SipError::InvalidChallenge => "Invalid WWW-Authenticate header",
            SipError::MissingAlgorithm => "WWW-Authenticate header missing algorithm",
            SipError::NotARequest => "Expected a request message but got a response",
            SipError::MissingVia => "Missing Via header",
            SipError::InvalidVia => "Invalid Via header",
            SipError::MissingBranch => "Got no branch in response",
            SipError::MissingCSeq => "Missing CSeq header",
            SipError::InvalidCSeq => "Invalid CSeq header",
            SipError::ExhaustedCSeq => "CSeq number exhausted",
            SipError::InvalidContact => "Invalid Contact header",
            SipError::InvalidUri => "Invalid SIP address",
            SipError::InvalidResponse => "Invalid response",
            SipError::InvalidUtf8 => "Invalid UTF-8",
            SipError::InvalidDescription => "Invalid session description",
            SipError::InvalidDomain => "invalid dnsname",
            SipError::UnexpectedFrame => "Got unexpected response",
            SipError::ConnectionLost => "Connection lost",
            SipError::NoResponse => "Got no response on invite",
        }
    }
}

} // verus!
