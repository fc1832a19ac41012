//! Outcome taxonomy and the mapping to transport-level results.

use vstd::prelude::*;

verus! {

/// Everything one verification call can conclude.
#[derive(Debug, Clone, Copy, PartialEq, Eq, Structural)]
pub enum VerificationOutcome {
    /// Market supported; recomputed commitment and root match the claim.
    Valid,
    /// Market supported; the witness does not support the claimed values.
    Invalid,
    /// Market on the exemption list: accepted without a cryptographic check.
    MarketExempt,
    /// Market on neither list.
    MarketUnsupported,
    /// The encoded public or private field failed to decode, or the witness
    /// shape would violate a primitive's precondition.
    MalformedPayload,
    /// Neither path of a policy list could be read.
    ConfigUnavailable,
    /// A policy list was readable but not a JSON array of strings.
    BadConfigData,
}

/// The error half of a transport response.
#[derive(Debug, Clone, Copy, PartialEq, Eq, Structural)]
pub enum MarketError {
    FileNotFound,
    BadConfigData,
    InvalidMarket,
    PayloadNotValid,
    MalformedPayload,
}

impl MarketError {
    /// Suggested HTTP status code for this error.
    pub fn status_code(&self) -> (r: u16)
        ensures
            r == (match *self {
                MarketError::FileNotFound => 404u16,
                MarketError::BadConfigData => 406u16,
                MarketError::InvalidMarket => 501u16,
                MarketError::PayloadNotValid => 400u16,
                MarketError::MalformedPayload => 400u16,
            }),
    {
        match *self {
            MarketError::FileNotFound => 404,
            MarketError::BadConfigData => 406,
            MarketError::InvalidMarket => 501,
            MarketError::PayloadNotValid => 400,
            MarketError::MalformedPayload => 400,
        }
    }

    /// Response body for this error.
    pub fn message(&self) -> (r: &'static str)
        ensures
            match *self {
                MarketError::FileNotFound => r@ == "file not found"@,
                MarketError::BadConfigData => r@ == "incorrect config"@,
                MarketError::InvalidMarket => r@ == "Market is not implemented"@,
                MarketError::PayloadNotValid => r@ == "Payload is not valid"@,
                MarketError::MalformedPayload => r@ == "bad request"@,
            },
    {
        match *self {
            MarketError::FileNotFound => "file not found",
            MarketError::BadConfigData => "incorrect config",
            MarketError::InvalidMarket => "Market is not implemented",
            MarketError::PayloadNotValid => "Payload is not valid",
            MarketError::MalformedPayload => "bad request",
        }
    }
}

/// The transport result an outcome maps to.
pub open spec fn spec_respond(o: VerificationOutcome) -> Result<Seq<char>, MarketError> {
    match o {
        VerificationOutcome::Valid => Ok("Payload is valid"@),
        VerificationOutcome::MarketExempt => Ok("Payload is valid"@),
        VerificationOutcome::Invalid => Err(MarketError::PayloadNotValid),
        VerificationOutcome::MarketUnsupported => Err(MarketError::InvalidMarket),
        VerificationOutcome::MalformedPayload => Err(MarketError::MalformedPayload),
        VerificationOutcome::ConfigUnavailable => Err(MarketError::FileNotFound),
        VerificationOutcome::BadConfigData => Err(MarketError::BadConfigData),
    }
}

/// Deterministic mapping from outcome to the transport-level result:
/// the accept body, or the error to report.
pub fn respond(o: &VerificationOutcome) -> (r: Result<&'static str, MarketError>)
    ensures
        match r {
            Ok(m) => spec_respond(*o) == Ok::<Seq<char>, MarketError>(m@),
            Err(e) => spec_respond(*o) == Err::<Seq<char>, MarketError>(e),
        },
{
    match *o {
        VerificationOutcome::Valid => Ok("Payload is valid"),
        VerificationOutcome::MarketExempt => Ok("Payload is valid"),
        VerificationOutcome::Invalid => Err(MarketError::PayloadNotValid),
        VerificationOutcome::MarketUnsupported => Err(MarketError::InvalidMarket),
        VerificationOutcome::MalformedPayload => Err(MarketError::MalformedPayload),
        VerificationOutcome::ConfigUnavailable => Err(MarketError::FileNotFound),
        VerificationOutcome::BadConfigData => Err(MarketError::BadConfigData),
    }
}

} // verus!
