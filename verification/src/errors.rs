//! The closed three-kind failure classification: every failure the service
//! can meet is folded into one of these kinds at its origin, and only the
//! kind's fixed text ever reaches a client.

use vstd::prelude::*;

verus! {

/// The three mutually exclusive kinds of failure.
#[derive(Debug, PartialEq, Eq, Structural, Clone, Copy)]
pub enum RustyMastodonError {
    /// The network call to the external source failed.
    ExternalRequest,
    /// A required configuration value was missing, or the outbound request
    /// could not be constructed.
    Configuration,
    /// The response body could not be decoded.
    Parsing,
}

/// The origin of a failure, as the fetch pipeline meets it.
#[derive(Debug, PartialEq, Eq, Structural, Clone, Copy)]
pub enum FailureSource {
    /// A required configuration value could not be read.
    MissingConfiguration,
    /// The outbound request could not be built (for instance, an invalid
    /// header value).
    RequestConstruction,
    /// Performing or completing the network call failed.
    Transport,
    /// Decoding the response body failed.
    Decoding,
}

/// The kind that each failure origin is folded into.
pub open spec fn classify_failure_spec(source: FailureSource) -> RustyMastodonError {
    match source {
        FailureSource::MissingConfiguration => RustyMastodonError::Configuration,
        FailureSource::RequestConstruction => RustyMastodonError::Configuration,
        FailureSource::Transport => RustyMastodonError::ExternalRequest,
        FailureSource::Decoding => RustyMastodonError::Parsing,
    }
}

/// Fold a failure origin into its kind: configuration and request
/// construction become `Configuration`, transport becomes
/// `ExternalRequest`, decoding becomes `Parsing`.
pub fn classify_failure(source: FailureSource) -> (r: RustyMastodonError)
    ensures
        r == classify_failure_spec(source),
{
    match source {
        FailureSource::MissingConfiguration => RustyMastodonError::Configuration,
        FailureSource::RequestConstruction => RustyMastodonError::Configuration,
        FailureSource::Transport => RustyMastodonError::ExternalRequest,
        FailureSource::Decoding => RustyMastodonError::Parsing,
    }
}

impl RustyMastodonError {
    /// The fixed diagnostic text of this kind; no underlying cause is ever
    /// included.
    pub open spec fn message_spec(&self) -> Seq<char> {
        match self {
            RustyMastodonError::ExternalRequest => "Failed reading data from external source"@,
            RustyMastodonError::Parsing => "Failed parsing data from external source"@,
            RustyMastodonError::Configuration => "Configuration error"@,
        }
    }

    /// The human-readable text of this kind, fixed per kind.
    pub fn message(&self) -> (r: String)
        ensures
            r@ == self.message_spec(),
    {
        match self {
            RustyMastodonError::ExternalRequest => String::from_str(
                "Failed reading data from external source",
            ),
            RustyMastodonError::Parsing => String::from_str(
                "Failed parsing data from external source",
            ),
            RustyMastodonError::Configuration => String::from_str("Configuration error"),
        }
    }
}

} // verus!
