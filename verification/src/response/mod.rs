//! Response side of the model: the status taxonomy and the per-service
//! payloads.

pub mod route;

use crate::text::same_text;
use vstd::prelude::*;
use vstd::string::*;

verus! {

/// Outcome of a request. The same taxonomy names the reason when a request
/// cannot be built from its wire form.
///
/// On the wire a status is its identifier in PascalCase (`Ok`, `InvalidUrl`,
/// ...), uniformly.
#[derive(Clone, Copy, Debug, PartialEq, Eq, Structural)]
pub enum ResponseStatus {
    /// Request could be processed as expected. Its wire token is `Ok`.
    Okay,
    /// URL string is invalid.
    InvalidUrl,
    /// Service name is invalid.
    InvalidService,
    /// Version is not found.
    InvalidVersion,
    /// Options are invalid.
    InvalidOptions,
    /// The query string is syntactically malformed.
    InvalidQuery,
    /// The successfully parsed query parameters are invalid.
    InvalidValue,
    /// One of the supplied input coordinates could not snap to a street segment.
    NoSegment,
    /// The request size violates one of the service specific size restrictions.
    TooBig,
}

impl ResponseStatus {
    /// The canonical wire token of a status.
    pub open spec fn token(self) -> Seq<char> {
        match self {
            ResponseStatus::Okay => "Ok"@,
            ResponseStatus::InvalidUrl => "InvalidUrl"@,
            ResponseStatus::InvalidService => "InvalidService"@,
            ResponseStatus::InvalidVersion => "InvalidVersion"@,
            ResponseStatus::InvalidOptions => "InvalidOptions"@,
            ResponseStatus::InvalidQuery => "InvalidQuery"@,
            ResponseStatus::InvalidValue => "InvalidValue"@,
            ResponseStatus::NoSegment => "NoSegment"@,
            ResponseStatus::TooBig => "TooBig"@,
        }
    }

    /// The status that a token names, if any.
    pub open spec fn parse(t: Seq<char>) -> Option<ResponseStatus> {
        if t == "Ok"@ {
            Some(ResponseStatus::Okay)
        } else if t == "InvalidUrl"@ {
            Some(ResponseStatus::InvalidUrl)
        } else if t == "InvalidService"@ {
            Some(ResponseStatus::InvalidService)
        } else if t == "InvalidVersion"@ {
            Some(ResponseStatus::InvalidVersion)
        } else if t == "InvalidOptions"@ {
            Some(ResponseStatus::InvalidOptions)
        } else if t == "InvalidQuery"@ {
            Some(ResponseStatus::InvalidQuery)
        } else if t == "InvalidValue"@ {
            Some(ResponseStatus::InvalidValue)
        } else if t == "NoSegment"@ {
            Some(ResponseStatus::NoSegment)
        } else if t == "TooBig"@ {
            Some(ResponseStatus::TooBig)
        } else {
            None
        }
    }

    /// Whether service-specific result fields are meaningful under this status.
    pub open spec fn carries_payload(self) -> bool {
        self == ResponseStatus::Okay
    }

    /// The wire token as a static string slice.
    pub fn as_str(&self) -> (s: &'static str)
        ensures
            s@ == self.token(),
    {
        match self {
            ResponseStatus::Okay => "Ok",
            ResponseStatus::InvalidUrl => "InvalidUrl",
            ResponseStatus::InvalidService => "InvalidService",
            ResponseStatus::InvalidVersion => "InvalidVersion",
            ResponseStatus::InvalidOptions => "InvalidOptions",
            ResponseStatus::InvalidQuery => "InvalidQuery",
            ResponseStatus::InvalidValue => "InvalidValue",
            ResponseStatus::NoSegment => "NoSegment",
            ResponseStatus::TooBig => "TooBig",
        }
    }

    /// The wire token as an owned string.
    pub fn to_string(&self) -> (s: String)
        ensures
            s@ == self.token(),
    {
        self.as_str().to_owned()
    }

    /// Reads a status from its wire token. A token outside the closed set is
    /// refused as `InvalidOptions`.
    pub fn from_token(t: &str) -> (r: Result<ResponseStatus, ResponseStatus>)
        ensures
            r == match ResponseStatus::parse(t@) {
                Some(v) => Ok::<ResponseStatus, ResponseStatus>(v),
                None => Err(ResponseStatus::InvalidOptions),
            },
    {
        if same_text(t, "Ok") {
            Ok(ResponseStatus::Okay)
        } else if same_text(t, "InvalidUrl") {
            Ok(ResponseStatus::InvalidUrl)
        } else if same_text(t, "InvalidService") {
            Ok(ResponseStatus::InvalidService)
        } else if same_text(t, "InvalidVersion") {
            Ok(ResponseStatus::InvalidVersion)
        } else if same_text(t, "InvalidOptions") {
            Ok(ResponseStatus::InvalidOptions)
        } else if same_text(t, "InvalidQuery") {
            Ok(ResponseStatus::InvalidQuery)
        } else if same_text(t, "InvalidValue") {
            Ok(ResponseStatus::InvalidValue)
        } else if same_text(t, "NoSegment") {
            Ok(ResponseStatus::NoSegment)
        } else if same_text(t, "TooBig") {
            Ok(ResponseStatus::TooBig)
        } else {
            Err(ResponseStatus::InvalidOptions)
        }
    }

    /// Whether this is the one status under which a payload is meaningful.
    pub fn is_ok(&self) -> (r: bool)
        ensures
            r == self.carries_payload(),
    {
        match self {
            ResponseStatus::Okay => true,
            _ => false,
        }
    }

    /// Rendering a status and reading the token back gives the status again,
    /// and a token that reads as a status is that status's own token.
    pub proof fn lemma_token_round_trip(v: ResponseStatus)
        ensures
            ResponseStatus::parse(v.token()) == Some(v),
            forall|t: Seq<char>| ResponseStatus::parse(t) == Some(v) ==> t == v.token(),
    {
        reveal_strlit("Ok");
        reveal_strlit("InvalidUrl");
        reveal_strlit("InvalidService");
        reveal_strlit("InvalidVersion");
        reveal_strlit("InvalidOptions");
        reveal_strlit("InvalidQuery");
        reveal_strlit("InvalidValue");
        reveal_strlit("NoSegment");
        reveal_strlit("TooBig");
        assert("Ok"@.len() == 2 && "InvalidUrl"@.len() == 10 && "InvalidService"@.len() == 14);
        assert("InvalidVersion"@.len() == 14 && "InvalidOptions"@.len() == 14);
        assert("InvalidQuery"@.len() == 12 && "InvalidValue"@.len() == 12);
        assert("NoSegment"@.len() == 9 && "TooBig"@.len() == 6);
        assert("InvalidService"@[7] != "InvalidVersion"@[7]);
        assert("InvalidService"@[7] != "InvalidOptions"@[7]);
        assert("InvalidVersion"@[7] != "InvalidOptions"@[7]);
        assert("InvalidQuery"@[7] != "InvalidValue"@[7]);
    }
}

} // verus!
