use crate::errors::ConfigError;
use vstd::prelude::*;

verus! {

/// An error of the `chrono` crate: a text that it does not parse.
#[verifier::external_type_specification]
#[verifier::external_body]
pub struct ExParseError(chrono::ParseError);

/// The instant that `chrono::DateTime::parse_from_rfc3339` reads from `text`,
/// in milliseconds since the Unix epoch as `timestamp_millis` counts them;
/// `None` where it does not parse.
pub uninterp spec fn rfc3339_millis(text: Seq<char>) -> Option<i64>;

/// Parses `text` with `chrono::DateTime::parse_from_rfc3339` and hands out the
/// instant's `timestamp_millis`. The contract claims only that the outcome
/// depends on the text alone.
#[verifier::external_body]
fn parse_rfc3339(text: &str) -> (r: Result<i64, chrono::ParseError>)
    ensures
        r is Ok <==> rfc3339_millis(text@) is Some,
        r matches Ok(millis) ==> rfc3339_millis(text@) == Some(millis),
{
    chrono::DateTime::parse_from_rfc3339(text).map(|instant| instant.timestamp_millis())
}

/// Reads the clock with `chrono::Utc::now`, in milliseconds since the Unix
/// epoch. Nothing is claimed of the value: the clock decides it. That call
/// gives up on a clock that is set before 1970, and so does this one.
#[verifier::external_body]
pub(crate) fn now_millis() -> i64 {
    chrono::Utc::now().timestamp_millis()
}

/// The moment at which a cached session ends.
#[derive(Debug, PartialEq, Eq)]
pub struct SessionExpiration {
    text: String,
    millis: i64,
}

/// A session's end over plain values: the timestamp as it was written, and
/// the instant it names in milliseconds since the Unix epoch.
pub struct SessionExpirationView {
    pub text: Seq<char>,
    pub timestamp_millis: i64,
}

impl View for SessionExpiration {
    type V = SessionExpirationView;

    closed spec fn view(&self) -> SessionExpirationView {
        SessionExpirationView { text: self.text@, timestamp_millis: self.millis }
    }
}

impl Clone for SessionExpiration {
    fn clone(&self) -> (r: SessionExpiration)
        ensures
            r@ == self@,
    {
        proof {
            use_type_invariant(self);
        }
        SessionExpiration { text: self.text.clone(), millis: self.millis }
    }
}

impl SessionExpiration {
    /// What holds of every expiration: its instant is the one its text names.
    #[verifier::type_invariant]
    pub closed spec fn well_formed(&self) -> bool {
        rfc3339_millis(self.text@) == Some(self.millis)
    }

    /// In a well-formed expiration the instant is what the text parses to.
    pub proof fn lemma_instant_of_text(&self)
        requires
            self.well_formed(),
        ensures
            rfc3339_millis(self@.text) == Some(self@.timestamp_millis),
    {
    }

    /// Reads an RFC 3339 timestamp. A text that is none is refused.
    pub fn parse(text: String) -> (r: Result<SessionExpiration, ConfigError>)
        ensures
            r is Ok <==> rfc3339_millis(text@) is Some,
            r matches Ok(expiration) ==> expiration@.text == text@ && rfc3339_millis(text@)
                == Some(expiration@.timestamp_millis),
            r matches Err(e) ==> e == ConfigError::InvalidExpiration,
    {
        match parse_rfc3339(text.as_str()) {
            Ok(millis) => Ok(SessionExpiration { text, millis }),
            Err(_) => Err(ConfigError::InvalidExpiration),
        }
    }

    /// The timestamp as it was written.
    pub fn text(&self) -> (r: &String)
        ensures
            r@ == self@.text,
    {
        &self.text
    }

    /// The instant in milliseconds since the Unix epoch.
    pub fn timestamp_millis(&self) -> (r: i64)
        ensures
            r == self@.timestamp_millis,
    {
        self.millis
    }
}

} // verus!
