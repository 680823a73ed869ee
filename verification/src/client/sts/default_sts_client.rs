use vstd::prelude::*;
use crate::client::sts::sts_client::{
    Credentials, CredentialsView, CredsErr, CredsErrView, SessionTokenRequest,
    SessionTokenRequestView,
};
use crate::util::Text;

verus! {

/// The credential as the token service writes it: the expiration is a
/// text still to be read.
#[derive(Debug)]
pub struct IssuedCredentials {
    pub access_key_id: String,
    pub secret_access_key: String,
    pub session_token: String,
    pub expiration: String,
}

/// The model of an [`IssuedCredentials`].
pub struct IssuedCredentialsView {
    pub access_key_id: Text,
    pub secret_access_key: Text,
    pub session_token: Text,
    pub expiration: Text,
}

impl DeepView for IssuedCredentials {
    type V = IssuedCredentialsView;

    open spec fn deep_view(&self) -> IssuedCredentialsView {
        IssuedCredentialsView {
            access_key_id: self.access_key_id@,
            secret_access_key: self.secret_access_key@,
            session_token: self.session_token@,
            expiration: self.expiration@,
        }
    }
}

/// The form in which the token service writes an expiration.
pub const EXPIRATION_FORMAT: &'static str = "%Y-%m-%dT%H:%M:%S%Z";

/// The error with which `chrono` refuses a text.
#[verifier::external_type_specification]
#[verifier::external_body]
pub struct ExParseError(chrono::ParseError);

/// The instant that `text` names when it is read as `format` describes, in
/// seconds since the Unix epoch, the date and time taken as UTC; none when
/// the text does not fit the format.
pub uninterp spec fn parsed_instant(text: Seq<char>, format: Seq<char>) -> Option<i64>;

/// Reads a date and time. Calls `chrono::NaiveDateTime::parse_from_str`
/// with the text and the format, and on success `NaiveDateTime::and_utc`
/// and `DateTime::timestamp`. The result depends on the two texts alone:
/// it is the named instant when the text fits, and the parser's error
/// when it does not.
#[verifier::external_body]
fn parse_instant(text: &str, format: &str) -> (r: Result<i64, chrono::ParseError>)
    ensures
        match r {
            Ok(instant) => parsed_instant(text@, format@) == Some(instant),
            Err(_) => parsed_instant(text@, format@) is None,
        },
{
    match chrono::NaiveDateTime::parse_from_str(text, format) {
        Ok(naive) => Ok(naive.and_utc().timestamp()),
        Err(err) => Err(err),
    }
}

/// What the answer of the token service amounts to, given the instant
/// that its expiration names: the credential with that expiration. An
/// answer without a credential, or with an expiration that cannot be
/// read, counts as a failure of the service.
pub open spec fn credentials_of(
    response: Option<IssuedCredentialsView>,
    instant: Option<i64>,
) -> Result<CredentialsView, CredsErrView> {
    match (response, instant) {
        (Some(issued), Some(expiration)) => Ok(
            CredentialsView {
                access_key_id: issued.access_key_id,
                secret_access_key: issued.secret_access_key,
                session_token: issued.session_token,
                expiration: expiration as int,
            },
        ),
        _ => Err(CredsErrView::BackendUnavailable),
    }
}

/// The model of the outcome of an exchange with the token service.
pub open spec fn credentials_outcome(outcome: Result<Credentials, CredsErr>) -> Result<
    CredentialsView,
    CredsErrView,
> {
    match outcome {
        Ok(credentials) => Ok(credentials.deep_view()),
        Err(err) => Err(err.deep_view()),
    }
}

/// The exchange with the token service: what to ask, and how to read the
/// answer.
pub struct DefaultStsClient {}

impl DefaultStsClient {
    /// The request for a session token.
    pub fn get_session_token(
        duration_seconds: Option<i64>,
        serial_number: Option<&str>,
        token_code: Option<&str>,
    ) -> (r: SessionTokenRequest)
        ensures
            r.deep_view() == (SessionTokenRequestView {
                duration_seconds,
                serial_number: serial_number.deep_view(),
                token_code: token_code.deep_view(),
            }),
    {
        SessionTokenRequest {
            duration_seconds,
            serial_number: match serial_number {
                Some(serial) => Some(serial.to_string()),
                None => None,
            },
            token_code: match token_code {
                Some(code) => Some(code.to_string()),
                None => None,
            },
        }
    }

    /// The credential of an answer whose expiration names `instant`.
    pub fn issued(response: Option<IssuedCredentials>, instant: Option<i64>) -> (r: Result<
        Credentials,
        CredsErr,
    >)
        ensures
            credentials_outcome(r) == credentials_of(response.deep_view(), instant),
    {
        match (response, instant) {
            (Some(issued), Some(expiration)) => Ok(
                Credentials {
                    access_key_id: issued.access_key_id,
                    secret_access_key: issued.secret_access_key,
                    session_token: issued.session_token,
                    expiration,
                },
            ),
            _ => Err(CredsErr::BackendUnavailable),
        }
    }

    /// The credential that the token service answered with. Its
    /// expiration is read in the form the service writes it.
    pub fn credentials(response: Option<IssuedCredentials>) -> (r: Result<Credentials, CredsErr>)
        ensures
            credentials_outcome(r) == credentials_of(
                response.deep_view(),
                match response {
                    Some(issued) => parsed_instant(issued.expiration@, EXPIRATION_FORMAT@),
                    None => None,
                },
            ),
    {
        let instant = match &response {
            Some(issued) => match parse_instant(issued.expiration.as_str(), EXPIRATION_FORMAT) {
                Ok(instant) => Some(instant),
                Err(_) => None,
            },
            None => None,
        };
        Self::issued(response, instant)
    }
}

} // verus!
