use vstd::prelude::*;
use crate::client::sts::default_sts_client::{credentials_outcome, DefaultStsClient};
use crate::client::sts::sts_client::{
    expired_at, utc_now, Credentials, CredentialsView, CredsErr, CredsErrView,
    SessionTokenRequest, SessionTokenRequestView,
};
use crate::util::{first_line, prompt_stdin_line, read_first_line, trim, trimmed, trimmed_end, Text};

verus! {

/// How long a session lasts unless told otherwise, in seconds.
pub const SESSION_DURATION_SECONDS: i64 = 900;

/// What to show the operator when the MFA code is needed.
pub const MFA_TOKEN_PROMPT: &'static str = "MFA token code:";

/// The cached credential as far as it can still be used at `now`: a
/// credential is usable strictly before its expiration.
pub open spec fn usable(cached: Option<CredentialsView>, now: int) -> Option<CredentialsView> {
    match cached {
        Some(credentials) => if expired_at(credentials.expiration, now) {
            None
        } else {
            Some(credentials)
        },
        None => None,
    }
}

/// The serial number of the MFA device as the serial file holds it: the
/// first line of the file without the white space around it. A missing
/// file, an empty file and a blank first line hold none.
pub open spec fn serial_of(contents: Option<Text>) -> Option<Text> {
    match contents {
        Some(text) => match first_line(text) {
            Some(line) => if trimmed(line).len() == 0 {
                None
            } else {
                Some(trimmed(line))
            },
            None => None,
        },
        None => None,
    }
}

/// One demand for a credential at `now`, where the token service would
/// answer a refresh with `issued`: the cache afterwards, the credential
/// handed out, and how many times the token service was asked.
pub open spec fn served(cached: Option<CredentialsView>, now: int, issued: CredentialsView) -> (
    Option<CredentialsView>,
    CredentialsView,
    nat,
) {
    match usable(cached, now) {
        Some(credentials) => (cached, credentials, 0),
        None => (Some(issued), issued, 1),
    }
}

/// A provider of session credentials that keeps the last one it was
/// issued and hands it out for as long as it is valid, so that the
/// operator is asked for an MFA code only when a new one is needed.
pub struct StsLocalMfaCredsProvider {
    token_serial_path: String,
    duration_seconds: i64,
    cached: Option<Credentials>,
}

impl StsLocalMfaCredsProvider {
    /// The credential that is kept, if any.
    pub closed spec fn cached(&self) -> Option<CredentialsView> {
        self.cached.deep_view()
    }

    /// How long the sessions that are asked for last, in seconds.
    pub closed spec fn duration(&self) -> i64 {
        self.duration_seconds
    }

    /// The name of the file that holds the serial number of the MFA device.
    pub closed spec fn serial_path(&self) -> Text {
        self.token_serial_path@
    }

    /// A provider that keeps nothing yet and asks for sessions of the
    /// usual length.
    pub fn new(token_serial_path: String) -> (r: StsLocalMfaCredsProvider)
        ensures
            r.cached() is None,
            r.duration() == SESSION_DURATION_SECONDS,
            r.serial_path() == token_serial_path@,
    {
        StsLocalMfaCredsProvider {
            token_serial_path,
            duration_seconds: SESSION_DURATION_SECONDS,
            cached: None,
        }
    }

    /// A provider that asks for sessions of `duration_seconds`, and keeps
    /// `cached` from the start.
    pub fn with(token_serial_path: String, duration_seconds: i64, cached: Option<Credentials>) -> (r:
        StsLocalMfaCredsProvider)
        ensures
            r.cached() == cached.deep_view(),
            r.duration() == duration_seconds,
            r.serial_path() == token_serial_path@,
    {
        StsLocalMfaCredsProvider { token_serial_path, duration_seconds, cached }
    }

    /// A copy of the cached credential if it is still valid at `now`, in
    /// seconds since the Unix epoch; none if a new one is needed.
    pub fn credentials_at(&self, now: i64) -> (r: Option<Credentials>)
        ensures
            r.deep_view() == usable(self.cached(), now as int),
    {
        match &self.cached {
            Some(credentials) => if credentials.is_expired_at(now) {
                None
            } else {
                Some(credentials.clone())
            },
            None => None,
        }
    }

    /// A copy of the cached credential if it is still valid by the system
    /// clock, which is read once; none if a new one is needed.
    pub fn credentials(&self) -> (r: Option<Credentials>)
        ensures
            exists|now: i64| r.deep_view() == usable(self.cached(), now as int),
    {
        let now = utc_now();
        self.credentials_at(now)
    }

    /// The serial number of the MFA device, from the contents of the
    /// serial file, none when there is no such file. Without a serial
    /// number it fails and names the file that should hold one.
    pub fn token_serial(&self, serial_file: Option<&str>) -> (r: Result<String, CredsErr>)
        ensures
            match serial_of(serial_file.deep_view()) {
                Some(serial) => r matches Ok(found) && found@ == serial,
                None => r matches Err(err) && err.deep_view() == CredsErrView::Configuration(
                    self.serial_path(),
                ),
            },
    {
        let line = match serial_file {
            Some(contents) => read_first_line(contents),
            None => None,
        };
        let serial = match line {
            Some(line) => trim(line.as_str()),
            None => String::new(),
        };
        if serial.as_str().unicode_len() == 0 {
            Err(CredsErr::Configuration(self.token_serial_path.clone()))
        } else {
            Ok(serial)
        }
    }

    /// The request for a new session: for the configured duration, with
    /// the serial number that the serial file holds and the code the
    /// operator typed, without the white space at its end. Without a
    /// serial number it fails and names the file that should hold one.
    pub fn get_creds(&self, serial_file: Option<&str>, token_code: &str) -> (r: Result<
        SessionTokenRequest,
        CredsErr,
    >)
        ensures
            match serial_of(serial_file.deep_view()) {
                Some(serial) => r matches Ok(request) && request.deep_view() == (
                SessionTokenRequestView {
                    duration_seconds: Some(self.duration()),
                    serial_number: Some(serial),
                    token_code: Some(trimmed_end(token_code@)),
                }),
                None => r matches Err(err) && err.deep_view() == CredsErrView::Configuration(
                    self.serial_path(),
                ),
            },
    {
        let serial = match self.token_serial(serial_file) {
            Ok(serial) => serial,
            Err(err) => {
                return Err(err);
            },
        };
        let code = prompt_stdin_line(token_code);
        Ok(
            DefaultStsClient::get_session_token(
                Some(self.duration_seconds),
                Some(serial.as_str()),
                Some(code.as_str()),
            ),
        )
    }

    /// Takes the answer of the token service to a request for a new
    /// session. A credential replaces the cached one and a copy of it is
    /// handed out; a failure is handed on and leaves the cache as it was.
    pub fn refresh(&mut self, answer: Result<Credentials, CredsErr>) -> (r: Result<
        Credentials,
        CredsErr,
    >)
        ensures
            final(self).duration() == old(self).duration(),
            final(self).serial_path() == old(self).serial_path(),
            credentials_outcome(r) == credentials_outcome(answer),
            final(self).cached() == match answer {
                Ok(issued) => Some(issued.deep_view()),
                Err(_) => old(self).cached(),
            },
    {
        match answer {
            Ok(issued) => {
                let copy = issued.clone();
                self.cached = Some(issued);
                Ok(copy)
            },
            Err(err) => Err(err),
        }
    }
}

/// A cached credential that expires at the present instant is not handed
/// out, so a refresh follows; one that expires a second later is handed
/// out as it is.
pub proof fn lemma_cache_boundary(credentials: CredentialsView, now: int)
    ensures
        credentials.expiration == now ==> usable(Some(credentials), now) is None,
        credentials.expiration == now + 1 ==> usable(Some(credentials), now) == Some(credentials),
{
}

/// Two demands in a row, at `first` and then at `second`, ask the token
/// service at most once in all, as long as what the first demand handed
/// out is still valid at the second. They do not ask it at all when the
/// cache held a credential that is valid at both instants, and then both
/// hand out that credential.
pub proof fn lemma_at_most_one_refresh(
    cached: Option<CredentialsView>,
    first: int,
    second: int,
    issued_first: CredentialsView,
    issued_second: CredentialsView,
)
    requires
        first <= second,
        !expired_at(served(cached, first, issued_first).1.expiration, second),
    ensures
        ({
            let one = served(cached, first, issued_first);
            let two = served(one.0, second, issued_second);
            &&& one.2 + two.2 <= 1
            &&& two.2 == 0
            &&& two.1 == one.1
            &&& usable(cached, first) is Some ==> one.2 + two.2 == 0 && one.1 == cached->0
        }),
{
}

} // verus!
