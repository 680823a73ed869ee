use vstd::prelude::*;
use crate::util::Text;

verus! {

/// A session credential: the keys that sign requests, and the instant
/// from which they are refused, in seconds since the Unix epoch (UTC).
#[derive(Debug)]
pub struct Credentials {
    pub access_key_id: String,
    pub secret_access_key: String,
    pub session_token: String,
    pub expiration: i64,
}

/// The model of a [`Credentials`].
pub struct CredentialsView {
    pub access_key_id: Text,
    pub secret_access_key: Text,
    pub session_token: Text,
    pub expiration: int,
}

impl DeepView for Credentials {
    type V = CredentialsView;

    open spec fn deep_view(&self) -> CredentialsView {
        CredentialsView {
            access_key_id: self.access_key_id@,
            secret_access_key: self.secret_access_key@,
            session_token: self.session_token@,
            expiration: self.expiration as int,
        }
    }
}

/// Why no session credential could be had.
#[derive(Debug)]
pub enum CredsErr {
    /// The named local file is missing, empty or malformed.
    Configuration(String),
    /// The token service turned the credentials or the MFA code down.
    AuthFailure,
    /// The transport or the service failed, or its answer cannot be read.
    BackendUnavailable,
}

/// The model of a [`CredsErr`].
pub enum CredsErrView {
    Configuration(Text),
    AuthFailure,
    BackendUnavailable,
}

impl DeepView for CredsErr {
    type V = CredsErrView;

    open spec fn deep_view(&self) -> CredsErrView {
        match self {
            CredsErr::Configuration(file) => CredsErrView::Configuration(file@),
            CredsErr::AuthFailure => CredsErrView::AuthFailure,
            CredsErr::BackendUnavailable => CredsErrView::BackendUnavailable,
        }
    }
}

/// What is asked of the token service: how long the session shall last, in
/// seconds, the serial number of the MFA device and its current code.
#[derive(Debug)]
pub struct SessionTokenRequest {
    pub duration_seconds: Option<i64>,
    pub serial_number: Option<String>,
    pub token_code: Option<String>,
}

/// The model of a [`SessionTokenRequest`].
pub struct SessionTokenRequestView {
    pub duration_seconds: Option<i64>,
    pub serial_number: Option<Text>,
    pub token_code: Option<Text>,
}

impl DeepView for SessionTokenRequest {
    type V = SessionTokenRequestView;

    open spec fn deep_view(&self) -> SessionTokenRequestView {
        SessionTokenRequestView {
            duration_seconds: self.duration_seconds,
            serial_number: self.serial_number.deep_view(),
            token_code: self.token_code.deep_view(),
        }
    }
}

/// A credential that expires at `expiration` is expired at `now` when it
/// expires then or earlier: one that expires exactly now is expired.
pub open spec fn expired_at(expiration: int, now: int) -> bool {
    expiration <= now
}

/// The current time of the system clock, in whole seconds since the Unix
/// epoch. Calls `chrono::Utc::now` and `DateTime::timestamp`; nothing is
/// claimed of the instant. `Utc::now` gives up when the clock stands
/// before 1970.
#[verifier::external_body]
pub(crate) fn utc_now() -> i64 {
    chrono::Utc::now().timestamp()
}

impl Clone for Credentials {
    fn clone(&self) -> (r: Credentials)
        ensures
            r.deep_view() == self.deep_view(),
    {
        Credentials {
            access_key_id: self.access_key_id.clone(),
            secret_access_key: self.secret_access_key.clone(),
            session_token: self.session_token.clone(),
            expiration: self.expiration,
        }
    }
}

impl Credentials {
    /// Whether the credential is expired at `now`, in seconds since the
    /// Unix epoch.
    pub fn is_expired_at(&self, now: i64) -> (r: bool)
        ensures
            r == expired_at(self.expiration as int, now as int),
    {
        self.expiration <= now
    }

    /// Whether the credential is expired by the system clock.
    pub fn is_expired(&self) -> (r: bool)
        ensures
            exists|now: i64| r == expired_at(self.expiration as int, now as int),
    {
        let now = utc_now();
        self.is_expired_at(now)
    }
}

/// A credential whose expiration is the present instant is expired, and
/// one that expires a second later is not.
pub proof fn lemma_validity_boundary(now: int)
    ensures
        expired_at(now, now),
        !expired_at(now + 1, now),
{
}

} // verus!
