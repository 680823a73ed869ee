use vstd::prelude::*;
use crate::client::sm::sm_client::{Filter, FilterView, SmClientErr, Tag, TagView};
use crate::util::Text;

verus! {

/// A password as a listing shows it: its identifier and its name.
#[derive(Debug)]
pub struct PasswordDetails {
    pub id: String,
    pub name: String,
}

/// The model of a [`PasswordDetails`].
pub struct PasswordDetailsView {
    pub id: Text,
    pub name: Text,
}

impl DeepView for PasswordDetails {
    type V = PasswordDetailsView;

    open spec fn deep_view(&self) -> PasswordDetailsView {
        PasswordDetailsView { id: self.id@, name: self.name@ }
    }
}

/// A password with its value.
#[derive(Debug)]
pub struct Password {
    pub id: String,
    pub name: String,
    pub value: String,
}

/// The model of a [`Password`].
pub struct PasswordView {
    pub id: Text,
    pub name: Text,
    pub value: Text,
}

impl DeepView for Password {
    type V = PasswordView;

    open spec fn deep_view(&self) -> PasswordView {
        PasswordView { id: self.id@, name: self.name@, value: self.value@ }
    }
}

/// Why an operation on passwords failed.
#[derive(Debug)]
pub enum PassDaoErr {
    /// A password of this name is already stored.
    PasswordAlreadyExists(String),
    /// A local read or write failed; the text says how.
    IOError(String),
    /// No password answers to the name or the identifier.
    NotFound,
    /// More than one password answers to the name.
    Ambiguous,
    /// The token service turned the credentials or the MFA code down.
    AuthFailure,
    /// A local file that the credentials depend on is missing or malformed.
    Configuration,
    /// The transport or the service failed.
    BackendUnavailable,
    /// The exchange with the secret manager went out of step.
    OtherError,
}

/// The model of a [`PassDaoErr`].
pub enum PassDaoErrView {
    PasswordAlreadyExists(Text),
    IOError(Text),
    NotFound,
    Ambiguous,
    AuthFailure,
    Configuration,
    BackendUnavailable,
    OtherError,
}

impl DeepView for PassDaoErr {
    type V = PassDaoErrView;

    open spec fn deep_view(&self) -> PassDaoErrView {
        match self {
            PassDaoErr::PasswordAlreadyExists(name) => PassDaoErrView::PasswordAlreadyExists(name@),
            PassDaoErr::IOError(text) => PassDaoErrView::IOError(text@),
            PassDaoErr::NotFound => PassDaoErrView::NotFound,
            PassDaoErr::Ambiguous => PassDaoErrView::Ambiguous,
            PassDaoErr::AuthFailure => PassDaoErrView::AuthFailure,
            PassDaoErr::Configuration => PassDaoErrView::Configuration,
            PassDaoErr::BackendUnavailable => PassDaoErrView::BackendUnavailable,
            PassDaoErr::OtherError => PassDaoErrView::OtherError,
        }
    }
}

/// The failure of an operation whose request the secret manager turned
/// down: the same failure, under the name it has among password errors.
/// That a name is taken is said of the password that was to be created;
/// where nothing was to be created, the exchange is out of step.
pub open spec fn dao_error(err: SmClientErr) -> PassDaoErrView {
    match err {
        SmClientErr::SecretNotFound => PassDaoErrView::NotFound,
        SmClientErr::SecretAlreadyExists => PassDaoErrView::OtherError,
        SmClientErr::AuthFailure => PassDaoErrView::AuthFailure,
        SmClientErr::Configuration => PassDaoErrView::Configuration,
        SmClientErr::BackendUnavailable => PassDaoErrView::BackendUnavailable,
    }
}

impl PassDaoErr {
    /// Carries a failure of the secret manager over, unchanged in kind.
    pub fn from_client(err: SmClientErr) -> (r: PassDaoErr)
        ensures
            r.deep_view() == dao_error(err),
    {
        match err {
            SmClientErr::SecretNotFound => PassDaoErr::NotFound,
            SmClientErr::SecretAlreadyExists => PassDaoErr::OtherError,
            SmClientErr::AuthFailure => PassDaoErr::AuthFailure,
            SmClientErr::Configuration => PassDaoErr::Configuration,
            SmClientErr::BackendUnavailable => PassDaoErr::BackendUnavailable,
        }
    }
}

/// An operation on passwords.
#[derive(Debug)]
#[allow(inconsistent_fields)]
pub enum DaoCall {
    /// Store `value` under a new password called `name`.
    CreatePassword { name: String, value: String, tags: Option<Vec<Tag>> },
    /// Draw a random password and store it under `name`.
    CreateRandomPassword {
        name: String,
        exclude_chars: Option<String>,
        length: Option<i64>,
        tags: Option<Vec<Tag>>,
    },
    /// Fetch the password `id`.
    GetPassword { id: String },
    /// Fetch the one password called `name` that `filters` accept.
    GetPasswordByName { name: String, filters: Option<Vec<Filter>> },
    /// Replace the value of the password `id`.
    UpdatePassword { id: String, value: String },
    /// Replace the value of the one password called `name`.
    UpdatePasswordByName { name: String, value: String, filters: Option<Vec<Filter>> },
    /// Delete the password `id`.
    DeletePassword { id: String },
    /// Delete the one password called `name`.
    DeletePasswordByName { name: String, filters: Option<Vec<Filter>> },
    /// List every password that `filters` accept.
    ListPasswords { filters: Vec<Filter> },
}

/// The model of a [`DaoCall`].
#[allow(inconsistent_fields)]
pub enum DaoCallView {
    CreatePassword { name: Text, value: Text, tags: Option<Seq<TagView>> },
    CreateRandomPassword {
        name: Text,
        exclude_chars: Option<Text>,
        length: Option<i64>,
        tags: Option<Seq<TagView>>,
    },
    GetPassword { id: Text },
    GetPasswordByName { name: Text, filters: Option<Seq<FilterView>> },
    UpdatePassword { id: Text, value: Text },
    UpdatePasswordByName { name: Text, value: Text, filters: Option<Seq<FilterView>> },
    DeletePassword { id: Text },
    DeletePasswordByName { name: Text, filters: Option<Seq<FilterView>> },
    ListPasswords { filters: Seq<FilterView> },
}

impl DeepView for DaoCall {
    type V = DaoCallView;

    open spec fn deep_view(&self) -> DaoCallView {
        match self {
            DaoCall::CreatePassword { name, value, tags } => DaoCallView::CreatePassword {
                name: name@,
                value: value@,
                tags: tags.deep_view(),
            },
            DaoCall::CreateRandomPassword {
                name,
                exclude_chars,
                length,
                tags,
            } => DaoCallView::CreateRandomPassword {
                name: name@,
                exclude_chars: exclude_chars.deep_view(),
                length: *length,
                tags: tags.deep_view(),
            },
            DaoCall::GetPassword { id } => DaoCallView::GetPassword { id: id@ },
            DaoCall::GetPasswordByName { name, filters } => DaoCallView::GetPasswordByName {
                name: name@,
                filters: filters.deep_view(),
            },
            DaoCall::UpdatePassword { id, value } => DaoCallView::UpdatePassword {
                id: id@,
                value: value@,
            },
            DaoCall::UpdatePasswordByName {
                name,
                value,
                filters,
            } => DaoCallView::UpdatePasswordByName {
                name: name@,
                value: value@,
                filters: filters.deep_view(),
            },
            DaoCall::DeletePassword { id } => DaoCallView::DeletePassword { id: id@ },
            DaoCall::DeletePasswordByName { name, filters } => DaoCallView::DeletePasswordByName {
                name: name@,
                filters: filters.deep_view(),
            },
            DaoCall::ListPasswords { filters } => DaoCallView::ListPasswords {
                filters: filters.deep_view(),
            },
        }
    }
}

/// What an operation on passwords gives back when it succeeds.
#[derive(Debug)]
pub enum DaoReply {
    /// The password that was created or fetched.
    Password(Password),
    /// The passwords that were listed, in the order the pages gave them.
    Passwords(Vec<PasswordDetails>),
    /// The update or the deletion was carried out.
    Done,
}

/// The model of a [`DaoReply`].
pub enum DaoReplyView {
    Password(PasswordView),
    Passwords(Seq<PasswordDetailsView>),
    Done,
}

impl DeepView for DaoReply {
    type V = DaoReplyView;

    open spec fn deep_view(&self) -> DaoReplyView {
        match self {
            DaoReply::Password(password) => DaoReplyView::Password(password.deep_view()),
            DaoReply::Passwords(passwords) => DaoReplyView::Passwords(passwords.deep_view()),
            DaoReply::Done => DaoReplyView::Done,
        }
    }
}

/// The model of the outcome of an operation on passwords.
pub open spec fn outcome_view(outcome: Result<DaoReply, PassDaoErr>) -> Result<
    DaoReplyView,
    PassDaoErrView,
> {
    match outcome {
        Ok(reply) => Ok(reply.deep_view()),
        Err(err) => Err(err.deep_view()),
    }
}

} // verus!
