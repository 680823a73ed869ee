use vstd::prelude::*;
use crate::util::{clone_strings, Text};

verus! {

/// A key and a value attached to a secret when it is created.
pub type Tag = (String, String);

/// A listing predicate: a key and the values it accepts. A listing keeps
/// the secrets that every filter accepts; a filter accepts a secret when
/// one of its values does.
pub type Filter = (String, Vec<String>);

/// One page of a listing: its items and the cursor of the next page, if any.
pub type SecretsPage = (Vec<SecretDetails>, Option<String>);

/// The model of a [`Tag`].
pub type TagView = (Text, Text);

/// The model of a [`Filter`].
pub type FilterView = (Text, Seq<Text>);

/// The model of a [`SecretsPage`].
pub type SecretsPageView = (Seq<SecretDetailsView>, Option<Text>);

/// What a listing tells about a secret.
#[derive(Debug)]
pub struct SecretDetails {
    pub arn: String,
    pub name: String,
    pub tags: Vec<(String, String)>,
    pub description: Option<String>,
}

/// The model of a [`SecretDetails`].
pub struct SecretDetailsView {
    pub arn: Text,
    pub name: Text,
    pub tags: Seq<TagView>,
    pub description: Option<Text>,
}

impl DeepView for SecretDetails {
    type V = SecretDetailsView;

    open spec fn deep_view(&self) -> SecretDetailsView {
        SecretDetailsView {
            arn: self.arn@,
            name: self.name@,
            tags: self.tags.deep_view(),
            description: self.description.deep_view(),
        }
    }
}

/// A secret with its value.
#[derive(Debug)]
pub struct SecretString {
    pub arn: String,
    pub name: String,
    pub value: String,
}

/// The model of a [`SecretString`].
pub struct SecretStringView {
    pub arn: Text,
    pub name: Text,
    pub value: Text,
}

impl DeepView for SecretString {
    type V = SecretStringView;

    open spec fn deep_view(&self) -> SecretStringView {
        SecretStringView { arn: self.arn@, name: self.name@, value: self.value@ }
    }
}

/// Why the secret manager did not answer a request.
#[derive(Debug, Clone, Copy, PartialEq, Eq, Structural)]
pub enum SmClientErr {
    /// No secret is stored under the identifier.
    SecretNotFound,
    /// A secret of this name is stored already.
    SecretAlreadyExists,
    /// The token service turned the credentials or the MFA code down.
    AuthFailure,
    /// A local file that the credentials depend on is missing or malformed.
    Configuration,
    /// The transport or the service failed, or its answer lacks a field.
    BackendUnavailable,
}

/// A request to the secret manager.
#[derive(Debug)]
pub enum SmRequest {
    /// Store `value` under a new secret called `name`, with `tags`.
    CreateSecretString { name: String, value: String, tags: Option<Vec<Tag>> },
    /// Delete the secret `arn`.
    DeleteSecret { arn: String },
    /// Describe the secret `arn`.
    DescribeSecret { arn: String },
    /// Fetch the value of the secret `arn`.
    GetSecretString { arn: String },
    /// List one page of the secrets that `filters` accept, from `next_token`.
    ListSecrets { filters: Option<Vec<Filter>>, next_token: Option<String> },
    /// Replace the value of the secret `arn`.
    PutSecretString { arn: String, value: String },
    /// Draw a random password.
    GetRandomPassword { exclude_chars: Option<String>, length: Option<i64> },
}

/// The model of an [`SmRequest`].
pub enum SmRequestView {
    CreateSecretString { name: Text, value: Text, tags: Option<Seq<TagView>> },
    DeleteSecret { arn: Text },
    DescribeSecret { arn: Text },
    GetSecretString { arn: Text },
    ListSecrets { filters: Option<Seq<FilterView>>, next_token: Option<Text> },
    PutSecretString { arn: Text, value: Text },
    GetRandomPassword { exclude_chars: Option<Text>, length: Option<i64> },
}

impl DeepView for SmRequest {
    type V = SmRequestView;

    open spec fn deep_view(&self) -> SmRequestView {
        match self {
            SmRequest::CreateSecretString { name, value, tags } => SmRequestView::CreateSecretString {
                name: name@,
                value: value@,
                tags: tags.deep_view(),
            },
            SmRequest::DeleteSecret { arn } => SmRequestView::DeleteSecret { arn: arn@ },
            SmRequest::DescribeSecret { arn } => SmRequestView::DescribeSecret { arn: arn@ },
            SmRequest::GetSecretString { arn } => SmRequestView::GetSecretString { arn: arn@ },
            SmRequest::ListSecrets { filters, next_token } => SmRequestView::ListSecrets {
                filters: filters.deep_view(),
                next_token: next_token.deep_view(),
            },
            SmRequest::PutSecretString { arn, value } => SmRequestView::PutSecretString {
                arn: arn@,
                value: value@,
            },
            SmRequest::GetRandomPassword { exclude_chars, length } => SmRequestView::GetRandomPassword {
                exclude_chars: exclude_chars.deep_view(),
                length: *length,
            },
        }
    }
}

/// What the secret manager answered.
#[derive(Debug)]
pub enum SmResponse {
    /// The secret was created under this identifier.
    SecretCreated(String),
    /// The secret was deleted.
    SecretDeleted,
    /// The description that was asked for.
    SecretDescribed(SecretDetails),
    /// The secret that was asked for, with its value.
    SecretFetched(SecretString),
    /// One page of a listing.
    SecretsListed(SecretsPage),
    /// The value was replaced.
    SecretPut,
    /// The password that was drawn.
    RandomPassword(String),
    /// The request failed.
    Failed(SmClientErr),
}

/// The model of an [`SmResponse`].
pub enum SmResponseView {
    SecretCreated(Text),
    SecretDeleted,
    SecretDescribed(SecretDetailsView),
    SecretFetched(SecretStringView),
    SecretsListed(SecretsPageView),
    SecretPut,
    RandomPassword(Text),
    Failed(SmClientErr),
}

impl DeepView for SmResponse {
    type V = SmResponseView;

    open spec fn deep_view(&self) -> SmResponseView {
        match self {
            SmResponse::SecretCreated(arn) => SmResponseView::SecretCreated(arn@),
            SmResponse::SecretDeleted => SmResponseView::SecretDeleted,
            SmResponse::SecretDescribed(details) => SmResponseView::SecretDescribed(
                details.deep_view(),
            ),
            SmResponse::SecretFetched(secret) => SmResponseView::SecretFetched(secret.deep_view()),
            SmResponse::SecretsListed(page) => SmResponseView::SecretsListed(page.deep_view()),
            SmResponse::SecretPut => SmResponseView::SecretPut,
            SmResponse::RandomPassword(password) => SmResponseView::RandomPassword(password@),
            SmResponse::Failed(err) => SmResponseView::Failed(*err),
        }
    }
}

/// Copies a list of tags.
pub fn clone_tags(tags: &[Tag]) -> (r: Vec<Tag>)
    ensures
        r.deep_view() == tags.deep_view(),
{
    let mut r: Vec<Tag> = Vec::new();
    let mut i: usize = 0;
    while i < tags.len()
        invariant
            i <= tags.len(),
            r.len() == i,
            forall|j: int| 0 <= j < i ==> r[j].deep_view() == tags[j].deep_view(),
        decreases tags.len() - i,
    {
        r.push((tags[i].0.clone(), tags[i].1.clone()));
        i += 1;
    }
    assert(r.deep_view() =~= tags.deep_view());
    r
}

/// Copies a list of filters.
pub fn clone_filters(filters: &[Filter]) -> (r: Vec<Filter>)
    ensures
        r.deep_view() == filters.deep_view(),
{
    let mut r: Vec<Filter> = Vec::new();
    let mut i: usize = 0;
    while i < filters.len()
        invariant
            i <= filters.len(),
            r.len() == i,
            forall|j: int| 0 <= j < i ==> r[j].deep_view() == filters[j].deep_view(),
        decreases filters.len() - i,
    {
        r.push((filters[i].0.clone(), clone_strings(filters[i].1.as_slice())));
        i += 1;
    }
    assert(r.deep_view() =~= filters.deep_view());
    r
}

} // verus!
