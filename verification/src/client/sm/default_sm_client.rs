use vstd::prelude::*;
use crate::client::sm::sm_client::{
    SecretDetails, SecretDetailsView, SecretString, SecretStringView, SecretsPage,
    SecretsPageView, SmClientErr, Tag, TagView,
};
use crate::util::Text;

verus! {

/// A tag as the secret manager writes it: either part may be missing.
#[derive(Debug)]
pub struct WireTag {
    pub key: Option<String>,
    pub value: Option<String>,
}

/// The model of a [`WireTag`].
pub struct WireTagView {
    pub key: Option<Text>,
    pub value: Option<Text>,
}

impl DeepView for WireTag {
    type V = WireTagView;

    open spec fn deep_view(&self) -> WireTagView {
        WireTagView { key: self.key.deep_view(), value: self.value.deep_view() }
    }
}

/// A secret as the secret manager describes or lists it: every part may
/// be missing.
#[derive(Debug)]
pub struct WireSecret {
    pub arn: Option<String>,
    pub name: Option<String>,
    pub tags: Option<Vec<WireTag>>,
    pub description: Option<String>,
}

/// The model of a [`WireSecret`].
pub struct WireSecretView {
    pub arn: Option<Text>,
    pub name: Option<Text>,
    pub tags: Option<Seq<WireTagView>>,
    pub description: Option<Text>,
}

impl DeepView for WireSecret {
    type V = WireSecretView;

    open spec fn deep_view(&self) -> WireSecretView {
        WireSecretView {
            arn: self.arn.deep_view(),
            name: self.name.deep_view(),
            tags: self.tags.deep_view(),
            description: self.description.deep_view(),
        }
    }
}

/// The value of a secret as the secret manager hands it out.
#[derive(Debug)]
pub struct WireSecretValue {
    pub arn: Option<String>,
    pub name: Option<String>,
    pub secret_string: Option<String>,
}

/// The model of a [`WireSecretValue`].
pub struct WireSecretValueView {
    pub arn: Option<Text>,
    pub name: Option<Text>,
    pub secret_string: Option<Text>,
}

impl DeepView for WireSecretValue {
    type V = WireSecretValueView;

    open spec fn deep_view(&self) -> WireSecretValueView {
        WireSecretValueView {
            arn: self.arn.deep_view(),
            name: self.name.deep_view(),
            secret_string: self.secret_string.deep_view(),
        }
    }
}

/// A page of a listing as the secret manager hands it out.
#[derive(Debug)]
pub struct WireSecretsPage {
    pub secret_list: Option<Vec<WireSecret>>,
    pub next_token: Option<String>,
}

/// The model of a [`WireSecretsPage`].
pub struct WireSecretsPageView {
    pub secret_list: Option<Seq<WireSecretView>>,
    pub next_token: Option<Text>,
}

impl DeepView for WireSecretsPage {
    type V = WireSecretsPageView;

    open spec fn deep_view(&self) -> WireSecretsPageView {
        WireSecretsPageView {
            secret_list: self.secret_list.deep_view(),
            next_token: self.next_token.deep_view(),
        }
    }
}

/// A part that an answer must carry: the part, or the failure of a
/// service whose answer lacks it.
pub open spec fn required(part: Option<Text>) -> Result<Text, SmClientErr> {
    match part {
        Some(text) => Ok(text),
        None => Err(SmClientErr::BackendUnavailable),
    }
}

/// Whether a tag has both its key and its value.
pub open spec fn is_complete(tag: WireTagView) -> bool {
    tag.key is Some && tag.value is Some
}

/// The tags of an answer: none when the answer names none, each tag as
/// its key and value otherwise. A tag without key or value makes the
/// answer unreadable.
pub open spec fn translated_tags(tags: Option<Seq<WireTagView>>) -> Result<
    Seq<TagView>,
    SmClientErr,
> {
    match tags {
        None => Ok(Seq::empty()),
        Some(tags) => if forall|i: int| 0 <= i < tags.len() ==> is_complete(#[trigger] tags[i]) {
            Ok(Seq::new(tags.len(), |i: int| (tags[i].key->0, tags[i].value->0)))
        } else {
            Err(SmClientErr::BackendUnavailable)
        },
    }
}

/// The description of a secret in an answer, which must carry the
/// identifier, the name and readable tags.
pub open spec fn described(secret: WireSecretView) -> Result<SecretDetailsView, SmClientErr> {
    match (secret.arn, secret.name, translated_tags(secret.tags)) {
        (Some(arn), Some(name), Ok(tags)) => Ok(
            SecretDetailsView { arn, name, tags, description: secret.description },
        ),
        _ => Err(SmClientErr::BackendUnavailable),
    }
}

/// The secret with its value in an answer, which must carry all three
/// parts.
pub open spec fn fetched(secret: WireSecretValueView) -> Result<SecretStringView, SmClientErr> {
    match (secret.arn, secret.name, secret.secret_string) {
        (Some(arn), Some(name), Some(value)) => Ok(SecretStringView { arn, name, value }),
        _ => Err(SmClientErr::BackendUnavailable),
    }
}

/// The page in an answer: the secrets it lists, none when it names no
/// list, and its cursor. One unreadable secret makes the page unreadable.
pub open spec fn page_of(page: WireSecretsPageView) -> Result<SecretsPageView, SmClientErr> {
    match page.secret_list {
        None => Ok((Seq::empty(), page.next_token)),
        Some(list) => if forall|i: int| 0 <= i < list.len() ==> described(#[trigger] list[i]) is Ok {
            Ok((Seq::new(list.len(), |i: int| described(list[i])->Ok_0), page.next_token))
        } else {
            Err(SmClientErr::BackendUnavailable)
        },
    }
}

/// A random version 4 UUID in its hyphenated form. Calls
/// `uuid::Uuid::new_v4` and the `to_string` of its `Display`. The text is
/// drawn at random; all that is claimed is the length of the form, 32
/// hexadecimal digits and 4 hyphens.
#[verifier::external_body]
fn random_uuid() -> (r: String)
    ensures
        r@.len() == 36,
{
    uuid::Uuid::new_v4().to_string()
}

/// Copies an optional string.
pub fn clone_optional(s: &Option<String>) -> (r: Option<String>)
    ensures
        r.deep_view() == s.deep_view(),
{
    match s {
        Some(text) => Some(text.clone()),
        None => None,
    }
}

/// Reads the tags of an answer.
pub fn translate_tags(tags: &Option<Vec<WireTag>>) -> (r: Result<Vec<Tag>, SmClientErr>)
    ensures
        match r {
            Ok(read) => translated_tags(tags.deep_view()) == Ok::<Seq<TagView>, SmClientErr>(
                read.deep_view(),
            ),
            Err(err) => translated_tags(tags.deep_view()) == Err::<Seq<TagView>, SmClientErr>(err),
        },
{
    let mut read: Vec<Tag> = Vec::new();
    match tags {
        None => {
            assert(read.deep_view() =~= Seq::empty());
            Ok(read)
        },
        Some(list) => {
            let mut i: usize = 0;
            while i < list.len()
                invariant
                    i <= list.len(),
                    read.len() == i,
                    tags.deep_view() == Some(list.deep_view()),
                    forall|j: int| 0 <= j < i ==> is_complete(#[trigger] list.deep_view()[j]),
                    forall|j: int|
                        0 <= j < i ==> read[j].deep_view() == (
                            list[j].key.deep_view()->0,
                            list[j].value.deep_view()->0,
                        ),
                decreases list.len() - i,
            {
                match (&list[i].key, &list[i].value) {
                    (Some(key), Some(value)) => {
                        read.push((key.clone(), value.clone()));
                    },
                    _ => {
                        assert(!is_complete(list.deep_view()[i as int]));
                        return Err(SmClientErr::BackendUnavailable);
                    },
                }
                i += 1;
            }
            assert(read.deep_view() =~= translated_tags(tags.deep_view())->Ok_0);
            Ok(read)
        },
    }
}

/// The exchange with the secret manager: how each answer is read.
pub struct DefaultSmClient {}

impl DefaultSmClient {
    /// A token that tells one request to create or update a secret from
    /// every other, so that a request sent twice is carried out once. It
    /// is drawn at random.
    pub fn client_request_token() -> (r: String)
        ensures
            r@.len() == 36,
    {
        random_uuid()
    }

    /// Reads the answer to the creation of a secret: the identifier of
    /// the new secret.
    pub fn create_secret_string(arn: Option<String>) -> (r: Result<String, SmClientErr>)
        ensures
            match r {
                Ok(id) => required(arn.deep_view()) == Ok::<Text, SmClientErr>(id@),
                Err(err) => required(arn.deep_view()) == Err::<Text, SmClientErr>(err),
            },
    {
        match arn {
            Some(id) => Ok(id),
            None => Err(SmClientErr::BackendUnavailable),
        }
    }

    /// Reads the description of a secret.
    pub fn describe_secret(secret: &WireSecret) -> (r: Result<SecretDetails, SmClientErr>)
        ensures
            match r {
                Ok(details) => described(secret.deep_view()) == Ok::<
                    SecretDetailsView,
                    SmClientErr,
                >(details.deep_view()),
                Err(err) => described(secret.deep_view()) == Err::<SecretDetailsView, SmClientErr>(
                    err,
                ),
            },
    {
        match (&secret.arn, &secret.name) {
            (Some(arn), Some(name)) => match translate_tags(&secret.tags) {
                Ok(tags) => Ok(
                    SecretDetails {
                        arn: arn.clone(),
                        name: name.clone(),
                        tags,
                        description: clone_optional(&secret.description),
                    },
                ),
                Err(err) => Err(SmClientErr::BackendUnavailable),
            },
            _ => Err(SmClientErr::BackendUnavailable),
        }
    }

    /// Reads a secret with its value.
    pub fn get_secret_string(secret: WireSecretValue) -> (r: Result<SecretString, SmClientErr>)
        ensures
            match r {
                Ok(read) => fetched(secret.deep_view()) == Ok::<SecretStringView, SmClientErr>(
                    read.deep_view(),
                ),
                Err(err) => fetched(secret.deep_view()) == Err::<SecretStringView, SmClientErr>(
                    err,
                ),
            },
    {
        match (secret.arn, secret.name, secret.secret_string) {
            (Some(arn), Some(name), Some(value)) => Ok(SecretString { arn, name, value }),
            _ => Err(SmClientErr::BackendUnavailable),
        }
    }

    /// Reads one page of a listing.
    pub fn list_secrets(page: WireSecretsPage) -> (r: Result<SecretsPage, SmClientErr>)
        ensures
            match r {
                Ok(read) => page_of(page.deep_view()) == Ok::<SecretsPageView, SmClientErr>(
                    read.deep_view(),
                ),
                Err(err) => page_of(page.deep_view()) == Err::<SecretsPageView, SmClientErr>(err),
            },
    {
        let mut read: Vec<SecretDetails> = Vec::new();
        match &page.secret_list {
            None => {
                assert(read.deep_view() =~= Seq::empty());
            },
            Some(list) => {
                let mut i: usize = 0;
                while i < list.len()
                    invariant
                        i <= list.len(),
                        read.len() == i,
                        page.secret_list.deep_view() == Some(list.deep_view()),
                        forall|j: int|
                            0 <= j < i ==> described(#[trigger] list.deep_view()[j]) is Ok,
                        forall|j: int|
                            0 <= j < i ==> read[j].deep_view() == described(
                                list[j].deep_view(),
                            )->Ok_0,
                    decreases list.len() - i,
                {
                    match Self::describe_secret(&list[i]) {
                        Ok(details) => {
                            read.push(details);
                        },
                        Err(err) => {
                            assert(described(list.deep_view()[i as int]) is Err);
                            return Err(SmClientErr::BackendUnavailable);
                        },
                    }
                    i += 1;
                }
                assert(read.deep_view() =~= page_of(page.deep_view())->Ok_0.0);
            },
        }
        Ok((read, page.next_token))
    }

    /// Reads the random password of an answer.
    pub fn get_random_password(random_password: Option<String>) -> (r: Result<
        String,
        SmClientErr,
    >)
        ensures
            match r {
                Ok(password) => required(random_password.deep_view()) == Ok::<Text, SmClientErr>(
                    password@,
                ),
                Err(err) => required(random_password.deep_view()) == Err::<Text, SmClientErr>(
                    err,
                ),
            },
    {
        match random_password {
            Some(password) => Ok(password),
            None => Err(SmClientErr::BackendUnavailable),
        }
    }
}

} // verus!
