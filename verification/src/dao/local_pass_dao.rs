use vstd::prelude::*;
use vstd::string::*;
use crate::client::sm::sm_client::{
    clone_tags, Filter, FilterView, SecretDetails, SecretDetailsView, SecretString,
    SecretStringView, SmClientErr, SmRequest, SmRequestView, SmResponse, SmResponseView, Tag,
    TagView,
};
use crate::dao::pass_dao::{
    outcome_view, DaoCall, DaoCallView, DaoReply, DaoReplyView, PassDaoErr, PassDaoErrView,
    PasswordDetailsView, PasswordView,
};
use crate::dao::sm_pass_dao::{
    details_of_all, first_step, name_filters, next_step, password_of, resolved, DaoStep,
    DaoStepView, SmPassDao, StageView,
};
use crate::util::Text;

verus! {

/// A secret kept in memory.
#[derive(Debug)]
pub struct LocalSecret {
    pub arn: String,
    pub name: String,
    pub value: String,
    pub tags: Vec<Tag>,
}

/// The model of a [`LocalSecret`].
pub struct LocalSecretView {
    pub arn: Text,
    pub name: Text,
    pub value: Text,
    pub tags: Seq<TagView>,
}

impl DeepView for LocalSecret {
    type V = LocalSecretView;

    open spec fn deep_view(&self) -> LocalSecretView {
        LocalSecretView {
            arn: self.arn@,
            name: self.name@,
            value: self.value@,
            tags: self.tags.deep_view(),
        }
    }
}

/// The model of a [`LocalPassDao`]: the secrets it keeps, oldest first,
/// how many it has created, and the passwords it will hand out when asked
/// for random ones, next first.
pub struct LocalStoreView {
    pub secrets: Seq<LocalSecretView>,
    pub created: u64,
    pub passwords: Seq<Text>,
}

/// One decimal digit.
pub open spec fn digit(d: int) -> Text {
    if d == 0 {
        "0"@
    } else if d == 1 {
        "1"@
    } else if d == 2 {
        "2"@
    } else if d == 3 {
        "3"@
    } else if d == 4 {
        "4"@
    } else if d == 5 {
        "5"@
    } else if d == 6 {
        "6"@
    } else if d == 7 {
        "7"@
    } else if d == 8 {
        "8"@
    } else {
        "9"@
    }
}

/// A number in decimal digits.
pub open spec fn decimal(n: nat) -> Text
    decreases n,
{
    if n < 10 {
        digit(n as int)
    } else {
        decimal(n / 10) + digit((n % 10) as int)
    }
}

/// The identifier of the secret created after `serial` others.
pub open spec fn local_arn(serial: nat) -> Text {
    "local-"@ + decimal(serial)
}

/// Whether `text` begins with `prefix`.
pub open spec fn begins_with(text: Text, prefix: Text) -> bool {
    &&& prefix.len() <= text.len()
    &&& forall|i: int| 0 <= i < prefix.len() ==> text[i] == prefix[i]
}

/// Whether one of the tags has the key `key`.
pub open spec fn has_tag_key(tags: Seq<TagView>, key: Text) -> bool {
    exists|i: int| 0 <= i < tags.len() && (#[trigger] tags[i]).0 == key
}

/// Whether one of the tags has the value `value`.
pub open spec fn has_tag_value(tags: Seq<TagView>, value: Text) -> bool {
    exists|i: int| 0 <= i < tags.len() && (#[trigger] tags[i]).1 == value
}

/// Whether a filter with the key `key` accepts a secret for `value`: under
/// `name`, the name of the secret begins with the value; under `tag-key`,
/// one of its tags has the value as its key; under `tag-value`, one of
/// its tags has it as its value. No other key accepts anything.
pub open spec fn value_accepts(key: Text, value: Text, secret: LocalSecretView) -> bool {
    if key == "name"@ {
        begins_with(secret.name, value)
    } else if key == "tag-key"@ {
        has_tag_key(secret.tags, value)
    } else if key == "tag-value"@ {
        has_tag_value(secret.tags, value)
    } else {
        false
    }
}

/// Whether a filter accepts a secret: one of its values does.
pub open spec fn filter_accepts(filter: FilterView, secret: LocalSecretView) -> bool {
    exists|j: int| 0 <= j < filter.1.len() && value_accepts(filter.0, #[trigger] filter.1[j], secret)
}

/// Whether every one of the filters accepts a secret.
pub open spec fn accepts(filters: Seq<FilterView>, secret: LocalSecretView) -> bool {
    forall|i: int| 0 <= i < filters.len() ==> filter_accepts(#[trigger] filters[i], secret)
}

/// A secret as a listing shows it.
pub open spec fn listed_details(secret: LocalSecretView) -> SecretDetailsView {
    SecretDetailsView { arn: secret.arn, name: secret.name, tags: secret.tags, description: None }
}

/// A secret as it is fetched.
pub open spec fn fetched_secret(secret: LocalSecretView) -> SecretStringView {
    SecretStringView { arn: secret.arn, name: secret.name, value: secret.value }
}

/// The secrets that the filters accept, as a listing shows them, oldest
/// first.
pub open spec fn kept(secrets: Seq<LocalSecretView>, filters: Seq<FilterView>) -> Seq<
    SecretDetailsView,
>
    decreases secrets.len(),
{
    if secrets.len() == 0 {
        Seq::empty()
    } else {
        let before = kept(secrets.drop_last(), filters);
        if accepts(filters, secrets.last()) {
            before.push(listed_details(secrets.last()))
        } else {
            before
        }
    }
}

/// Whether the oldest secret with the identifier `arn` stands at `i`.
pub open spec fn is_position(secrets: Seq<LocalSecretView>, arn: Text, i: int) -> bool {
    &&& 0 <= i < secrets.len()
    &&& secrets[i].arn == arn
    &&& forall|j: int| 0 <= j < i ==> (#[trigger] secrets[j]).arn != arn
}

/// Where the oldest secret with the identifier `arn` stands, if there is
/// one.
pub open spec fn position(secrets: Seq<LocalSecretView>, arn: Text) -> Option<int> {
    if exists|i: int| is_position(secrets, arn, i) {
        Some(choose|i: int| is_position(secrets, arn, i))
    } else {
        None
    }
}

/// Whether one of the secrets is called `name`.
pub open spec fn has_name(secrets: Seq<LocalSecretView>, name: Text) -> bool {
    exists|i: int| 0 <= i < secrets.len() && (#[trigger] secrets[i]).name == name
}

/// The tags of a request, none when it names none.
pub open spec fn tags_or_none(tags: Option<Seq<TagView>>) -> Seq<TagView> {
    match tags {
        Some(tags) => tags,
        None => Seq::empty(),
    }
}

/// The filters of a request, none when it names none.
pub open spec fn filters_or_none(filters: Option<Seq<FilterView>>) -> Seq<FilterView> {
    match filters {
        Some(filters) => filters,
        None => Seq::empty(),
    }
}

/// A store that answers `request` with the failure `err` and stays as it
/// is.
pub open spec fn refused(store: LocalStoreView, err: SmClientErr) -> (
    LocalStoreView,
    SmResponseView,
) {
    (store, SmResponseView::Failed(err))
}

/// How the store in memory answers a request, and what it is afterwards.
///
/// A secret is created under the identifier of its serial number, unless
/// its name is taken, the numbers have run out or the identifier is in
/// use. A secret is
/// fetched, described, given a new value or deleted by its identifier,
/// and is not found when no secret has it. A listing comes in one page,
/// without a cursor, and a request that carries a cursor is refused. A
/// random password is the next of those the store was given, and the
/// request is refused when none is left.
pub open spec fn answered(store: LocalStoreView, request: SmRequestView) -> (
    LocalStoreView,
    SmResponseView,
) {
    match request {
        SmRequestView::CreateSecretString { name, value, tags } => {
            let arn = local_arn(store.created as nat);
            if has_name(store.secrets, name) {
                refused(store, SmClientErr::SecretAlreadyExists)
            } else if store.created == u64::MAX || position(store.secrets, arn) is Some {
                refused(store, SmClientErr::BackendUnavailable)
            } else {
                let secret = LocalSecretView { arn, name, value, tags: tags_or_none(tags) };
                (
                    LocalStoreView {
                        secrets: store.secrets.push(secret),
                        created: (store.created + 1) as u64,
                        passwords: store.passwords,
                    },
                    SmResponseView::SecretCreated(arn),
                )
            }
        },
        SmRequestView::DeleteSecret { arn } => match position(store.secrets, arn) {
            Some(i) => (
                LocalStoreView {
                    secrets: store.secrets.remove(i),
                    created: store.created,
                    passwords: store.passwords,
                },
                SmResponseView::SecretDeleted,
            ),
            None => refused(store, SmClientErr::SecretNotFound),
        },
        SmRequestView::DescribeSecret { arn } => match position(store.secrets, arn) {
            Some(i) => (store, SmResponseView::SecretDescribed(listed_details(store.secrets[i]))),
            None => refused(store, SmClientErr::SecretNotFound),
        },
        SmRequestView::GetSecretString { arn } => match position(store.secrets, arn) {
            Some(i) => (store, SmResponseView::SecretFetched(fetched_secret(store.secrets[i]))),
            None => refused(store, SmClientErr::SecretNotFound),
        },
        SmRequestView::ListSecrets { filters, next_token } => match next_token {
            Some(_) => refused(store, SmClientErr::BackendUnavailable),
            None => (
                store,
                SmResponseView::SecretsListed(
                    (kept(store.secrets, filters_or_none(filters)), None),
                ),
            ),
        },
        SmRequestView::PutSecretString { arn, value } => match position(store.secrets, arn) {
            Some(i) => (
                LocalStoreView {
                    secrets: store.secrets.update(
                        i,
                        LocalSecretView {
                            arn: store.secrets[i].arn,
                            name: store.secrets[i].name,
                            value,
                            tags: store.secrets[i].tags,
                        },
                    ),
                    created: store.created,
                    passwords: store.passwords,
                },
                SmResponseView::SecretPut,
            ),
            None => refused(store, SmClientErr::SecretNotFound),
        },
        SmRequestView::GetRandomPassword { exclude_chars, length } => if store.passwords.len()
            > 0 {
            (
                LocalStoreView {
                    secrets: store.secrets,
                    created: store.created,
                    passwords: store.passwords.drop_first(),
                },
                SmResponseView::RandomPassword(store.passwords[0]),
            )
        } else {
            refused(store, SmClientErr::BackendUnavailable)
        },
    }
}

/// Tells whether `text` begins with `prefix`.
pub fn is_prefix(prefix: &str, text: &str) -> (r: bool)
    ensures
        r == begins_with(text@, prefix@),
{
    let len: usize = prefix.unicode_len();
    if len > text.unicode_len() {
        return false;
    }
    let mut i: usize = 0;
    while i < len
        invariant
            len == prefix@.len(),
            len <= text@.len(),
            i <= len,
            forall|j: int| 0 <= j < i ==> text@[j] == prefix@[j],
        decreases len - i,
    {
        if prefix.get_char(i) != text.get_char(i) {
            return false;
        }
        i += 1;
    }
    true
}

/// One decimal digit as a text.
fn digit_text(d: u64) -> (r: &'static str)
    requires
        d < 10,
    ensures
        r@ == digit(d as int),
{
    if d == 0 {
        "0"
    } else if d == 1 {
        "1"
    } else if d == 2 {
        "2"
    } else if d == 3 {
        "3"
    } else if d == 4 {
        "4"
    } else if d == 5 {
        "5"
    } else if d == 6 {
        "6"
    } else if d == 7 {
        "7"
    } else if d == 8 {
        "8"
    } else {
        "9"
    }
}

/// A number in decimal digits.
pub fn decimal_text(n: u64) -> (r: String)
    ensures
        r@ == decimal(n as nat),
    decreases n,
{
    if n < 10 {
        digit_text(n).to_string()
    } else {
        decimal_text(n / 10).concat(digit_text(n % 10))
    }
}

/// An operation carried out against the store in memory, from the stage
/// `stage` in which it waits for the answer to `request`: the store
/// afterwards and the outcome. The operation is resumed with each answer
/// of the store until it ends; `more` bounds the requests that may follow
/// the first.
pub open spec fn exchanged(
    store: LocalStoreView,
    stage: StageView,
    request: SmRequestView,
    more: nat,
) -> (LocalStoreView, Result<DaoReplyView, PassDaoErrView>)
    decreases more,
{
    let (after, response) = answered(store, request);
    let (waiting, step) = next_step(stage, response);
    match step {
        DaoStepView::Finished(outcome) => (after, outcome),
        DaoStepView::Call(next) => if more == 0 {
            (after, Err(PassDaoErrView::OtherError))
        } else {
            exchanged(after, waiting, next, (more - 1) as nat)
        },
    }
}

/// An operation on passwords carried out against the store in memory: the
/// store afterwards and the outcome. No operation needs more than three
/// requests.
pub open spec fn performed(store: LocalStoreView, call: DaoCallView) -> (
    LocalStoreView,
    Result<DaoReplyView, PassDaoErrView>,
) {
    let (stage, request) = first_step(call);
    exchanged(store, stage, request, 2)
}

/// A password store in memory, for use where no secret manager can be
/// reached. It answers the requests that a secret manager answers, and
/// carries out the operations on passwords against those answers.
pub struct LocalPassDao {
    secrets: Vec<LocalSecret>,
    created: u64,
    passwords: Vec<String>,
}

impl DeepView for LocalPassDao {
    type V = LocalStoreView;

    closed spec fn deep_view(&self) -> LocalStoreView {
        LocalStoreView {
            secrets: self.secrets.deep_view(),
            created: self.created,
            passwords: self.passwords.deep_view(),
        }
    }
}

/// Tells whether one of the tags has the key `key`.
fn tag_key_present(tags: &Vec<Tag>, key: &String) -> (r: bool)
    ensures
        r == has_tag_key(tags.deep_view(), key@),
{
    let mut i: usize = 0;
    while i < tags.len()
        invariant
            i <= tags.len(),
            forall|j: int| 0 <= j < i ==> (#[trigger] tags.deep_view()[j]).0 != key@,
        decreases tags.len() - i,
    {
        if tags[i].0 == *key {
            assert(tags.deep_view()[i as int].0 == key@);
            return true;
        }
        i += 1;
    }
    false
}

/// Tells whether one of the tags has the value `value`.
fn tag_value_present(tags: &Vec<Tag>, value: &String) -> (r: bool)
    ensures
        r == has_tag_value(tags.deep_view(), value@),
{
    let mut i: usize = 0;
    while i < tags.len()
        invariant
            i <= tags.len(),
            forall|j: int| 0 <= j < i ==> (#[trigger] tags.deep_view()[j]).1 != value@,
        decreases tags.len() - i,
    {
        if tags[i].1 == *value {
            assert(tags.deep_view()[i as int].1 == value@);
            return true;
        }
        i += 1;
    }
    false
}

/// Tells whether a filter with the key `key` accepts a secret for `value`.
fn value_accepted(key: &String, value: &String, secret: &LocalSecret) -> (r: bool)
    ensures
        r == value_accepts(key@, value@, secret.deep_view()),
{
    if *key == "name".to_string() {
        is_prefix(value.as_str(), secret.name.as_str())
    } else if *key == "tag-key".to_string() {
        tag_key_present(&secret.tags, value)
    } else if *key == "tag-value".to_string() {
        tag_value_present(&secret.tags, value)
    } else {
        false
    }
}

/// Tells whether a filter accepts a secret.
fn filter_accepted(filter: &Filter, secret: &LocalSecret) -> (r: bool)
    ensures
        r == filter_accepts(filter.deep_view(), secret.deep_view()),
{
    let mut j: usize = 0;
    while j < filter.1.len()
        invariant
            j <= filter.1.len(),
            forall|k: int|
                0 <= k < j ==> !value_accepts(
                    filter.0@,
                    #[trigger] filter.deep_view().1[k],
                    secret.deep_view(),
                ),
        decreases filter.1.len() - j,
    {
        if value_accepted(&filter.0, &filter.1[j], secret) {
            assert(value_accepts(filter.0@, filter.deep_view().1[j as int], secret.deep_view()));
            return true;
        }
        j += 1;
    }
    false
}

/// Tells whether every one of the filters accepts a secret.
fn accepted(filters: &Vec<Filter>, secret: &LocalSecret) -> (r: bool)
    ensures
        r == accepts(filters.deep_view(), secret.deep_view()),
{
    let mut i: usize = 0;
    while i < filters.len()
        invariant
            i <= filters.len(),
            forall|k: int|
                0 <= k < i ==> filter_accepts(#[trigger] filters.deep_view()[k], secret.deep_view()),
        decreases filters.len() - i,
    {
        if !filter_accepted(&filters[i], secret) {
            assert(!filter_accepts(filters.deep_view()[i as int], secret.deep_view()));
            return false;
        }
        i += 1;
    }
    true
}

/// Tells whether one of the secrets is called `name`.
fn name_taken(secrets: &Vec<LocalSecret>, name: &String) -> (r: bool)
    ensures
        r == has_name(secrets.deep_view(), name@),
{
    let mut i: usize = 0;
    while i < secrets.len()
        invariant
            i <= secrets.len(),
            forall|j: int| 0 <= j < i ==> (#[trigger] secrets.deep_view()[j]).name != name@,
        decreases secrets.len() - i,
    {
        if secrets[i].name == *name {
            assert(secrets.deep_view()[i as int].name == name@);
            return true;
        }
        i += 1;
    }
    false
}

/// Finds the oldest secret with the identifier `arn`.
fn find(secrets: &Vec<LocalSecret>, arn: &String) -> (r: Option<usize>)
    ensures
        match r {
            Some(i) => position(secrets.deep_view(), arn@) == Some(i as int) && i < secrets.len(),
            None => position(secrets.deep_view(), arn@) is None,
        },
{
    let mut i: usize = 0;
    while i < secrets.len()
        invariant
            i <= secrets.len(),
            forall|j: int| 0 <= j < i ==> (#[trigger] secrets.deep_view()[j]).arn != arn@,
        decreases secrets.len() - i,
    {
        if secrets[i].arn == *arn {
            proof {
                let s = secrets.deep_view();
                assert(is_position(s, arn@, i as int));
                assert forall|k: int| is_position(s, arn@, k) implies k == i by {
                    if k < i {
                        assert(s[k].arn != arn@);
                    } else if k > i {
                        assert(s[i as int].arn == arn@);
                    }
                }
            }
            return Some(i);
        }
        i += 1;
    }
    proof {
        let s = secrets.deep_view();
        assert forall|k: int| !is_position(s, arn@, k) by {
            if 0 <= k < s.len() {
                assert(s[k].arn != arn@);
            }
        }
    }
    None
}

/// Lists the secrets that the filters accept.
fn list(secrets: &Vec<LocalSecret>, filters: &Vec<Filter>) -> (r: Vec<SecretDetails>)
    ensures
        r.deep_view() == kept(secrets.deep_view(), filters.deep_view()),
{
    let mut found: Vec<SecretDetails> = Vec::new();
    let mut i: usize = 0;
    assert(secrets.deep_view().subrange(0, 0) =~= Seq::empty());
    assert(found.deep_view() =~= Seq::empty());
    while i < secrets.len()
        invariant
            i <= secrets.len(),
            found.deep_view() == kept(secrets.deep_view().subrange(0, i as int), filters.deep_view()),
        decreases secrets.len() - i,
    {
        let ghost before = found.deep_view();
        assert(secrets.deep_view().subrange(0, i + 1).drop_last() =~= secrets.deep_view().subrange(
            0,
            i as int,
        ));
        assert(secrets.deep_view().subrange(0, i + 1).last() == secrets[i as int].deep_view());
        if accepted(filters, &secrets[i]) {
            found.push(
                SecretDetails {
                    arn: secrets[i].arn.clone(),
                    name: secrets[i].name.clone(),
                    tags: clone_tags(secrets[i].tags.as_slice()),
                    description: None,
                },
            );
            assert(found.deep_view() =~= before.push(listed_details(secrets[i as int].deep_view())));
        }
        i += 1;
    }
    assert(secrets.deep_view().subrange(0, secrets.len() as int) =~= secrets.deep_view());
    found
}

impl LocalPassDao {
    /// A store that keeps no secret and has no password to hand out.
    pub fn new() -> (r: LocalPassDao)
        ensures
            r.deep_view() == (LocalStoreView {
                secrets: Seq::empty(),
                created: 0,
                passwords: Seq::empty(),
            }),
    {
        let r = LocalPassDao { secrets: Vec::new(), created: 0, passwords: Vec::new() };
        assert(r.secrets.deep_view() =~= Seq::empty());
        assert(r.passwords.deep_view() =~= Seq::empty());
        r
    }

    /// A store that keeps no secret, and hands out `passwords` one after
    /// another when it is asked for random ones.
    pub fn with_passwords(passwords: Vec<String>) -> (r: LocalPassDao)
        ensures
            r.deep_view() == (LocalStoreView {
                secrets: Seq::empty(),
                created: 0,
                passwords: passwords.deep_view(),
            }),
    {
        let r = LocalPassDao { secrets: Vec::new(), created: 0, passwords };
        assert(r.secrets.deep_view() =~= Seq::empty());
        r
    }

    /// Answers a request as a secret manager would.
    pub fn answer(&mut self, request: SmRequest) -> (r: SmResponse)
        ensures
            (final(self).deep_view(), r.deep_view()) == answered(
                old(self).deep_view(),
                request.deep_view(),
            ),
    {
        match request {
            SmRequest::CreateSecretString { name, value, tags } => {
                if name_taken(&self.secrets, &name) {
                    return SmResponse::Failed(SmClientErr::SecretAlreadyExists);
                }
                if self.created == u64::MAX {
                    return SmResponse::Failed(SmClientErr::BackendUnavailable);
                }
                let arn = "local-".to_string().concat(decimal_text(self.created).as_str());
                if find(&self.secrets, &arn).is_some() {
                    return SmResponse::Failed(SmClientErr::BackendUnavailable);
                }
                let tags = match tags {
                    Some(tags) => tags,
                    None => Vec::new(),
                };
                assert(tags.deep_view() =~= tags_or_none(request.deep_view()->CreateSecretString_tags));
                let ghost before = self.secrets.deep_view();
                let secret = LocalSecret { arn: arn.clone(), name, value, tags };
                self.secrets.push(secret);
                self.created = self.created + 1;
                assert(self.secrets.deep_view() =~= before.push(secret.deep_view()));
                SmResponse::SecretCreated(arn)
            },
            SmRequest::DeleteSecret { arn } => match find(&self.secrets, &arn) {
                Some(i) => {
                    let ghost before = self.secrets.deep_view();
                    let _ = self.secrets.remove(i);
                    assert(self.secrets.deep_view() =~= before.remove(i as int));
                    SmResponse::SecretDeleted
                },
                None => SmResponse::Failed(SmClientErr::SecretNotFound),
            },
            SmRequest::DescribeSecret { arn } => match find(&self.secrets, &arn) {
                Some(i) => SmResponse::SecretDescribed(
                    SecretDetails {
                        arn: self.secrets[i].arn.clone(),
                        name: self.secrets[i].name.clone(),
                        tags: clone_tags(self.secrets[i].tags.as_slice()),
                        description: None,
                    },
                ),
                None => SmResponse::Failed(SmClientErr::SecretNotFound),
            },
            SmRequest::GetSecretString { arn } => match find(&self.secrets, &arn) {
                Some(i) => SmResponse::SecretFetched(
                    SecretString {
                        arn: self.secrets[i].arn.clone(),
                        name: self.secrets[i].name.clone(),
                        value: self.secrets[i].value.clone(),
                    },
                ),
                None => SmResponse::Failed(SmClientErr::SecretNotFound),
            },
            SmRequest::ListSecrets { filters, next_token } => match next_token {
                Some(_) => SmResponse::Failed(SmClientErr::BackendUnavailable),
                None => {
                    let filters = match filters {
                        Some(filters) => filters,
                        None => Vec::new(),
                    };
                    assert(filters.deep_view() =~= filters_or_none(
                        request.deep_view()->ListSecrets_filters,
                    ));
                    SmResponse::SecretsListed((list(&self.secrets, &filters), None))
                },
            },
            SmRequest::PutSecretString { arn, value } => match find(&self.secrets, &arn) {
                Some(i) => {
                    let ghost before = self.secrets.deep_view();
                    let old_secret = self.secrets.remove(i);
                    let secret = LocalSecret {
                        arn: old_secret.arn,
                        name: old_secret.name,
                        value,
                        tags: old_secret.tags,
                    };
                    self.secrets.insert(i, secret);
                    assert(self.secrets.deep_view() =~= before.update(i as int, secret.deep_view()));
                    SmResponse::SecretPut
                },
                None => SmResponse::Failed(SmClientErr::SecretNotFound),
            },
            SmRequest::GetRandomPassword { exclude_chars, length } => {
                if self.passwords.len() > 0 {
                    let ghost before = self.passwords.deep_view();
                    let password = self.passwords.remove(0);
                    assert(self.passwords.deep_view() =~= before.drop_first());
                    SmResponse::RandomPassword(password)
                } else {
                    SmResponse::Failed(SmClientErr::BackendUnavailable)
                }
            },
        }
    }

    /// Carries out an operation on passwords against this store.
    pub fn perform(&mut self, call: DaoCall) -> (r: Result<DaoReply, PassDaoErr>)
        ensures
            (final(self).deep_view(), outcome_view(r)) == performed(
                old(self).deep_view(),
                call.deep_view(),
            ),
    {
        let ghost asked = call.deep_view();
        let (dao, request) = SmPassDao::start(call);
        let mut dao = dao;
        let mut request = request;
        let mut more: u8 = 2;
        loop
            invariant
                exchanged(self.deep_view(), dao.deep_view(), request.deep_view(), more as nat)
                    == performed(old(self).deep_view(), asked),
                asked == call.deep_view(),
            decreases more,
        {
            let ghost store = self.deep_view();
            let ghost stage = dao.deep_view();
            let ghost sent = request.deep_view();
            let response = self.answer(request);
            let (waiting, step) = dao.resume(response);
            assert((waiting.deep_view(), step.deep_view()) == next_step(
                stage,
                answered(store, sent).1,
            ));
            match step {
                DaoStep::Finished(outcome) => {
                    return outcome;
                },
                DaoStep::Call(next) => {
                    if more == 0 {
                        return Err(PassDaoErr::OtherError);
                    }
                    more = more - 1;
                    dao = waiting;
                    request = next;
                },
            }
        }
    }
}

/// The password fetched by its identifier: the oldest secret that has
/// it, or not found.
pub open spec fn fetched_by_id(secrets: Seq<LocalSecretView>, id: Text) -> Result<
    DaoReplyView,
    PassDaoErrView,
> {
    match position(secrets, id) {
        Some(i) => Ok(DaoReplyView::Password(password_of(fetched_secret(secrets[i])))),
        None => Err(PassDaoErrView::NotFound),
    }
}

/// Where a secret has the identifier `arn`, there is an oldest secret
/// that has it.
pub proof fn lemma_position_exists(secrets: Seq<LocalSecretView>, arn: Text, k: int)
    requires
        0 <= k < secrets.len(),
        secrets[k].arn == arn,
    ensures
        position(secrets, arn) is Some,
        is_position(secrets, arn, position(secrets, arn)->0),
        position(secrets, arn)->0 <= k,
    decreases k,
{
    if forall|j: int| 0 <= j < k ==> (#[trigger] secrets[j]).arn != arn {
        assert(is_position(secrets, arn, k));
    } else {
        let j = choose|j: int| 0 <= j < k && (#[trigger] secrets[j]).arn == arn;
        lemma_position_exists(secrets, arn, j);
    }
    let found = choose|i: int| is_position(secrets, arn, i);
    assert(is_position(secrets, arn, found));
    if found > k {
        assert(secrets[k].arn != arn);
    }
}

/// No filter set keeps a secret of a store in which it accepts none.
pub proof fn lemma_kept_none(secrets: Seq<LocalSecretView>, filters: Seq<FilterView>)
    requires
        forall|i: int| 0 <= i < secrets.len() ==> !accepts(filters, #[trigger] secrets[i]),
    ensures
        kept(secrets, filters) == Seq::<SecretDetailsView>::empty(),
    decreases secrets.len(),
{
    if secrets.len() > 0 {
        let earlier = secrets.drop_last();
        assert forall|i: int| 0 <= i < earlier.len() implies !accepts(
            filters,
            #[trigger] earlier[i],
        ) by {
            assert(earlier[i] == secrets[i]);
        }
        lemma_kept_none(earlier, filters);
        assert(!accepts(filters, secrets[secrets.len() - 1]));
    }
}

/// Fetching a password by name from the store in memory leaves the store
/// as it is, and gives the value of the one secret that the name filter
/// and the caller's filters accept; it is not found when they accept
/// none, and ambiguous when they accept several.
pub proof fn lemma_local_get_by_name(
    store: LocalStoreView,
    name: Text,
    filters: Option<Seq<FilterView>>,
)
    ensures
        performed(store, DaoCallView::GetPasswordByName { name, filters }) == (
            store,
            match resolved(details_of_all(kept(store.secrets, name_filters(name, filters)))) {
                Ok(one) => fetched_by_id(store.secrets, one.id),
                Err(err) => Err(err),
            },
        ),
{
    let all = name_filters(name, filters);
    let listing = details_of_all(kept(store.secrets, all));
    assert(Seq::<PasswordDetailsView>::empty() + listing =~= listing);
    let (stage, request) = first_step(DaoCallView::GetPasswordByName { name, filters });
    let (after, response) = answered(store, request);
    assert(after == store);
    let (waiting, step) = next_step(stage, response);
    match resolved(listing) {
        Ok(one) => {
            assert(step == DaoStepView::Call(SmRequestView::GetSecretString { arn: one.id }));
            assert(exchanged(store, stage, request, 2) == exchanged(
                store,
                waiting,
                SmRequestView::GetSecretString { arn: one.id },
                1,
            ));
        },
        Err(err) => {
            assert(step == DaoStepView::Finished(Err(err)));
        },
    }
}

/// Listing the passwords of the store in memory leaves the store as it
/// is, and gives the secrets that the filters accept, oldest first.
pub proof fn lemma_local_list(store: LocalStoreView, filters: Seq<FilterView>)
    ensures
        performed(store, DaoCallView::ListPasswords { filters }) == (
            store,
            Ok::<DaoReplyView, PassDaoErrView>(
                DaoReplyView::Passwords(details_of_all(kept(store.secrets, filters))),
            ),
        ),
{
    let listing = details_of_all(kept(store.secrets, filters));
    assert(Seq::<PasswordDetailsView>::empty() + listing =~= listing);
}

/// The store after the secret at `i` was taken out of it.
pub open spec fn without(store: LocalStoreView, i: int) -> LocalStoreView {
    LocalStoreView {
        secrets: store.secrets.remove(i),
        created: store.created,
        passwords: store.passwords,
    }
}

/// Deleting a password by name from the store in memory takes out the
/// one secret that the name filter and the caller's filters accept, and
/// leaves the store as it is when they accept none or several.
pub proof fn lemma_local_delete_by_name(
    store: LocalStoreView,
    name: Text,
    filters: Option<Seq<FilterView>>,
)
    ensures
        performed(store, DaoCallView::DeletePasswordByName { name, filters }) == (
            match resolved(details_of_all(kept(store.secrets, name_filters(name, filters)))) {
                Ok(one) => match position(store.secrets, one.id) {
                    Some(i) => (
                        without(store, i),
                        Ok::<DaoReplyView, PassDaoErrView>(DaoReplyView::Done),
                    ),
                    None => (store, Err::<DaoReplyView, PassDaoErrView>(PassDaoErrView::NotFound)),
                },
                Err(err) => (store, Err::<DaoReplyView, PassDaoErrView>(err)),
            }
        ),
{
    let all = name_filters(name, filters);
    let listing = details_of_all(kept(store.secrets, all));
    assert(Seq::<PasswordDetailsView>::empty() + listing =~= listing);
    let (stage, request) = first_step(DaoCallView::DeletePasswordByName { name, filters });
    let (after, response) = answered(store, request);
    assert(after == store);
    let (waiting, step) = next_step(stage, response);
    match resolved(listing) {
        Ok(one) => {
            assert(step == DaoStepView::Call(SmRequestView::DeleteSecret { arn: one.id }));
            assert(exchanged(store, stage, request, 2) == exchanged(
                store,
                waiting,
                SmRequestView::DeleteSecret { arn: one.id },
                1,
            ));
        },
        Err(err) => {
            assert(step == DaoStepView::Finished(Err(err)));
        },
    }
}

/// The store after the secret at `i` was given the value `value`.
pub open spec fn with_value(store: LocalStoreView, i: int, value: Text) -> LocalStoreView {
    LocalStoreView {
        secrets: store.secrets.update(
            i,
            LocalSecretView {
                arn: store.secrets[i].arn,
                name: store.secrets[i].name,
                value,
                tags: store.secrets[i].tags,
            },
        ),
        created: store.created,
        passwords: store.passwords,
    }
}

/// Updating a password by name in the store in memory gives the new
/// value to the one secret that the name filter and the caller's filters
/// accept, and leaves the store as it is when they accept none or
/// several.
pub proof fn lemma_local_update_by_name(
    store: LocalStoreView,
    name: Text,
    value: Text,
    filters: Option<Seq<FilterView>>,
)
    ensures
        performed(store, DaoCallView::UpdatePasswordByName { name, value, filters }) == (
            match resolved(details_of_all(kept(store.secrets, name_filters(name, filters)))) {
                Ok(one) => match position(store.secrets, one.id) {
                    Some(i) => (
                        with_value(store, i, value),
                        Ok::<DaoReplyView, PassDaoErrView>(DaoReplyView::Done),
                    ),
                    None => (store, Err::<DaoReplyView, PassDaoErrView>(PassDaoErrView::NotFound)),
                },
                Err(err) => (store, Err::<DaoReplyView, PassDaoErrView>(err)),
            }
        ),
{
    let all = name_filters(name, filters);
    let listing = details_of_all(kept(store.secrets, all));
    assert(Seq::<PasswordDetailsView>::empty() + listing =~= listing);
    let (stage, request) = first_step(DaoCallView::UpdatePasswordByName { name, value, filters });
    let (after, response) = answered(store, request);
    assert(after == store);
    let (waiting, step) = next_step(stage, response);
    match resolved(listing) {
        Ok(one) => {
            assert(step == DaoStepView::Call(
                SmRequestView::PutSecretString { arn: one.id, value },
            ));
            assert(exchanged(store, stage, request, 2) == exchanged(
                store,
                waiting,
                SmRequestView::PutSecretString { arn: one.id, value },
                1,
            ));
        },
        Err(err) => {
            assert(step == DaoStepView::Finished(Err(err)));
        },
    }
}

/// Creating a password in the store in memory adds a secret with the
/// name, the value and the tags of the call under the next identifier,
/// and hands the password back. Nothing is added under a name that is
/// taken, nor when no identifier is at hand.
pub proof fn lemma_local_create(
    store: LocalStoreView,
    name: Text,
    value: Text,
    tags: Option<Seq<TagView>>,
)
    ensures
        performed(store, DaoCallView::CreatePassword { name, value, tags }) == ({
            let arn = local_arn(store.created as nat);
            if has_name(store.secrets, name) {
                (
                    store,
                    Err::<DaoReplyView, PassDaoErrView>(
                        PassDaoErrView::PasswordAlreadyExists(name),
                    ),
                )
            } else if store.created == u64::MAX || position(store.secrets, arn) is Some {
                (store, Err::<DaoReplyView, PassDaoErrView>(PassDaoErrView::BackendUnavailable))
            } else {
                (
                    LocalStoreView {
                        secrets: store.secrets.push(
                            LocalSecretView { arn, name, value, tags: tags_or_none(tags) },
                        ),
                        created: (store.created + 1) as u64,
                        passwords: store.passwords,
                    },
                    Ok::<DaoReplyView, PassDaoErrView>(
                        DaoReplyView::Password(
                            PasswordView { id: arn, name, value },
                        ),
                    ),
                )
            }
        }),
{
}

} // verus!
