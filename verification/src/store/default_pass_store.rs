use vstd::prelude::*;
use vstd::string::*;
use crate::client::sm::sm_client::{Filter, FilterView, Tag, TagView};
use crate::dao::pass_dao::{
    DaoCall, DaoCallView, DaoReply, DaoReplyView, PassDaoErr, PassDaoErrView, Password,
    PasswordDetailsView, PasswordView,
};
use crate::dao::local_pass_dao::{
    accepts, begins_with, filter_accepts, has_name, has_tag_key, has_tag_value, is_position,
    kept, lemma_kept_none, lemma_local_delete_by_name, lemma_local_get_by_name,
    lemma_position_exists, listed_details, local_arn, performed, position, value_accepts,
    without, LocalSecretView, LocalStoreView,
};
use crate::dao::sm_pass_dao::{details_of_all, name_filter, name_filters, resolved};
use crate::util::{
    concatenated, empty_answer, join, joined, prompt_non_empty_str, trim, trimmed, trimmed_end,
    write_lines, Text,
};

verus! {

/// The file of the store directory that holds the long-lived credentials.
pub const CREDENTIALS_FILENAME: &'static str = ".credentials";

/// The file of the store directory that holds the serial number of the MFA
/// device.
pub const TOKEN_SERIAL_FILENAME: &'static str = ".token-serial";

/// What `init` tells the operator before it asks for the credentials.
pub const INIT_NOTICE: &'static str =
    "Please provide AWS credentials for a user with an associated policy with MFA-protected SecretsManager permissions";

/// What `insert` shows when it asks for the password.
pub const PASSWORD_PROMPT: &'static str = "Enter password:";

/// The names under which `init` asks for the three details of a store.
pub const ACCESS_KEY_ID_LABEL: &'static str = "AWS Access Key Id";

pub const SECRET_ACCESS_KEY_LABEL: &'static str = "AWS Secret Access Key";

pub const TOKEN_SERIAL_LABEL: &'static str = "MFA Token Serial Number";

/// The tag that marks a secret as one of the store's own.
pub open spec fn store_tag() -> TagView {
    ("aws-pass"@, "true"@)
}

/// The tags that the store puts on every secret it creates.
pub open spec fn store_tags() -> Seq<TagView> {
    seq![store_tag()]
}

/// The filters that keep the store's own secrets: those tagged with the
/// key of the store's tag and with its value.
pub open spec fn store_filters() -> Seq<FilterView> {
    seq![("tag-key"@, seq!["aws-pass"@]), ("tag-value"@, seq!["true"@])]
}

/// The filters of `list`: the store's own, then the name filter for the
/// prefix if one is given.
pub open spec fn list_filters(prefix: Option<Text>) -> Seq<FilterView> {
    store_filters() + match prefix {
        Some(prefix) => seq![name_filter(prefix)],
        None => Seq::empty(),
    }
}

/// The names of the passwords, in order.
pub open spec fn names_of(passwords: Seq<PasswordDetailsView>) -> Seq<Text> {
    Seq::new(passwords.len(), |i: int| passwords[i].name)
}

/// What the operator typed when a store was set up.
#[derive(Debug)]
pub struct StoreDetails {
    pub access_key_id: String,
    pub secret_access_key: String,
    pub token_serial: String,
}

/// The model of a [`StoreDetails`].
pub struct StoreDetailsView {
    pub access_key_id: Text,
    pub secret_access_key: Text,
    pub token_serial: Text,
}

impl DeepView for StoreDetails {
    type V = StoreDetailsView;

    open spec fn deep_view(&self) -> StoreDetailsView {
        StoreDetailsView {
            access_key_id: self.access_key_id@,
            secret_access_key: self.secret_access_key@,
            token_serial: self.token_serial@,
        }
    }
}

/// The contents of the two files of a store directory.
#[derive(Debug)]
pub struct StoreFiles {
    pub credentials: String,
    pub token_serial: String,
}

/// What to do about the store directory before a store is set up.
#[derive(Debug)]
pub enum StoreDirAction {
    /// Give up, with this complaint.
    Refuse(String),
    /// Create the directory, after this notice.
    Create(String),
    /// Use the directory as it is.
    Keep,
}

/// What the store directory is like.
#[derive(Debug, Clone, Copy, PartialEq, Eq, Structural)]
pub struct StoreDirState {
    /// Something exists under its name.
    pub exists: bool,
    /// It is a directory.
    pub is_dir: bool,
    /// It is a file.
    pub is_file: bool,
    /// It is a directory with something in it.
    pub has_entries: bool,
}

/// The model of a [`StoreDirAction`].
pub enum StoreDirActionView {
    Refuse(Text),
    Create(Text),
    Keep,
}

impl DeepView for StoreDirAction {
    type V = StoreDirActionView;

    open spec fn deep_view(&self) -> StoreDirActionView {
        match self {
            StoreDirAction::Refuse(complaint) => StoreDirActionView::Refuse(complaint@),
            StoreDirAction::Create(notice) => StoreDirActionView::Create(notice@),
            StoreDirAction::Keep => StoreDirActionView::Keep,
        }
    }
}

/// What to do about a store directory called `dir` in state `state`: a
/// directory with something in it is not overwritten, a file is no
/// directory, what does not exist is created, an empty directory is kept.
pub open spec fn store_dir_action(dir: Text, state: StoreDirState) -> StoreDirActionView {
    if state.exists && state.is_dir && state.has_entries {
        StoreDirActionView::Refuse("Store dir "@ + dir + " not empty, not overwriting"@)
    } else if state.exists && state.is_file {
        StoreDirActionView::Refuse("Store dir "@ + dir + " not a directory"@)
    } else if !state.exists {
        StoreDirActionView::Create("Creating store dir at "@ + dir)
    } else {
        StoreDirActionView::Keep
    }
}

/// The contents of the credentials file for these details.
pub open spec fn credentials_file(details: StoreDetailsView) -> Text {
    "[default]\n"@ + ("aws_access_key_id="@ + details.access_key_id + "\n"@) + (
    "aws_secret_access_key="@ + details.secret_access_key + "\n"@)
}

/// The details of a store from the three answers of the operator, each
/// without the white space at its end; the complaint about the first
/// answer that is empty, if one is.
pub open spec fn store_details(access_key_id: Text, secret_access_key: Text, token_serial: Text)
    -> Result<StoreDetailsView, Text> {
    if trimmed_end(access_key_id).len() == 0 {
        Err(empty_answer(ACCESS_KEY_ID_LABEL@))
    } else if trimmed_end(secret_access_key).len() == 0 {
        Err(empty_answer(SECRET_ACCESS_KEY_LABEL@))
    } else if trimmed_end(token_serial).len() == 0 {
        Err(empty_answer(TOKEN_SERIAL_LABEL@))
    } else {
        Ok(
            StoreDetailsView {
                access_key_id: trimmed_end(access_key_id),
                secret_access_key: trimmed_end(secret_access_key),
                token_serial: trimmed_end(token_serial),
            },
        )
    }
}

/// The text that `list` prints for a reply: the names of the passwords
/// listed, one on each line.
pub open spec fn list_output(reply: DaoReplyView) -> Result<Text, PassDaoErrView> {
    match reply {
        DaoReplyView::Passwords(passwords) => Ok(joined(names_of(passwords), "\n"@)),
        _ => Err(PassDaoErrView::OtherError),
    }
}

/// The text that `show` and `generate` print for a reply: the value of
/// the password.
pub open spec fn value_output(reply: DaoReplyView) -> Result<Text, PassDaoErrView> {
    match reply {
        DaoReplyView::Password(password) => Ok(password.value),
        _ => Err(PassDaoErrView::OtherError),
    }
}

/// The password that `edit` is to change, from the reply that fetched it.
pub open spec fn password_output(reply: DaoReplyView) -> Result<PasswordView, PassDaoErrView> {
    match reply {
        DaoReplyView::Password(password) => Ok(password),
        _ => Err(PassDaoErrView::OtherError),
    }
}

/// The password store: which operation on passwords each command of the
/// operator stands for, and what it prints. Every operation is confined
/// to the secrets that carry the store's tag, and every secret created is
/// given that tag.
pub struct DefaultPassStore {
    store_dir: String,
}

impl DefaultPassStore {
    /// The name of the store directory.
    pub closed spec fn dir(&self) -> Text {
        self.store_dir@
    }

    /// The store kept in the directory `store_dir`.
    pub fn new(store_dir: String) -> (r: DefaultPassStore)
        ensures
            r.dir() == store_dir@,
    {
        DefaultPassStore { store_dir }
    }

    /// The tags of a secret that the store creates.
    pub fn tags() -> (r: Vec<Tag>)
        ensures
            r.deep_view() == store_tags(),
    {
        let mut tags: Vec<Tag> = Vec::new();
        tags.push(("aws-pass".to_string(), "true".to_string()));
        assert(tags.deep_view() =~= store_tags());
        tags
    }

    /// The filters that keep the store's own secrets.
    pub fn filters() -> (r: Vec<Filter>)
        ensures
            r.deep_view() == store_filters(),
    {
        let mut keys: Vec<String> = Vec::new();
        keys.push("aws-pass".to_string());
        let mut values: Vec<String> = Vec::new();
        values.push("true".to_string());
        let mut filters: Vec<Filter> = Vec::new();
        filters.push(("tag-key".to_string(), keys));
        filters.push(("tag-value".to_string(), values));
        assert(filters[0].deep_view().1 =~= seq!["aws-pass"@]);
        assert(filters[1].deep_view().1 =~= seq!["true"@]);
        assert(filters.deep_view() =~= store_filters());
        filters
    }

    /// What to do about the store directory before the store is set up.
    pub fn ensure_empty_store_dir(&self, state: StoreDirState) -> (r: StoreDirAction)
        ensures
            r.deep_view() == store_dir_action(self.dir(), state),
    {
        if state.exists && state.is_dir && state.has_entries {
            StoreDirAction::Refuse(
                "Store dir ".to_string().concat(self.store_dir.as_str()).concat(
                    " not empty, not overwriting",
                ),
            )
        } else if state.exists && state.is_file {
            StoreDirAction::Refuse(
                "Store dir ".to_string().concat(self.store_dir.as_str()).concat(" not a directory"),
            )
        } else if !state.exists {
            StoreDirAction::Create(
                "Creating store dir at ".to_string().concat(self.store_dir.as_str()),
            )
        } else {
            StoreDirAction::Keep
        }
    }

    /// The details of the store from the operator's answers to the three
    /// prompts, in the order access key id, secret access key, serial
    /// number of the MFA device.
    pub fn get_store_details(access_key_id: &str, secret_access_key: &str, token_serial: &str) -> (r:
        Result<StoreDetails, String>)
        ensures
            match r {
                Ok(details) => store_details(
                    access_key_id@,
                    secret_access_key@,
                    token_serial@,
                ) == Ok::<StoreDetailsView, Text>(details.deep_view()),
                Err(complaint) => store_details(
                    access_key_id@,
                    secret_access_key@,
                    token_serial@,
                ) == Err::<StoreDetailsView, Text>(complaint@),
            },
    {
        let access_key_id = match prompt_non_empty_str(ACCESS_KEY_ID_LABEL, access_key_id) {
            Ok(line) => line,
            Err(complaint) => {
                return Err(complaint);
            },
        };
        let secret_access_key = match prompt_non_empty_str(
            SECRET_ACCESS_KEY_LABEL,
            secret_access_key,
        ) {
            Ok(line) => line,
            Err(complaint) => {
                return Err(complaint);
            },
        };
        let token_serial = match prompt_non_empty_str(TOKEN_SERIAL_LABEL, token_serial) {
            Ok(line) => line,
            Err(complaint) => {
                return Err(complaint);
            },
        };
        Ok(StoreDetails { access_key_id, secret_access_key, token_serial })
    }

    /// The contents of the two files that keep the details of the store:
    /// the credentials file as a profile called `default`, and the serial
    /// file with the serial number alone.
    pub fn write_store_details(details: &StoreDetails) -> (r: StoreFiles)
        ensures
            r.credentials@ == credentials_file(details.deep_view()),
            r.token_serial@ == details.token_serial@,
    {
        let mut lines: Vec<String> = Vec::new();
        lines.push("[default]\n".to_string());
        lines.push(
            "aws_access_key_id=".to_string().concat(details.access_key_id.as_str()).concat("\n"),
        );
        lines.push(
            "aws_secret_access_key=".to_string().concat(details.secret_access_key.as_str()).concat(
                "\n",
            ),
        );
        let credentials = write_lines(lines.as_slice());
        let mut serial: Vec<String> = Vec::new();
        serial.push(details.token_serial.clone());
        let token_serial = write_lines(serial.as_slice());
        proof {
            let l = lines.deep_view();
            assert(l.drop_last().drop_last().drop_last() =~= Seq::<Text>::empty());
            assert(concatenated(l.drop_last().drop_last().drop_last()) =~= Seq::<char>::empty());
            assert(concatenated(l.drop_last().drop_last()) =~= l[0]);
            assert(concatenated(l.drop_last()) =~= l[0] + l[1]);
            assert(concatenated(l) =~= l[0] + l[1] + l[2]);
            let s = serial.deep_view();
            assert(concatenated(s.drop_last()) =~= Seq::<char>::empty());
            assert(concatenated(s) =~= s[0]);
        }
        StoreFiles { credentials, token_serial }
    }

    /// The operation that fetches the store's password called `name`.
    pub fn get_password_by_name(name: &str) -> (r: DaoCall)
        ensures
            r.deep_view() == (DaoCallView::GetPasswordByName {
                name: name@,
                filters: Some(store_filters()),
            }),
    {
        DaoCall::GetPasswordByName { name: name.to_string(), filters: Some(Self::filters()) }
    }

    /// `list`: the operation that lists the store's passwords, those whose
    /// name begins with `prefix` if one is given.
    pub fn list(prefix: Option<&str>) -> (r: DaoCall)
        ensures
            r.deep_view() == (DaoCallView::ListPasswords {
                filters: list_filters(prefix.deep_view()),
            }),
    {
        let mut filters = Self::filters();
        match prefix {
            Some(prefix) => {
                let mut values: Vec<String> = Vec::new();
                values.push(prefix.to_string());
                filters.push(("name".to_string(), values));
                assert(filters[2].deep_view().1 =~= seq![prefix@]);
                assert(filters.deep_view() =~= list_filters(Some(prefix@)));
            },
            None => {
                assert(filters.deep_view() =~= list_filters(None));
            },
        }
        DaoCall::ListPasswords { filters }
    }

    /// What `list` prints once the passwords are listed.
    pub fn listed(reply: DaoReply) -> (r: Result<String, PassDaoErr>)
        ensures
            match r {
                Ok(text) => list_output(reply.deep_view()) == Ok::<Text, PassDaoErrView>(text@),
                Err(err) => list_output(reply.deep_view()) == Err::<Text, PassDaoErrView>(
                    err.deep_view(),
                ),
            },
    {
        match reply {
            DaoReply::Passwords(passwords) => {
                let mut names: Vec<String> = Vec::new();
                let mut i: usize = 0;
                while i < passwords.len()
                    invariant
                        i <= passwords.len(),
                        names.len() == i,
                        forall|j: int| 0 <= j < i ==> names[j]@ == passwords[j].name@,
                    decreases passwords.len() - i,
                {
                    names.push(passwords[i].name.clone());
                    i += 1;
                }
                assert(names.deep_view() =~= names_of(passwords.deep_view()));
                Ok(join(names.as_slice(), "\n"))
            },
            _ => Err(PassDaoErr::OtherError),
        }
    }

    /// `show`: the operation that fetches the password to print.
    pub fn show(name: &str) -> (r: DaoCall)
        ensures
            r.deep_view() == (DaoCallView::GetPasswordByName {
                name: name@,
                filters: Some(store_filters()),
            }),
    {
        Self::get_password_by_name(name)
    }

    /// What `show` and `generate` print once the password has come: its
    /// value.
    pub fn shown(reply: DaoReply) -> (r: Result<String, PassDaoErr>)
        ensures
            match r {
                Ok(text) => value_output(reply.deep_view()) == Ok::<Text, PassDaoErrView>(text@),
                Err(err) => value_output(reply.deep_view()) == Err::<Text, PassDaoErrView>(
                    err.deep_view(),
                ),
            },
    {
        match reply {
            DaoReply::Password(password) => Ok(password.value),
            _ => Err(PassDaoErr::OtherError),
        }
    }

    /// `insert`: the operation that stores `value` under `name`, tagged as
    /// the store's own.
    pub fn insert(name: &str, value: &str) -> (r: DaoCall)
        ensures
            r.deep_view() == (DaoCallView::CreatePassword {
                name: name@,
                value: value@,
                tags: Some(store_tags()),
            }),
    {
        DaoCall::CreatePassword {
            name: name.to_string(),
            value: value.to_string(),
            tags: Some(Self::tags()),
        }
    }

    /// `edit`: the operation that fetches the password to change.
    pub fn edit(name: &str) -> (r: DaoCall)
        ensures
            r.deep_view() == (DaoCallView::GetPasswordByName {
                name: name@,
                filters: Some(store_filters()),
            }),
    {
        Self::get_password_by_name(name)
    }

    /// The password that `edit` fetched, whose value the operator is to
    /// change.
    pub fn fetched(reply: DaoReply) -> (r: Result<Password, PassDaoErr>)
        ensures
            match r {
                Ok(password) => password_output(reply.deep_view()) == Ok::<
                    PasswordView,
                    PassDaoErrView,
                >(password.deep_view()),
                Err(err) => password_output(reply.deep_view()) == Err::<
                    PasswordView,
                    PassDaoErrView,
                >(err.deep_view()),
            },
    {
        match reply {
            DaoReply::Password(password) => Ok(password),
            _ => Err(PassDaoErr::OtherError),
        }
    }

    /// The operation with which `edit` writes back `text`, what the
    /// operator made of the value of `password`: the password is given
    /// the text without the white space at either end.
    pub fn edited(password: &Password, text: &str) -> (r: DaoCall)
        ensures
            r.deep_view() == (DaoCallView::UpdatePassword {
                id: password.id@,
                value: trimmed(text@),
            }),
    {
        DaoCall::UpdatePassword { id: password.id.clone(), value: trim(text) }
    }

    /// `generate`: the operation that draws a random password, without
    /// the characters of `exclude_chars` and of `length` characters where
    /// these are given, and stores it under `name`, tagged as the store's
    /// own.
    pub fn generate(name: &str, exclude_chars: Option<&str>, length: Option<i64>) -> (r: DaoCall)
        ensures
            r.deep_view() == (DaoCallView::CreateRandomPassword {
                name: name@,
                exclude_chars: exclude_chars.deep_view(),
                length,
                tags: Some(store_tags()),
            }),
    {
        DaoCall::CreateRandomPassword {
            name: name.to_string(),
            exclude_chars: match exclude_chars {
                Some(chars) => Some(chars.to_string()),
                None => None,
            },
            length,
            tags: Some(Self::tags()),
        }
    }

    /// `remove`: the operation that deletes the store's password called
    /// `name`.
    pub fn remove(name: &str) -> (r: DaoCall)
        ensures
            r.deep_view() == (DaoCallView::DeletePasswordByName {
                name: name@,
                filters: Some(store_filters()),
            }),
    {
        DaoCall::DeletePasswordByName { name: name.to_string(), filters: Some(Self::filters()) }
    }
}

/// The operation that `insert` stands for.
pub open spec fn insert_call(name: Text, value: Text) -> DaoCallView {
    DaoCallView::CreatePassword { name, value, tags: Some(store_tags()) }
}

/// The operation that `show` stands for.
pub open spec fn show_call(name: Text) -> DaoCallView {
    DaoCallView::GetPasswordByName { name, filters: Some(store_filters()) }
}

/// The operation that `remove` stands for.
pub open spec fn remove_call(name: Text) -> DaoCallView {
    DaoCallView::DeletePasswordByName { name, filters: Some(store_filters()) }
}

/// Whether the store in memory can take one more secret, called `name`:
/// the name is not taken, and the next identifier is at hand.
pub open spec fn has_room(store: LocalStoreView, name: Text) -> bool {
    &&& !has_name(store.secrets, name)
    &&& store.created < u64::MAX
    &&& position(store.secrets, local_arn(store.created as nat)) is None
}

/// Whether the store in memory keeps no secret of the password store
/// whose name begins with `name`.
pub open spec fn is_free(store: LocalStoreView, name: Text) -> bool {
    forall|i: int|
        0 <= i < store.secrets.len() ==> !accepts(
            name_filters(name, Some(store_filters())),
            #[trigger] store.secrets[i],
        )
}

/// A secret that carries the store's tag and is called `name` is one that
/// a lookup of `name` in the password store accepts.
pub proof fn lemma_own_secret_is_accepted(secret: LocalSecretView, name: Text)
    requires
        secret.name == name,
        secret.tags == store_tags(),
    ensures
        accepts(name_filters(name, Some(store_filters())), secret),
{
    reveal_strlit("name");
    reveal_strlit("tag-key");
    reveal_strlit("tag-value");
    let filters = name_filters(name, Some(store_filters()));
    assert(filters.len() == 3);
    assert(filters[0] == name_filter(name));
    assert(filters[1] == ("tag-key"@, seq!["aws-pass"@]));
    assert(filters[2] == ("tag-value"@, seq!["true"@]));
    assert("tag-key"@.len() != "name"@.len());
    assert("tag-value"@.len() != "name"@.len());
    assert("tag-value"@.len() != "tag-key"@.len());
    assert(begins_with(secret.name, name));
    assert(secret.tags[0] == store_tag());
    assert(has_tag_key(secret.tags, "aws-pass"@));
    assert(has_tag_value(secret.tags, "true"@));
    assert(value_accepts(filters[0].0, filters[0].1[0], secret));
    assert(value_accepts(filters[1].0, filters[1].1[0], secret));
    assert(value_accepts(filters[2].0, filters[2].1[0], secret));
    assert(filter_accepts(filters[0], secret));
    assert(filter_accepts(filters[1], secret));
    assert(filter_accepts(filters[2], secret));
}

/// Against the store in memory, a password that was inserted is shown
/// with the value it was inserted with, and is not found any more once
/// it has been removed: `insert` of a name and a value, then `show` of
/// the name, gives the value; `remove` of the name succeeds and leaves
/// the secrets that were there before the insertion; `show` of the name
/// is then not found. This holds of a store that has room for a secret
/// of that name and keeps no secret of the password store whose name
/// begins with the name.
pub proof fn lemma_insert_show_remove(store: LocalStoreView, name: Text, value: Text)
    requires
        has_room(store, name),
        is_free(store, name),
    ensures
        ({
            let inserted = performed(store, insert_call(name, value));
            let shown = performed(inserted.0, show_call(name));
            let removed = performed(inserted.0, remove_call(name));
            let gone = performed(removed.0, show_call(name));
            let password = PasswordView { id: local_arn(store.created as nat), name, value };
            &&& inserted.1 == Ok::<DaoReplyView, PassDaoErrView>(DaoReplyView::Password(password))
            &&& shown.0 == inserted.0
            &&& shown.1 == Ok::<DaoReplyView, PassDaoErrView>(DaoReplyView::Password(password))
            &&& value_output(shown.1->Ok_0) == Ok::<Text, PassDaoErrView>(value)
            &&& removed.1 == Ok::<DaoReplyView, PassDaoErrView>(DaoReplyView::Done)
            &&& removed.0.secrets == store.secrets
            &&& gone.0 == removed.0
            &&& gone.1 == Err::<DaoReplyView, PassDaoErrView>(PassDaoErrView::NotFound)
        }),
{
    let filters = name_filters(name, Some(store_filters()));
    let arn = local_arn(store.created as nat);
    let secret = LocalSecretView { arn, name, value, tags: store_tags() };
    let inserted = performed(store, insert_call(name, value));
    let after = inserted.0;
    let n = store.secrets.len() as int;
    assert(after.secrets == store.secrets.push(secret));
    assert(inserted.1 is Ok);

    // The new secret is the only one that a lookup of the name accepts.
    lemma_kept_none(store.secrets, filters);
    lemma_own_secret_is_accepted(secret, name);
    assert(after.secrets.drop_last() =~= store.secrets);
    assert(after.secrets.last() == secret);
    let listing = kept(after.secrets, filters);
    assert(listing =~= seq![listed_details(secret)]);
    assert(details_of_all(listing).len() == 1);
    assert(resolved(details_of_all(listing)) is Ok);
    assert(resolved(details_of_all(listing))->Ok_0.id == arn);

    // It is also the oldest secret with its identifier.
    assert forall|j: int| 0 <= j < n implies (#[trigger] after.secrets[j]).arn != arn by {
        if store.secrets[j].arn == arn {
            lemma_position_exists(store.secrets, arn, j);
        }
    }
    assert(is_position(after.secrets, arn, n));
    assert forall|k: int| is_position(after.secrets, arn, k) implies k == n by {
        if k < n {
            assert(after.secrets[k].arn != arn);
        }
    }
    assert(position(after.secrets, arn) == Some(n));

    lemma_local_get_by_name(after, name, Some(store_filters()));
    lemma_local_delete_by_name(after, name, Some(store_filters()));
    let removed = performed(after, remove_call(name));
    assert(removed.0 == without(after, n));
    assert(removed.0.secrets =~= store.secrets);

    lemma_kept_none(removed.0.secrets, filters);
    lemma_local_get_by_name(removed.0, name, Some(store_filters()));
    assert(details_of_all(kept(removed.0.secrets, filters)).len() == 0);
}

/// Against the store in memory, `insert` under a name that a secret has
/// already changes nothing and says that the password exists.
pub proof fn lemma_insert_of_taken_name(store: LocalStoreView, name: Text, value: Text)
    requires
        has_name(store.secrets, name),
    ensures
        performed(store, insert_call(name, value)) == (
            store,
            Err::<DaoReplyView, PassDaoErrView>(PassDaoErrView::PasswordAlreadyExists(name)),
        ),
{
}

} // verus!
