use vstd::prelude::*;
use crate::client::sm::sm_client::{
    clone_filters, Filter, FilterView, SecretDetails, SecretDetailsView, SecretStringView,
    SecretsPageView, SmClientErr, SmRequest, SmRequestView, SmResponse, SmResponseView, Tag,
    TagView,
};
use crate::dao::pass_dao::{
    dao_error, DaoCall, DaoCallView, DaoReply, DaoReplyView, PassDaoErr, PassDaoErrView, Password,
    PasswordDetails, PasswordDetailsView, PasswordView,
};
use crate::util::Text;

verus! {

/// What follows a listing once its last page has come.
pub enum Then {
    /// Hand the passwords out.
    Report,
    /// Fetch the one password found.
    Fetch,
    /// Replace the value of the one password found.
    Update { value: String },
    /// Delete the one password found.
    Delete,
}

/// The model of a [`Then`].
pub enum ThenView {
    Report,
    Fetch,
    Update { value: Text },
    Delete,
}

impl DeepView for Then {
    type V = ThenView;

    open spec fn deep_view(&self) -> ThenView {
        match self {
            Then::Report => ThenView::Report,
            Then::Fetch => ThenView::Fetch,
            Then::Update { value } => ThenView::Update { value: value@ },
            Then::Delete => ThenView::Delete,
        }
    }
}

/// Where an operation stands: which answer it waits for, and what it keeps
/// until that answer comes.
pub enum Stage {
    /// A page of a listing is awaited.
    Listing { filters: Vec<Filter>, found: Vec<PasswordDetails>, then: Then },
    /// A random password is awaited.
    Generating { name: String, tags: Option<Vec<Tag>> },
    /// The identifier of a new secret is awaited.
    Creating { name: String, value: String },
    /// The value of a secret is awaited.
    Fetching,
    /// The acknowledgement of a new value is awaited.
    Updating,
    /// The acknowledgement of a deletion is awaited.
    Deleting,
    /// The operation has ended.
    Finished,
}

/// The model of a [`Stage`].
pub enum StageView {
    Listing { filters: Seq<FilterView>, found: Seq<PasswordDetailsView>, then: ThenView },
    Generating { name: Text, tags: Option<Seq<TagView>> },
    Creating { name: Text, value: Text },
    Fetching,
    Updating,
    Deleting,
    Finished,
}

impl DeepView for Stage {
    type V = StageView;

    open spec fn deep_view(&self) -> StageView {
        match self {
            Stage::Listing { filters, found, then } => StageView::Listing {
                filters: filters.deep_view(),
                found: found.deep_view(),
                then: then.deep_view(),
            },
            Stage::Generating { name, tags } => StageView::Generating {
                name: name@,
                tags: tags.deep_view(),
            },
            Stage::Creating { name, value } => StageView::Creating { name: name@, value: value@ },
            Stage::Fetching => StageView::Fetching,
            Stage::Updating => StageView::Updating,
            Stage::Deleting => StageView::Deleting,
            Stage::Finished => StageView::Finished,
        }
    }
}

/// What an operation does next: it asks the secret manager, or it has ended.
#[derive(Debug)]
pub enum DaoStep {
    /// Send this request and come back with the answer.
    Call(SmRequest),
    /// The operation has ended with this outcome.
    Finished(Result<DaoReply, PassDaoErr>),
}

/// The model of a [`DaoStep`].
pub enum DaoStepView {
    Call(SmRequestView),
    Finished(Result<DaoReplyView, PassDaoErrView>),
}

impl DeepView for DaoStep {
    type V = DaoStepView;

    open spec fn deep_view(&self) -> DaoStepView {
        match self {
            DaoStep::Call(request) => DaoStepView::Call(request.deep_view()),
            DaoStep::Finished(Ok(reply)) => DaoStepView::Finished(Ok(reply.deep_view())),
            DaoStep::Finished(Err(err)) => DaoStepView::Finished(Err(err.deep_view())),
        }
    }
}

/// The filter that keeps the secrets called `name`.
pub open spec fn name_filter(name: Text) -> FilterView {
    ("name"@, seq![name])
}

/// The filters of a lookup by name: the name filter first, then the
/// caller's own, each once.
pub open spec fn name_filters(name: Text, extra: Option<Seq<FilterView>>) -> Seq<FilterView> {
    seq![name_filter(name)] + match extra {
        Some(filters) => filters,
        None => Seq::empty(),
    }
}

/// A listed secret as a password: its identifier and its name.
pub open spec fn details_of(secret: SecretDetailsView) -> PasswordDetailsView {
    PasswordDetailsView { id: secret.arn, name: secret.name }
}

/// The listed secrets as passwords, in the same order.
pub open spec fn details_of_all(items: Seq<SecretDetailsView>) -> Seq<PasswordDetailsView> {
    Seq::new(items.len(), |i: int| details_of(items[i]))
}

/// A fetched secret as a password.
pub open spec fn password_of(secret: SecretStringView) -> PasswordView {
    PasswordView { id: secret.arn, name: secret.name, value: secret.value }
}

/// The one password that a lookup by name found: known when exactly one
/// answers to the name, not found when none does, ambiguous otherwise.
pub open spec fn resolved(found: Seq<PasswordDetailsView>) -> Result<
    PasswordDetailsView,
    PassDaoErrView,
> {
    if found.len() == 0 {
        Err(PassDaoErrView::NotFound)
    } else if found.len() == 1 {
        Ok(found[0])
    } else {
        Err(PassDaoErrView::Ambiguous)
    }
}

/// The stage in which an operation ends, with the outcome it ends on.
pub open spec fn ended(outcome: Result<DaoReplyView, PassDaoErrView>) -> (StageView, DaoStepView) {
    (StageView::Finished, DaoStepView::Finished(outcome))
}

/// The first request of an operation, and the stage it then waits in.
pub open spec fn first_step(call: DaoCallView) -> (StageView, SmRequestView) {
    match call {
        DaoCallView::CreatePassword { name, value, tags } => (
            StageView::Creating { name, value },
            SmRequestView::CreateSecretString { name, value, tags },
        ),
        DaoCallView::CreateRandomPassword { name, exclude_chars, length, tags } => (
            StageView::Generating { name, tags },
            SmRequestView::GetRandomPassword { exclude_chars, length },
        ),
        DaoCallView::GetPassword { id } => (
            StageView::Fetching,
            SmRequestView::GetSecretString { arn: id },
        ),
        DaoCallView::GetPasswordByName { name, filters } => first_page(
            name_filters(name, filters),
            ThenView::Fetch,
        ),
        DaoCallView::UpdatePassword { id, value } => (
            StageView::Updating,
            SmRequestView::PutSecretString { arn: id, value },
        ),
        DaoCallView::UpdatePasswordByName { name, value, filters } => first_page(
            name_filters(name, filters),
            ThenView::Update { value },
        ),
        DaoCallView::DeletePassword { id } => (
            StageView::Deleting,
            SmRequestView::DeleteSecret { arn: id },
        ),
        DaoCallView::DeletePasswordByName { name, filters } => first_page(
            name_filters(name, filters),
            ThenView::Delete,
        ),
        DaoCallView::ListPasswords { filters } => first_page(filters, ThenView::Report),
    }
}

/// The start of a listing: the request for its first page carries the
/// filters and no cursor.
pub open spec fn first_page(filters: Seq<FilterView>, then: ThenView) -> (
    StageView,
    SmRequestView,
) {
    (
        StageView::Listing { filters, found: Seq::empty(), then },
        SmRequestView::ListSecrets { filters: Some(filters), next_token: None },
    )
}

/// What follows the last page of a listing that found `found`.
pub open spec fn after_listing(found: Seq<PasswordDetailsView>, then: ThenView) -> (
    StageView,
    DaoStepView,
) {
    match then {
        ThenView::Report => ended(Ok(DaoReplyView::Passwords(found))),
        ThenView::Fetch => match resolved(found) {
            Ok(one) => (
                StageView::Fetching,
                DaoStepView::Call(SmRequestView::GetSecretString { arn: one.id }),
            ),
            Err(err) => ended(Err(err)),
        },
        ThenView::Update { value } => match resolved(found) {
            Ok(one) => (
                StageView::Updating,
                DaoStepView::Call(SmRequestView::PutSecretString { arn: one.id, value }),
            ),
            Err(err) => ended(Err(err)),
        },
        ThenView::Delete => match resolved(found) {
            Ok(one) => (
                StageView::Deleting,
                DaoStepView::Call(SmRequestView::DeleteSecret { arn: one.id }),
            ),
            Err(err) => ended(Err(err)),
        },
    }
}

/// What an operation in `stage` does with `response`: the stage it moves
/// to and the step it takes. A failure ends it with the same failure, a
/// name that is taken being said of the password that was to be created;
/// an answer to another question ends it out of step.
pub open spec fn next_step(stage: StageView, response: SmResponseView) -> (StageView, DaoStepView) {
    match (stage, response) {
        (StageView::Finished, _) => ended(Err(PassDaoErrView::OtherError)),
        (
            StageView::Creating { name, value },
            SmResponseView::Failed(SmClientErr::SecretAlreadyExists),
        ) => ended(Err(PassDaoErrView::PasswordAlreadyExists(name))),
        (_, SmResponseView::Failed(err)) => ended(Err(dao_error(err))),
        (
            StageView::Listing { filters, found, then },
            SmResponseView::SecretsListed((items, next_token)),
        ) => {
            let found = found + details_of_all(items);
            match next_token {
                Some(token) => (
                    StageView::Listing { filters, found, then },
                    DaoStepView::Call(
                        SmRequestView::ListSecrets {
                            filters: Some(filters),
                            next_token: Some(token),
                        },
                    ),
                ),
                None => after_listing(found, then),
            }
        },
        (StageView::Generating { name, tags }, SmResponseView::RandomPassword(value)) => (
            StageView::Creating { name, value },
            DaoStepView::Call(SmRequestView::CreateSecretString { name, value, tags }),
        ),
        (StageView::Creating { name, value }, SmResponseView::SecretCreated(arn)) => ended(
            Ok(DaoReplyView::Password(PasswordView { id: arn, name, value })),
        ),
        (StageView::Fetching, SmResponseView::SecretFetched(secret)) => ended(
            Ok(DaoReplyView::Password(password_of(secret))),
        ),
        (StageView::Updating, SmResponseView::SecretPut) => ended(Ok(DaoReplyView::Done)),
        (StageView::Deleting, SmResponseView::SecretDeleted) => ended(Ok(DaoReplyView::Done)),
        _ => ended(Err(PassDaoErrView::OtherError)),
    }
}

/// One operation on passwords, carried out against the secret manager
/// without performing any I/O itself: it names each request to send and is
/// resumed with each answer, until it ends.
pub struct SmPassDao {
    stage: Stage,
}

impl DeepView for SmPassDao {
    type V = StageView;

    closed spec fn deep_view(&self) -> StageView {
        self.stage.deep_view()
    }
}

impl SmPassDao {
    /// The filters of a lookup by name: the name filter first, then the
    /// caller's own, none dropped and none repeated.
    pub fn name_filters(name: String, filters: Option<Vec<Filter>>) -> (r: Vec<Filter>)
        ensures
            r.deep_view() == name_filters(name@, filters.deep_view()),
    {
        let mut values: Vec<String> = Vec::new();
        values.push(name);
        let mut all: Vec<Filter> = Vec::new();
        all.push(("name".to_string(), values));
        assert(all[0].deep_view().1 =~= seq![name@]);
        match filters {
            Some(extra) => {
                let mut extra = extra;
                all.append(&mut extra);
                assert(all.deep_view() =~= name_filters(name@, filters.deep_view()));
            },
            None => {
                assert(all.deep_view() =~= name_filters(name@, filters.deep_view()));
            },
        }
        all
    }

    /// The one password that a lookup by name found, or why there is none.
    pub fn resolve(found: Vec<PasswordDetails>) -> (r: Result<PasswordDetails, PassDaoErr>)
        ensures
            match r {
                Ok(one) => resolved(found.deep_view()) == Ok::<
                    PasswordDetailsView,
                    PassDaoErrView,
                >(one.deep_view()),
                Err(err) => resolved(found.deep_view()) == Err::<
                    PasswordDetailsView,
                    PassDaoErrView,
                >(err.deep_view()),
            },
    {
        let mut found = found;
        if found.len() > 1 {
            return Err(PassDaoErr::Ambiguous);
        }
        match found.pop() {
            Some(one) => Ok(one),
            None => Err(PassDaoErr::NotFound),
        }
    }

    /// Adds the secrets of a page to the passwords found so far.
    fn gather(found: &mut Vec<PasswordDetails>, items: &Vec<SecretDetails>)
        ensures
            final(found).deep_view() == old(found).deep_view() + details_of_all(items.deep_view()),
    {
        let mut i: usize = 0;
        while i < items.len()
            invariant
                i <= items.len(),
                found.len() == old(found).len() + i,
                forall|j: int| 0 <= j < old(found).len() ==> found[j] == old(found)[j],
                forall|j: int|
                    0 <= j < i ==> found[old(found).len() + j].deep_view() == details_of(
                        items[j].deep_view(),
                    ),
            decreases items.len() - i,
        {
            found.push(PasswordDetails { id: items[i].arn.clone(), name: items[i].name.clone() });
            i += 1;
        }
        assert(found.deep_view() =~= old(found).deep_view() + details_of_all(items.deep_view()));
    }

    /// Starts a listing that goes on as `then` says.
    fn list(filters: Vec<Filter>, then: Then) -> (r: (SmPassDao, SmRequest))
        ensures
            (r.0.deep_view(), r.1.deep_view()) == first_page(filters.deep_view(), then.deep_view()),
    {
        let sent = clone_filters(filters.as_slice());
        let found: Vec<PasswordDetails> = Vec::new();
        assert(found.deep_view() =~= Seq::empty());
        (
            SmPassDao { stage: Stage::Listing { filters, found, then } },
            SmRequest::ListSecrets { filters: Some(sent), next_token: None },
        )
    }

    /// Starts an operation: the first request to send, and the operation
    /// waiting for its answer.
    pub fn start(call: DaoCall) -> (r: (SmPassDao, SmRequest))
        ensures
            (r.0.deep_view(), r.1.deep_view()) == first_step(call.deep_view()),
    {
        match call {
            DaoCall::CreatePassword { name, value, tags } => {
                let stage = Stage::Creating { name: name.clone(), value: value.clone() };
                (SmPassDao { stage }, SmRequest::CreateSecretString { name, value, tags })
            },
            DaoCall::CreateRandomPassword { name, exclude_chars, length, tags } => (
                SmPassDao { stage: Stage::Generating { name, tags } },
                SmRequest::GetRandomPassword { exclude_chars, length },
            ),
            DaoCall::GetPassword { id } => (
                SmPassDao { stage: Stage::Fetching },
                SmRequest::GetSecretString { arn: id },
            ),
            DaoCall::GetPasswordByName { name, filters } => Self::list(
                Self::name_filters(name, filters),
                Then::Fetch,
            ),
            DaoCall::UpdatePassword { id, value } => (
                SmPassDao { stage: Stage::Updating },
                SmRequest::PutSecretString { arn: id, value },
            ),
            DaoCall::UpdatePasswordByName { name, value, filters } => Self::list(
                Self::name_filters(name, filters),
                Then::Update { value },
            ),
            DaoCall::DeletePassword { id } => (
                SmPassDao { stage: Stage::Deleting },
                SmRequest::DeleteSecret { arn: id },
            ),
            DaoCall::DeletePasswordByName { name, filters } => Self::list(
                Self::name_filters(name, filters),
                Then::Delete,
            ),
            DaoCall::ListPasswords { filters } => Self::list(filters, Then::Report),
        }
    }

    /// Ends an operation on `outcome`.
    fn end(outcome: Result<DaoReply, PassDaoErr>) -> (r: (SmPassDao, DaoStep))
        ensures
            (r.0.deep_view(), r.1.deep_view()) == ended(
                match outcome {
                    Ok(reply) => Ok(reply.deep_view()),
                    Err(err) => Err(err.deep_view()),
                },
            ),
    {
        (SmPassDao { stage: Stage::Finished }, DaoStep::Finished(outcome))
    }

    /// Goes on after the last page of a listing.
    fn finish_listing(found: Vec<PasswordDetails>, then: Then) -> (r: (SmPassDao, DaoStep))
        ensures
            (r.0.deep_view(), r.1.deep_view()) == after_listing(
                found.deep_view(),
                then.deep_view(),
            ),
    {
        match then {
            Then::Report => Self::end(Ok(DaoReply::Passwords(found))),
            Then::Fetch => match Self::resolve(found) {
                Ok(one) => (
                    SmPassDao { stage: Stage::Fetching },
                    DaoStep::Call(SmRequest::GetSecretString { arn: one.id }),
                ),
                Err(err) => Self::end(Err(err)),
            },
            Then::Update { value } => match Self::resolve(found) {
                Ok(one) => (
                    SmPassDao { stage: Stage::Updating },
                    DaoStep::Call(SmRequest::PutSecretString { arn: one.id, value }),
                ),
                Err(err) => Self::end(Err(err)),
            },
            Then::Delete => match Self::resolve(found) {
                Ok(one) => (
                    SmPassDao { stage: Stage::Deleting },
                    DaoStep::Call(SmRequest::DeleteSecret { arn: one.id }),
                ),
                Err(err) => Self::end(Err(err)),
            },
        }
    }

    /// Resumes the operation with the answer to the request it named last:
    /// the next request to send, or the outcome it ends on.
    pub fn resume(self, response: SmResponse) -> (r: (SmPassDao, DaoStep))
        ensures
            (r.0.deep_view(), r.1.deep_view()) == next_step(
                self.deep_view(),
                response.deep_view(),
            ),
    {
        match self.stage {
            Stage::Finished => Self::end(Err(PassDaoErr::OtherError)),
            Stage::Listing { filters, found, then } => match response {
                SmResponse::Failed(err) => Self::end(Err(PassDaoErr::from_client(err))),
                SmResponse::SecretsListed(page) => {
                    let (items, next_token) = page;
                    let mut found = found;
                    Self::gather(&mut found, &items);
                    match next_token {
                        Some(token) => {
                            let sent = clone_filters(filters.as_slice());
                            (
                                SmPassDao { stage: Stage::Listing { filters, found, then } },
                                DaoStep::Call(
                                    SmRequest::ListSecrets {
                                        filters: Some(sent),
                                        next_token: Some(token),
                                    },
                                ),
                            )
                        },
                        None => Self::finish_listing(found, then),
                    }
                },
                _ => Self::end(Err(PassDaoErr::OtherError)),
            },
            Stage::Generating { name, tags } => match response {
                SmResponse::Failed(err) => Self::end(Err(PassDaoErr::from_client(err))),
                SmResponse::RandomPassword(value) => {
                    let stage = Stage::Creating { name: name.clone(), value: value.clone() };
                    (
                        SmPassDao { stage },
                        DaoStep::Call(SmRequest::CreateSecretString { name, value, tags }),
                    )
                },
                _ => Self::end(Err(PassDaoErr::OtherError)),
            },
            Stage::Creating { name, value } => match response {
                SmResponse::Failed(SmClientErr::SecretAlreadyExists) => Self::end(
                    Err(PassDaoErr::PasswordAlreadyExists(name)),
                ),
                SmResponse::Failed(err) => Self::end(Err(PassDaoErr::from_client(err))),
                SmResponse::SecretCreated(arn) => Self::end(
                    Ok(DaoReply::Password(Password { id: arn, name, value })),
                ),
                _ => Self::end(Err(PassDaoErr::OtherError)),
            },
            Stage::Fetching => match response {
                SmResponse::Failed(err) => Self::end(Err(PassDaoErr::from_client(err))),
                SmResponse::SecretFetched(secret) => Self::end(
                    Ok(
                        DaoReply::Password(
                            Password { id: secret.arn, name: secret.name, value: secret.value },
                        ),
                    ),
                ),
                _ => Self::end(Err(PassDaoErr::OtherError)),
            },
            Stage::Updating => match response {
                SmResponse::Failed(err) => Self::end(Err(PassDaoErr::from_client(err))),
                SmResponse::SecretPut => Self::end(Ok(DaoReply::Done)),
                _ => Self::end(Err(PassDaoErr::OtherError)),
            },
            Stage::Deleting => match response {
                SmResponse::Failed(err) => Self::end(Err(PassDaoErr::from_client(err))),
                SmResponse::SecretDeleted => Self::end(Ok(DaoReply::Done)),
                _ => Self::end(Err(PassDaoErr::OtherError)),
            },
        }
    }
}

/// The secrets of the pages, one page after another.
pub open spec fn all_items(pages: Seq<SecretsPageView>) -> Seq<SecretDetailsView>
    decreases pages.len(),
{
    if pages.len() == 0 {
        Seq::empty()
    } else {
        all_items(pages.drop_last()) + pages.last().0
    }
}

/// Pages as one listing gives them: at least one, each but the last with
/// the cursor of the next, the last with none.
pub open spec fn chained(pages: Seq<SecretsPageView>) -> bool {
    &&& pages.len() >= 1
    &&& forall|i: int| 0 <= i < pages.len() - 1 ==> (#[trigger] pages[i]).1 is Some
    &&& pages.last().1 is None
}

/// The pages as answers of the secret manager.
pub open spec fn listed(pages: Seq<SecretsPageView>) -> Seq<SmResponseView> {
    Seq::new(pages.len(), |i: int| SmResponseView::SecretsListed(pages[i]))
}

/// The request for a page of a listing.
pub open spec fn page_request(filters: Seq<FilterView>, next_token: Option<Text>) -> DaoStepView {
    DaoStepView::Call(SmRequestView::ListSecrets { filters: Some(filters), next_token })
}

/// An operation resumed with one answer after another: the stage it
/// reaches and the steps it took, one for each answer.
pub open spec fn run(stage: StageView, responses: Seq<SmResponseView>) -> (
    StageView,
    Seq<DaoStepView>,
)
    decreases responses.len(),
{
    if responses.len() == 0 {
        (stage, Seq::empty())
    } else {
        let before = run(stage, responses.drop_last());
        let step = next_step(before.0, responses.last());
        (step.0, before.1.push(step.1))
    }
}

/// Listed secrets become passwords one by one, so two batches become the
/// passwords of the first followed by those of the second.
pub proof fn lemma_details_of_all_add(a: Seq<SecretDetailsView>, b: Seq<SecretDetailsView>)
    ensures
        details_of_all(a + b) == details_of_all(a) + details_of_all(b),
{
    assert(details_of_all(a + b) =~= details_of_all(a) + details_of_all(b));
}

/// While every page that comes carries a cursor, a listing stays a
/// listing: it has gathered the pages so far in order, and it has asked
/// for each next page with the same filters and the cursor just received.
pub proof fn lemma_listing_in_flight(
    filters: Seq<FilterView>,
    then: ThenView,
    pages: Seq<SecretsPageView>,
)
    requires
        forall|i: int| 0 <= i < pages.len() ==> (#[trigger] pages[i]).1 is Some,
    ensures
        ({
            let start = StageView::Listing { filters, found: Seq::empty(), then };
            let (stage, steps) = run(start, listed(pages));
            &&& stage == StageView::Listing {
                filters,
                found: details_of_all(all_items(pages)),
                then,
            }
            &&& steps.len() == pages.len()
            &&& forall|i: int|
                0 <= i < pages.len() ==> #[trigger] steps[i] == page_request(filters, pages[i].1)
        }),
    decreases pages.len(),
{
    let start = StageView::Listing { filters, found: Seq::empty(), then };
    if pages.len() == 0 {
        assert(details_of_all(all_items(pages)) =~= Seq::empty());
    } else {
        let earlier = pages.drop_last();
        lemma_listing_in_flight(filters, then, earlier);
        assert(listed(pages).drop_last() =~= listed(earlier));
        assert(listed(pages).last() == SmResponseView::SecretsListed(pages.last()));
        lemma_details_of_all_add(all_items(earlier), pages.last().0);
        assert(pages[pages.len() - 1].1 is Some);
    }
}

/// A listing that is answered with chained pages asks once for each page,
/// first without a cursor and then with the cursor of the page before,
/// always with its filters, and goes on after the last page with all the
/// passwords of the pages, in the order of the pages.
pub proof fn lemma_listing(filters: Seq<FilterView>, then: ThenView, pages: Seq<SecretsPageView>)
    requires
        chained(pages),
    ensures
        ({
            let start = first_page(filters, then);
            let (stage, steps) = run(start.0, listed(pages));
            let last = after_listing(details_of_all(all_items(pages)), then);
            &&& start.1 == SmRequestView::ListSecrets { filters: Some(filters), next_token: None }
            &&& steps.len() == pages.len()
            &&& forall|i: int|
                0 <= i < pages.len() - 1 ==> #[trigger] steps[i] == page_request(
                    filters,
                    pages[i].1,
                )
            &&& steps.last() == last.1
            &&& stage == last.0
        }),
{
    let earlier = pages.drop_last();
    assert forall|i: int| 0 <= i < earlier.len() implies (#[trigger] earlier[i]).1 is Some by {
        assert(earlier[i] == pages[i]);
    }
    lemma_listing_in_flight(filters, then, earlier);
    assert(listed(pages).drop_last() =~= listed(earlier));
    assert(listed(pages).last() == SmResponseView::SecretsListed(pages.last()));
    lemma_details_of_all_add(all_items(earlier), pages.last().0);
    let before = run(first_page(filters, then).0, listed(earlier));
    let steps = run(first_page(filters, then).0, listed(pages)).1;
    assert forall|i: int| 0 <= i < pages.len() - 1 implies #[trigger] steps[i] == page_request(
        filters,
        pages[i].1,
    ) by {
        assert(steps[i] == before.1[i]);
        assert(earlier[i] == pages[i]);
    }
}

/// Listing all passwords under `filters`, answered with chained pages,
/// sends exactly one request for each page, the first without a cursor and
/// each later one with the cursor of the page before, and returns the
/// passwords of all the pages, in the order of the pages.
pub proof fn lemma_list_all(filters: Seq<FilterView>, pages: Seq<SecretsPageView>)
    requires
        chained(pages),
    ensures
        ({
            let start = first_step(DaoCallView::ListPasswords { filters });
            let (stage, steps) = run(start.0, listed(pages));
            &&& start.1 == SmRequestView::ListSecrets { filters: Some(filters), next_token: None }
            &&& steps.len() == pages.len()
            &&& forall|i: int|
                0 <= i < pages.len() - 1 ==> #[trigger] steps[i] == page_request(
                    filters,
                    pages[i].1,
                )
            &&& steps.last() == DaoStepView::Finished(
                Ok(DaoReplyView::Passwords(details_of_all(all_items(pages)))),
            )
            &&& stage == StageView::Finished
        }),
{
    lemma_listing(filters, ThenView::Report, pages);
}

/// Fetching a password by name lists under the name filter followed by the
/// caller's filters. When the pages hold exactly one secret, the next
/// request fetches the value of that secret; when they hold none, the
/// operation ends as not found; when they hold more, it ends as ambiguous.
pub proof fn lemma_resolve_by_name(
    name: Text,
    extra: Option<Seq<FilterView>>,
    pages: Seq<SecretsPageView>,
)
    requires
        chained(pages),
    ensures
        ({
            let start = first_step(DaoCallView::GetPasswordByName { name, filters: extra });
            let (stage, steps) = run(start.0, listed(pages));
            let items = all_items(pages);
            &&& start.1 == SmRequestView::ListSecrets {
                filters: Some(name_filters(name, extra)),
                next_token: None,
            }
            &&& forall|i: int|
                0 <= i < pages.len() - 1 ==> #[trigger] steps[i] == page_request(
                    name_filters(name, extra),
                    pages[i].1,
                )
            &&& items.len() == 1 ==> steps.last() == DaoStepView::Call(
                SmRequestView::GetSecretString { arn: items[0].arn },
            )
            &&& items.len() == 0 ==> steps.last() == DaoStepView::Finished(
                Err(PassDaoErrView::NotFound),
            )
            &&& items.len() >= 2 ==> steps.last() == DaoStepView::Finished(
                Err(PassDaoErrView::Ambiguous),
            )
        }),
{
    lemma_listing(name_filters(name, extra), ThenView::Fetch, pages);
}

/// The filters of a lookup by name hold the name filter and each of the
/// caller's filters exactly once: the name filter comes first and the
/// caller's follow in their order.
pub proof fn lemma_name_filters_compose(name: Text, extra: Seq<FilterView>)
    ensures
        name_filters(name, Some(extra)).len() == extra.len() + 1,
        name_filters(name, Some(extra))[0] == name_filter(name),
        forall|i: int| 0 <= i < extra.len() ==> name_filters(name, Some(extra))[i + 1] == extra[i],
        name_filters(name, None) == seq![name_filter(name)],
{
    assert(name_filters(name, None) =~= seq![name_filter(name)]);
}

/// Creating a random password asks for the password first and then
/// stores exactly what was drawn: the request that creates the secret
/// carries the drawn password as its value, under the name and the tags of
/// the call, and the password handed back has that value and the
/// identifier that the secret manager gave.
pub proof fn lemma_generate_stores_drawn_password(
    name: Text,
    exclude_chars: Option<Text>,
    length: Option<i64>,
    tags: Option<Seq<TagView>>,
    drawn: Text,
    arn: Text,
)
    ensures
        ({
            let start = first_step(
                DaoCallView::CreateRandomPassword { name, exclude_chars, length, tags },
            );
            let (stage, steps) = run(
                start.0,
                seq![SmResponseView::RandomPassword(drawn), SmResponseView::SecretCreated(arn)],
            );
            &&& start.1 == SmRequestView::GetRandomPassword { exclude_chars, length }
            &&& steps == seq![
                DaoStepView::Call(SmRequestView::CreateSecretString { name, value: drawn, tags }),
                DaoStepView::Finished(
                    Ok(DaoReplyView::Password(PasswordView { id: arn, name, value: drawn })),
                ),
            ]
            &&& stage == StageView::Finished
        }),
{
    let start = first_step(DaoCallView::CreateRandomPassword { name, exclude_chars, length, tags });
    let answers = seq![SmResponseView::RandomPassword(drawn), SmResponseView::SecretCreated(arn)];
    assert(answers.drop_last() =~= seq![SmResponseView::RandomPassword(drawn)]);
    assert(answers.drop_last().drop_last() =~= Seq::empty());
    let none = run(start.0, answers.drop_last().drop_last());
    assert(none.1 =~= Seq::empty());
    let one = run(start.0, answers.drop_last());
    assert(one.1 =~= seq![
        DaoStepView::Call(SmRequestView::CreateSecretString { name, value: drawn, tags }),
    ]);
    let two = run(start.0, answers);
    assert(two.1 =~= seq![
        DaoStepView::Call(SmRequestView::CreateSecretString { name, value: drawn, tags }),
        DaoStepView::Finished(
            Ok(DaoReplyView::Password(PasswordView { id: arn, name, value: drawn })),
        ),
    ]);
}

/// A failure of the secret manager ends an operation at once, whatever it
/// was waiting for, with the same failure: not found, failed
/// authentication, bad configuration and an unavailable service are handed
/// on as they are. An operation that has ended asks for nothing more.
pub proof fn lemma_failure_ends(stage: StageView, err: SmClientErr)
    ensures
        next_step(stage, SmResponseView::Failed(err)).0 == StageView::Finished,
        stage != StageView::Finished && err != SmClientErr::SecretAlreadyExists ==> next_step(
            stage,
            SmResponseView::Failed(err),
        ).1 == DaoStepView::Finished(Err(dao_error(err))),
        forall|response: SmResponseView|
            next_step(StageView::Finished, response).1 is Finished,
{
}

} // verus!
