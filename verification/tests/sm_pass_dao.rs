use aws_pass::client::sm::sm_client::{
    Filter, SecretDetails, SecretString, SmClientErr, SmRequest, SmResponse,
};
use aws_pass::dao::pass_dao::{DaoCall, DaoReply, PassDaoErr, PasswordDetails};
use aws_pass::dao::sm_pass_dao::{DaoStep, SmPassDao};

fn secret(arn: &str, name: &str) -> SecretDetails {
    SecretDetails { arn: arn.to_string(), name: name.to_string(), tags: vec![], description: None }
}

fn found(id: &str, name: &str) -> PasswordDetails {
    PasswordDetails { id: id.to_string(), name: name.to_string() }
}

fn filter(key: &str, values: &[&str]) -> Filter {
    (key.to_string(), values.iter().map(|v| v.to_string()).collect())
}

fn page(items: Vec<SecretDetails>, token: Option<&str>) -> SmResponse {
    SmResponse::SecretsListed((items, token.map(|t| t.to_string())))
}

/// Runs an operation against scripted answers; gives every request sent
/// and the outcome.
fn drive(
    call: DaoCall,
    answers: Vec<SmResponse>,
) -> (Vec<SmRequest>, Result<DaoReply, PassDaoErr>) {
    let (mut dao, first) = SmPassDao::start(call);
    let mut sent = vec![first];
    for answer in answers {
        let (next, step) = dao.resume(answer);
        dao = next;
        match step {
            DaoStep::Call(request) => sent.push(request),
            DaoStep::Finished(outcome) => return (sent, outcome),
        }
    }
    panic!("the operation did not end");
}

fn list_request(request: &SmRequest) -> (Option<Vec<Filter>>, Option<String>) {
    match request {
        SmRequest::ListSecrets { filters, next_token } => (filters.clone(), next_token.clone()),
        other => panic!("not a listing: {:?}", other),
    }
}

#[test]
fn list_all_concatenates_pages_and_chains_tokens() {
    let filters = vec![filter("tag-key", &["aws-pass"])];
    let (sent, outcome) = drive(
        DaoCall::ListPasswords { filters: filters.clone() },
        vec![
            page(vec![secret("a1", "one"), secret("a2", "two")], Some("t1")),
            page(vec![], Some("t2")),
            page(vec![secret("a3", "three")], None),
        ],
    );
    assert_eq!(sent.len(), 3);
    assert_eq!(list_request(&sent[0]), (Some(filters.clone()), None));
    assert_eq!(list_request(&sent[1]), (Some(filters.clone()), Some("t1".to_string())));
    assert_eq!(list_request(&sent[2]), (Some(filters.clone()), Some("t2".to_string())));
    match outcome {
        Ok(DaoReply::Passwords(passwords)) => {
            let listed: Vec<(String, String)> =
                passwords.into_iter().map(|p| (p.id, p.name)).collect();
            assert_eq!(
                listed,
                vec![
                    ("a1".to_string(), "one".to_string()),
                    ("a2".to_string(), "two".to_string()),
                    ("a3".to_string(), "three".to_string()),
                ]
            );
        }
        other => panic!("unexpected outcome: {:?}", other),
    }
}

#[test]
fn list_all_with_single_terminal_page_sends_one_request() {
    let (sent, outcome) =
        drive(DaoCall::ListPasswords { filters: vec![] }, vec![page(vec![secret("a", "n")], None)]);
    assert_eq!(sent.len(), 1);
    assert_eq!(list_request(&sent[0]), (Some(vec![]), None));
    assert!(matches!(outcome, Ok(DaoReply::Passwords(p)) if p.len() == 1));
}

#[test]
fn list_all_with_empty_terminal_page_is_empty() {
    let (_, outcome) = drive(DaoCall::ListPasswords { filters: vec![] }, vec![page(vec![], None)]);
    assert!(matches!(outcome, Ok(DaoReply::Passwords(p)) if p.is_empty()));
}

#[test]
fn resolve_with_no_match_is_not_found() {
    assert!(matches!(SmPassDao::resolve(vec![]), Err(PassDaoErr::NotFound)));
}

#[test]
fn resolve_with_one_match_returns_it() {
    let one = SmPassDao::resolve(vec![found("arn:1", "x")]).unwrap();
    assert_eq!(one.id, "arn:1");
    assert_eq!(one.name, "x");
}

#[test]
fn resolve_with_two_matches_is_ambiguous() {
    let both = vec![found("arn:1", "x"), found("arn:2", "x")];
    assert!(matches!(SmPassDao::resolve(both), Err(PassDaoErr::Ambiguous)));
}

#[test]
fn get_by_name_with_one_match_fetches_that_id() {
    let (sent, outcome) = drive(
        DaoCall::GetPasswordByName { name: "x".to_string(), filters: None },
        vec![
            page(vec![secret("arn:7", "x")], None),
            SmResponse::SecretFetched(SecretString {
                arn: "arn:7".to_string(),
                name: "x".to_string(),
                value: "v".to_string(),
            }),
        ],
    );
    assert_eq!(sent.len(), 2);
    assert_eq!(list_request(&sent[0]), (Some(vec![filter("name", &["x"])]), None));
    assert!(matches!(&sent[1], SmRequest::GetSecretString { arn } if arn == "arn:7"));
    match outcome {
        Ok(DaoReply::Password(password)) => {
            assert_eq!(password.id, "arn:7");
            assert_eq!(password.name, "x");
            assert_eq!(password.value, "v");
        }
        other => panic!("unexpected outcome: {:?}", other),
    }
}

#[test]
fn get_by_name_with_no_match_is_not_found() {
    let (sent, outcome) = drive(
        DaoCall::GetPasswordByName { name: "x".to_string(), filters: None },
        vec![page(vec![], None)],
    );
    assert_eq!(sent.len(), 1);
    assert!(matches!(outcome, Err(PassDaoErr::NotFound)));
}

#[test]
fn get_by_name_with_two_matches_is_ambiguous() {
    let (sent, outcome) = drive(
        DaoCall::GetPasswordByName { name: "x".to_string(), filters: None },
        vec![page(vec![secret("arn:1", "x")], Some("t")), page(vec![secret("arn:2", "x")], None)],
    );
    assert_eq!(sent.len(), 2);
    assert!(matches!(outcome, Err(PassDaoErr::Ambiguous)));
}

#[test]
fn name_filter_composes_with_extra_filters() {
    let extra = vec![filter("tag-key", &["owner"])];
    let all = SmPassDao::name_filters("x".to_string(), Some(extra));
    assert_eq!(all, vec![filter("name", &["x"]), filter("tag-key", &["owner"])]);
    let alone = SmPassDao::name_filters("x".to_string(), None);
    assert_eq!(alone, vec![filter("name", &["x"])]);
}

#[test]
fn resolve_by_name_lists_under_both_filters() {
    let (dao, first) = SmPassDao::start(DaoCall::GetPasswordByName {
        name: "x".to_string(),
        filters: Some(vec![filter("tag-key", &["owner"])]),
    });
    let expected = vec![filter("name", &["x"]), filter("tag-key", &["owner"])];
    assert_eq!(list_request(&first), (Some(expected.clone()), None));
    let (_, step) = dao.resume(page(vec![], Some("next")));
    match step {
        DaoStep::Call(request) => {
            assert_eq!(list_request(&request), (Some(expected), Some("next".to_string())))
        }
        other => panic!("unexpected step: {:?}", other),
    }
}

#[test]
fn update_by_name_puts_on_the_resolved_id() {
    let (sent, outcome) = drive(
        DaoCall::UpdatePasswordByName {
            name: "x".to_string(),
            value: "new".to_string(),
            filters: None,
        },
        vec![page(vec![secret("arn:9", "x")], None), SmResponse::SecretPut],
    );
    assert!(matches!(&sent[1], SmRequest::PutSecretString { arn, value }
        if arn == "arn:9" && value == "new"));
    assert!(matches!(outcome, Ok(DaoReply::Done)));
}

#[test]
fn delete_by_name_deletes_the_resolved_id() {
    let (sent, outcome) = drive(
        DaoCall::DeletePasswordByName { name: "x".to_string(), filters: None },
        vec![page(vec![secret("arn:9", "x")], None), SmResponse::SecretDeleted],
    );
    assert!(matches!(&sent[1], SmRequest::DeleteSecret { arn } if arn == "arn:9"));
    assert!(matches!(outcome, Ok(DaoReply::Done)));
}

#[test]
fn delete_by_name_propagates_not_found_from_the_point_operation() {
    let (_, outcome) = drive(
        DaoCall::DeletePasswordByName { name: "x".to_string(), filters: None },
        vec![
            page(vec![secret("arn:9", "x")], None),
            SmResponse::Failed(SmClientErr::SecretNotFound),
        ],
    );
    assert!(matches!(outcome, Err(PassDaoErr::NotFound)));
}

#[test]
fn point_operations_send_one_request() {
    let (sent, outcome) = drive(
        DaoCall::GetPassword { id: "arn:1".to_string() },
        vec![SmResponse::SecretFetched(SecretString {
            arn: "arn:1".to_string(),
            name: "n".to_string(),
            value: "v".to_string(),
        })],
    );
    assert_eq!(sent.len(), 1);
    assert!(matches!(&sent[0], SmRequest::GetSecretString { arn } if arn == "arn:1"));
    assert!(matches!(outcome, Ok(DaoReply::Password(p)) if p.value == "v"));

    let (sent, outcome) = drive(
        DaoCall::UpdatePassword { id: "arn:1".to_string(), value: "w".to_string() },
        vec![SmResponse::SecretPut],
    );
    assert!(matches!(&sent[0], SmRequest::PutSecretString { arn, value }
        if arn == "arn:1" && value == "w"));
    assert!(matches!(outcome, Ok(DaoReply::Done)));

    let (sent, outcome) =
        drive(DaoCall::DeletePassword { id: "arn:1".to_string() }, vec![SmResponse::SecretDeleted]);
    assert!(matches!(&sent[0], SmRequest::DeleteSecret { arn } if arn == "arn:1"));
    assert!(matches!(outcome, Ok(DaoReply::Done)));
}

#[test]
fn create_password_returns_the_new_id() {
    let tags = Some(vec![("aws-pass".to_string(), "true".to_string())]);
    let (sent, outcome) = drive(
        DaoCall::CreatePassword {
            name: "x".to_string(),
            value: "v".to_string(),
            tags: tags.clone(),
        },
        vec![SmResponse::SecretCreated("arn:new".to_string())],
    );
    assert!(matches!(&sent[0], SmRequest::CreateSecretString { name, value, tags: t }
        if name == "x" && value == "v" && *t == tags));
    match outcome {
        Ok(DaoReply::Password(password)) => {
            assert_eq!(password.id, "arn:new");
            assert_eq!(password.name, "x");
            assert_eq!(password.value, "v");
        }
        other => panic!("unexpected outcome: {:?}", other),
    }
}

#[test]
fn create_under_a_taken_name_says_which_password_exists() {
    let (_, outcome) = drive(
        DaoCall::CreatePassword { name: "x".to_string(), value: "v".to_string(), tags: None },
        vec![SmResponse::Failed(SmClientErr::SecretAlreadyExists)],
    );
    assert!(matches!(outcome, Err(PassDaoErr::PasswordAlreadyExists(name)) if name == "x"));
    let (_, outcome) = drive(
        DaoCall::CreateRandomPassword {
            name: "y".to_string(),
            exclude_chars: None,
            length: None,
            tags: None,
        },
        vec![
            SmResponse::RandomPassword("drawn".to_string()),
            SmResponse::Failed(SmClientErr::SecretAlreadyExists),
        ],
    );
    assert!(matches!(outcome, Err(PassDaoErr::PasswordAlreadyExists(name)) if name == "y"));
}

#[test]
fn create_random_password_stores_the_drawn_value() {
    let (sent, outcome) = drive(
        DaoCall::CreateRandomPassword {
            name: "x".to_string(),
            exclude_chars: Some("0O1l".to_string()),
            length: Some(20),
            tags: None,
        },
        vec![
            SmResponse::RandomPassword("abcdefghijABCDEFGHIJ".to_string()),
            SmResponse::SecretCreated("arn:new".to_string()),
        ],
    );
    assert!(matches!(&sent[0], SmRequest::GetRandomPassword { exclude_chars, length }
        if exclude_chars.as_deref() == Some("0O1l") && *length == Some(20)));
    assert!(matches!(&sent[1], SmRequest::CreateSecretString { name, value, tags }
        if name == "x" && value == "abcdefghijABCDEFGHIJ" && tags.is_none()));
    assert!(matches!(outcome, Ok(DaoReply::Password(p)) if p.value == "abcdefghijABCDEFGHIJ"));
}

#[test]
fn failures_propagate_unchanged_in_kind() {
    let kinds = [
        (SmClientErr::SecretNotFound, "NotFound"),
        (SmClientErr::SecretAlreadyExists, "OtherError"),
        (SmClientErr::AuthFailure, "AuthFailure"),
        (SmClientErr::Configuration, "Configuration"),
        (SmClientErr::BackendUnavailable, "BackendUnavailable"),
    ];
    for (err, expected) in kinds {
        let (_, outcome) =
            drive(DaoCall::ListPasswords { filters: vec![] }, vec![SmResponse::Failed(err)]);
        assert_eq!(format!("{:?}", outcome.unwrap_err()), expected);
        assert_eq!(format!("{:?}", PassDaoErr::from_client(err)), expected);
    }
}

#[test]
fn an_answer_out_of_step_ends_the_operation() {
    let (_, outcome) =
        drive(DaoCall::ListPasswords { filters: vec![] }, vec![SmResponse::SecretPut]);
    assert!(matches!(outcome, Err(PassDaoErr::OtherError)));
    let (dao, _) = SmPassDao::start(DaoCall::DeletePassword { id: "a".to_string() });
    let (dao, step) = dao.resume(SmResponse::SecretDeleted);
    assert!(matches!(step, DaoStep::Finished(Ok(DaoReply::Done))));
    let (_, step) = dao.resume(SmResponse::SecretDeleted);
    assert!(matches!(step, DaoStep::Finished(Err(PassDaoErr::OtherError))));
}
