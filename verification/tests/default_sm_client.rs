use aws_pass::client::sm::default_sm_client::{
    clone_optional, translate_tags, DefaultSmClient, WireSecret, WireSecretValue, WireSecretsPage,
    WireTag,
};
use aws_pass::client::sm::sm_client::{clone_filters, clone_tags, SmClientErr};

fn tag(key: Option<&str>, value: Option<&str>) -> WireTag {
    WireTag { key: key.map(|k| k.to_string()), value: value.map(|v| v.to_string()) }
}

fn wire(arn: Option<&str>, name: Option<&str>, tags: Option<Vec<WireTag>>) -> WireSecret {
    WireSecret {
        arn: arn.map(|s| s.to_string()),
        name: name.map(|s| s.to_string()),
        tags,
        description: Some("about".to_string()),
    }
}

#[test]
fn request_tokens_are_fresh_hyphenated_uuids() {
    let one = DefaultSmClient::client_request_token();
    let two = DefaultSmClient::client_request_token();
    assert_eq!(one.chars().count(), 36);
    assert_eq!(two.chars().count(), 36);
    assert_ne!(one, two);
    for (i, c) in one.chars().enumerate() {
        if [8, 13, 18, 23].contains(&i) {
            assert_eq!(c, '-');
        } else {
            assert!(c.is_ascii_hexdigit());
        }
    }
}

#[test]
fn tags_are_read_in_order() {
    assert_eq!(translate_tags(&None), Ok(vec![]));
    assert_eq!(translate_tags(&Some(vec![])), Ok(vec![]));
    let tags = Some(vec![tag(Some("a"), Some("1")), tag(Some("b"), Some("2"))]);
    assert_eq!(
        translate_tags(&tags),
        Ok(vec![("a".to_string(), "1".to_string()), ("b".to_string(), "2".to_string())])
    );
}

#[test]
fn a_tag_without_key_or_value_makes_the_answer_unreadable() {
    for broken in [tag(None, Some("1")), tag(Some("a"), None), tag(None, None)] {
        let tags = Some(vec![tag(Some("ok"), Some("ok")), broken]);
        assert_eq!(translate_tags(&tags), Err(SmClientErr::BackendUnavailable));
    }
}

#[test]
fn a_description_needs_id_and_name() {
    let tags = Some(vec![tag(Some("a"), Some("1"))]);
    let details = DefaultSmClient::describe_secret(&wire(Some("arn"), Some("n"), tags)).unwrap();
    assert_eq!(details.arn, "arn");
    assert_eq!(details.name, "n");
    assert_eq!(details.tags, vec![("a".to_string(), "1".to_string())]);
    assert_eq!(details.description.as_deref(), Some("about"));
    let bare = DefaultSmClient::describe_secret(&WireSecret {
        arn: Some("arn".to_string()),
        name: Some("n".to_string()),
        tags: None,
        description: None,
    })
    .unwrap();
    assert!(bare.tags.is_empty());
    assert_eq!(bare.description, None);
    for broken in [
        wire(None, Some("n"), None),
        wire(Some("arn"), None, None),
        wire(Some("arn"), Some("n"), Some(vec![tag(None, None)])),
    ] {
        assert!(matches!(
            DefaultSmClient::describe_secret(&broken),
            Err(SmClientErr::BackendUnavailable)
        ));
    }
}

#[test]
fn a_page_keeps_order_and_cursor() {
    let page = WireSecretsPage {
        secret_list: Some(vec![wire(Some("1"), Some("a"), None), wire(Some("2"), Some("b"), None)]),
        next_token: Some("t".to_string()),
    };
    let (items, token) = DefaultSmClient::list_secrets(page).unwrap();
    assert_eq!(items.len(), 2);
    assert_eq!((items[0].arn.as_str(), items[0].name.as_str()), ("1", "a"));
    assert_eq!((items[1].arn.as_str(), items[1].name.as_str()), ("2", "b"));
    assert_eq!(token.as_deref(), Some("t"));
    let empty = WireSecretsPage { secret_list: None, next_token: None };
    let (items, token) = DefaultSmClient::list_secrets(empty).unwrap();
    assert!(items.is_empty());
    assert_eq!(token, None);
}

#[test]
fn one_unreadable_secret_makes_the_page_unreadable() {
    let page = WireSecretsPage {
        secret_list: Some(vec![wire(Some("1"), Some("a"), None), wire(None, Some("b"), None)]),
        next_token: None,
    };
    assert!(matches!(
        DefaultSmClient::list_secrets(page),
        Err(SmClientErr::BackendUnavailable)
    ));
}

#[test]
fn a_secret_value_needs_all_three_parts() {
    let value = |arn: Option<&str>, name: Option<&str>, text: Option<&str>| WireSecretValue {
        arn: arn.map(|s| s.to_string()),
        name: name.map(|s| s.to_string()),
        secret_string: text.map(|s| s.to_string()),
    };
    let read = DefaultSmClient::get_secret_string(value(Some("arn"), Some("n"), Some("v"))).unwrap();
    assert_eq!((read.arn.as_str(), read.name.as_str(), read.value.as_str()), ("arn", "n", "v"));
    for broken in [
        value(None, Some("n"), Some("v")),
        value(Some("arn"), None, Some("v")),
        value(Some("arn"), Some("n"), None),
    ] {
        assert!(matches!(
            DefaultSmClient::get_secret_string(broken),
            Err(SmClientErr::BackendUnavailable)
        ));
    }
}

#[test]
fn created_id_and_random_password_must_be_present() {
    assert_eq!(DefaultSmClient::create_secret_string(Some("arn".to_string())).unwrap(), "arn");
    assert_eq!(
        DefaultSmClient::create_secret_string(None),
        Err(SmClientErr::BackendUnavailable)
    );
    assert_eq!(DefaultSmClient::get_random_password(Some("pw".to_string())).unwrap(), "pw");
    assert_eq!(DefaultSmClient::get_random_password(None), Err(SmClientErr::BackendUnavailable));
}

#[test]
fn copies_hold_the_same_texts() {
    let tags = vec![("a".to_string(), "1".to_string()), ("b".to_string(), "2".to_string())];
    assert_eq!(clone_tags(&tags), tags);
    let filters = vec![
        ("name".to_string(), vec!["x".to_string(), "y".to_string()]),
        ("tag-key".to_string(), vec![]),
    ];
    assert_eq!(clone_filters(&filters), filters);
    assert_eq!(clone_optional(&Some("s".to_string())).as_deref(), Some("s"));
    assert_eq!(clone_optional(&None), None);
}
