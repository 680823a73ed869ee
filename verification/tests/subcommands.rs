use aws_pass::client::sm::default_sm_client::WireSecret;
use aws_pass::client::sm::sm_client::SmRequest;
use aws_pass::subcommands::init::Init;
use aws_pass::subcommands::insert::Insert;
use aws_pass::subcommands::show::Show;

fn init(id: &str) -> Init {
    Init {
        id: id.to_string(),
        aws_access_key_id: "AKIA".to_string(),
        aws_secret_access_key: "secret".to_string(),
    }
}

fn entry(name: Option<&str>) -> WireSecret {
    WireSecret {
        arn: Some("arn".to_string()),
        name: name.map(|n| n.to_string()),
        tags: None,
        description: None,
    }
}

#[test]
fn init_needs_an_id() {
    assert_eq!(init("").check(), Err("aws-pass id must be non-empty".to_string()));
    assert_eq!(init("store").check(), Ok(()));
    assert_eq!(init("").run(false).unwrap_err(), "aws-pass id must be non-empty");
    assert_eq!(init("").run(true).unwrap_err(), "aws-pass id must be non-empty");
}

#[test]
fn init_does_not_overwrite() {
    assert_eq!(
        init("store").run(true).unwrap_err(),
        "aws-pass store already initialized, not overwriting"
    );
}

#[test]
fn init_writes_id_and_credentials() {
    let files = init("store").run(false).unwrap();
    assert_eq!(files.id, "store");
    assert_eq!(files.credentials, "aws_access_key_id=AKIA\naws_secret_access_key=secret\n");
}

#[test]
fn insert_complains_in_order() {
    let unnamed = Insert { name: String::new() };
    assert_eq!(unnamed.named(), Err("name must be non-empty".to_string()));
    assert_eq!(Insert { name: "x".to_string() }.named(), Ok(()));
    assert_eq!(unnamed.run(None).unwrap_err(), "name must be non-empty");
    assert_eq!(unnamed.run(Some("id")).unwrap_err(), "name must be non-empty");
    let named = Insert { name: "x".to_string() };
    assert_eq!(named.run(None).unwrap_err(), "No id file");
    assert_eq!(named.run(Some("")).unwrap_err(), "id must be non-empty");
}

#[test]
fn insert_lists_under_store_id_and_name() {
    let named = Insert { name: "x".to_string() };
    for (contents, id) in [("store", "store"), ("store\nmore", "store\n"), ("\n", "\n")] {
        match named.run(Some(contents)).unwrap() {
            SmRequest::ListSecrets { filters, next_token } => {
                assert_eq!(
                    filters,
                    Some(vec![
                        ("aws-pass-id".to_string(), vec![id.to_string()]),
                        ("aws-pass-name".to_string(), vec!["x".to_string()]),
                    ])
                );
                assert_eq!(next_token, None);
            }
            other => panic!("unexpected request: {:?}", other),
        }
    }
}

#[test]
fn insert_refuses_a_name_that_is_taken() {
    let named = Insert { name: "x".to_string() };
    assert_eq!(named.check(&[]), Ok(()));
    assert_eq!(named.check(&[entry(Some("y")), entry(None), entry(Some("xx"))]), Ok(()));
    assert_eq!(
        named.check(&[entry(Some("y")), entry(Some("x"))]),
        Err("Secret with provided name already exists".to_string())
    );
}

#[test]
fn show_takes_no_arguments() {
    assert_eq!(Show {}, Show {});
}
