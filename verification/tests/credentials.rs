use batch_publisher::config::OAuth;
use batch_publisher::credentials::oauth_credentials_json;
use batch_publisher::credentials::oauth_credentials_url;
use batch_publisher::credentials::resolve_credential;
use batch_publisher::credentials::Credential;
use batch_publisher::errors::PublishError;
use batch_publisher::json::json_quote;

fn sample_oauth() -> OAuth {
    OAuth {
        client_id: String::from("id1"),
        client_secret: String::from("sec"),
        client_email: String::from("mail@example.com"),
        issuer_url: String::from("https://issuer.example.com"),
        audience: String::from("aud1"),
    }
}

#[test]
fn oauth_wins_over_token() {
    let token = Some(String::from("tok123"));
    let oauth = Some(sample_oauth());
    let r = resolve_credential(&token, &oauth, false).unwrap();
    match r {
        Credential::OAuth2ClientCredentials { issuer_url, credentials_url, audience, scope } => {
            assert_eq!(issuer_url, "https://issuer.example.com");
            assert_eq!(audience, "aud1");
            assert_eq!(scope, None);
            assert_eq!(
                credentials_url,
                "data:application/json;,{\"client_id\":\"id1\",\"client_secret\":\"sec\",\
                 \"client_email\":\"mail@example.com\",\
                 \"issuer_url\":\"https://issuer.example.com\",\"audience\":\"aud1\"}"
            );
        }
        other => panic!("expected OAuth2ClientCredentials, got {:?}", other),
    }
}

#[test]
fn oauth_wins_without_token_too() {
    let r = resolve_credential(&None, &Some(sample_oauth()), true).unwrap();
    assert!(matches!(r, Credential::OAuth2ClientCredentials { .. }));
}

#[test]
fn token_only_gives_static_token() {
    let token = Some(String::from("tok123"));
    let r = resolve_credential(&token, &None, false).unwrap();
    match r {
        Credential::StaticToken { scheme, token } => {
            assert_eq!(scheme, "token");
            assert_eq!(token, "tok123");
        }
        other => panic!("expected StaticToken, got {:?}", other),
    }
    let strict = resolve_credential(&token, &None, true).unwrap();
    assert!(matches!(strict, Credential::StaticToken { .. }));
}

#[test]
fn neither_strict_is_configuration_error() {
    let r = resolve_credential(&None, &None, true);
    assert_eq!(r, Err(PublishError::ConfigurationError));
}

#[test]
fn neither_permissive_proceeds_unauthenticated() {
    let r = resolve_credential(&None, &None, false).unwrap();
    assert_eq!(r, Credential::NoAuth);
}

#[test]
fn credentials_json_escapes_values() {
    let o = OAuth {
        client_id: String::from("a\"b"),
        client_secret: String::from("back\\slash"),
        client_email: String::from("line\nbreak"),
        issuer_url: String::from("tab\there"),
        audience: String::from("ctl\u{1}end"),
    };
    assert_eq!(
        oauth_credentials_json(&o),
        "{\"client_id\":\"a\\\"b\",\"client_secret\":\"back\\\\slash\",\
         \"client_email\":\"line\\nbreak\",\"issuer_url\":\"tab\\there\",\
         \"audience\":\"ctl\\u0001end\"}"
    );
}

#[test]
fn credentials_url_prefixes_data_url() {
    let o = sample_oauth();
    let url = oauth_credentials_url(&o);
    assert!(url.starts_with("data:application/json;,{"));
    assert_eq!(url, format!("data:application/json;,{}", oauth_credentials_json(&o)));
}

#[test]
fn json_quote_matches_reference_encoder() {
    // The quoting rules must agree with a stock JSON encoder, escape for
    // escape, on every class of character the rules treat specially.
    let cases: Vec<String> = vec![
        String::from("plain ascii"),
        String::from("quote \" backslash \\"),
        String::from("\u{8}\t\n\u{c}\r"),
        String::from("\u{0}\u{1}\u{1f}"),
        String::from("unicode \u{e9}\u{4e2d}\u{1f600}"),
        String::from(""),
    ];
    for s in cases {
        let expected = serde_json::to_string(&serde_json::Value::String(s.clone())).unwrap();
        assert_eq!(json_quote(&s), expected, "mismatch on {:?}", s);
    }
}
