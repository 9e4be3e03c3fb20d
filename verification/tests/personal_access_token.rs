use codex_session::authapi::{
    authapi_base_url, read_non_empty_env_var, CODEX_AUTHAPI_BASE_URL_ENV_VAR,
    LEGACY_CODEX_AGENT_IDENTITY_AUTHAPI_BASE_URL_ENV_VAR, PROD_AUTHAPI_BASE_URL,
};
use codex_session::compression::Compression;
use codex_session::personal_access_token::{
    classify_codex_access_token, hydrate_personal_access_token, print_auth, CodexAccessToken,
    HttpStatus, Hydration, HydrationReply, PersonalAccessTokenAuth, PersonalAccessTokenMetadata,
    WHOAMI_PATH,
};

fn metadata(email: Option<&str>) -> PersonalAccessTokenMetadata {
    PersonalAccessTokenMetadata {
        email: email.map(str::to_string),
        chatgpt_user_id: "user-123".to_string(),
        chatgpt_account_id: "account-123".to_string(),
        chatgpt_plan_type: "enterprise".to_string(),
        chatgpt_account_is_fedramp: true,
    }
}

fn status(code: u16, display: &str) -> HydrationReply {
    HydrationReply::Responded(Ok(HttpStatus { code, display: display.to_string() }))
}

fn hydrated(access_token: &str, email: Option<&str>) -> PersonalAccessTokenAuth {
    let hydration = hydrate_personal_access_token("http://localhost", access_token)
        .step(status(200, "200 OK"))
        .step(HydrationReply::Decoded(Ok(metadata(email))));
    match hydration {
        Hydration::Finished { outcome: Ok(auth) } => auth,
        _ => panic!("personal access token hydration should succeed"),
    }
}

fn failure(hydration: Hydration) -> String {
    match hydration {
        Hydration::Finished { outcome: Err(message) } => message,
        _ => panic!("hydration should fail"),
    }
}

#[test]
fn access_token_classifier_treats_at_prefix_as_personal_access_token() {
    assert!(matches!(
        classify_codex_access_token("at-example"),
        CodexAccessToken::PersonalAccessToken("at-example")
    ));
    assert!(matches!(
        classify_codex_access_token("header.payload.signature"),
        CodexAccessToken::AgentIdentityJwt("header.payload.signature")
    ));
}

#[test]
fn access_token_classifier_looks_at_the_whole_prefix() {
    for token in ["", "at", "at_x", "AT-x", "x-at-", "\u{e4}t-"] {
        assert_eq!(
            classify_codex_access_token(token),
            CodexAccessToken::AgentIdentityJwt(token)
        );
    }
    assert_eq!(
        classify_codex_access_token("at-"),
        CodexAccessToken::PersonalAccessToken("at-")
    );
}

#[test]
fn hydrate_sends_bearer_token_and_preserves_nullable_metadata() {
    let hydration = hydrate_personal_access_token("http://127.0.0.1:8080", "at-example");
    match &hydration {
        Hydration::Request { endpoint, access_token } => {
            assert_eq!(endpoint, "http://127.0.0.1:8080/v1/user-auth-credential/whoami");
            assert_eq!(access_token, "at-example");
        }
        _ => panic!("hydration begins with the request"),
    }
    let auth = match hydration
        .step(status(200, "200 OK"))
        .step(HydrationReply::Decoded(Ok(metadata(/*email*/ None))))
    {
        Hydration::Finished { outcome: Ok(auth) } => auth,
        _ => panic!("personal access token hydration should succeed"),
    };
    assert_eq!(auth.access_token(), "at-example");
    assert_eq!(auth.email(), None);
    assert_eq!(auth.chatgpt_user_id(), "user-123");
    assert_eq!(auth.account_id(), "account-123");
    assert_eq!(auth.raw_plan_type(), "enterprise");
    assert!(auth.is_fedramp_account());
    assert!(auth == hydrated("at-example", None));
    assert!(auth.clone() == auth);
}

#[test]
fn email_is_kept() {
    assert_eq!(hydrated("at-example", Some("user@example.com")).email(), Some("user@example.com"));
}

#[test]
fn hydration_reports_what_failed() {
    let start = || hydrate_personal_access_token("http://localhost", "at-example");
    assert_eq!(
        failure(start().step(HydrationReply::Responded(Err("no route".to_string())))),
        "failed to request personal access token metadata: no route"
    );
    assert_eq!(
        failure(start().step(status(401, "401 Unauthorized"))),
        "personal access token metadata request failed with status 401 Unauthorized"
    );
    for code in [100, 199, 300, 304, 500] {
        assert_eq!(
            failure(start().step(status(code, "text"))),
            "personal access token metadata request failed with status text"
        );
    }
    for code in [200, 204, 299] {
        assert!(matches!(
            start().step(status(code, "text")),
            Hydration::Decode { access_token } if access_token == "at-example"
        ));
    }
    assert_eq!(
        failure(
            start()
                .step(status(200, "200 OK"))
                .step(HydrationReply::Decoded(Err("missing field".to_string())))
        ),
        "failed to decode personal access token metadata: missing field"
    );
}

#[test]
fn a_failed_request_is_final() {
    let failed = hydrate_personal_access_token("http://localhost", "at-example")
        .step(status(500, "500 Internal Server Error"))
        .step(HydrationReply::Decoded(Ok(metadata(None))));
    assert_eq!(
        failure(failed),
        "personal access token metadata request failed with status 500 Internal Server Error"
    );
}

#[test]
fn replies_out_of_turn_change_nothing() {
    let hydration = hydrate_personal_access_token("http://localhost", "at-example")
        .step(HydrationReply::Decoded(Ok(metadata(None))));
    assert!(matches!(hydration, Hydration::Request { .. }));
}

#[test]
fn endpoint_ignores_slashes_after_the_base_url() {
    for base in ["https://x/api", "https://x/api/", "https://x/api///"] {
        assert!(matches!(
            hydrate_personal_access_token(base, "at-t"),
            Hydration::Request { endpoint, .. }
                if endpoint == format!("https://x/api{WHOAMI_PATH}")
        ));
    }
}

#[test]
fn load_asks_the_service_that_the_environment_names() {
    let endpoint = |current: Option<&str>, legacy: Option<&str>| match PersonalAccessTokenAuth::load(
        "at-t",
        current.map(str::to_string),
        legacy.map(str::to_string),
    ) {
        Hydration::Request { endpoint, access_token } => {
            assert_eq!(access_token, "at-t");
            endpoint
        }
        _ => panic!("loading begins with the request"),
    };
    assert_eq!(
        endpoint(None, None),
        "https://auth.openai.com/api/accounts/v1/user-auth-credential/whoami"
    );
    assert_eq!(
        endpoint(Some(" http://a/ "), Some("http://b")),
        "http://a/v1/user-auth-credential/whoami"
    );
    assert_eq!(
        endpoint(Some(" / "), Some("http://b")),
        "http://b/v1/user-auth-credential/whoami"
    );
}

#[test]
fn debug_string_leaves_the_token_out() {
    let auth = hydrated("at-secret", Some("a\"b@example.com"));
    let printed = auth.debug_string();
    assert!(!printed.contains("at-secret"));
    assert_eq!(
        printed,
        format!(
            "PersonalAccessTokenAuth {{ access_token: \"<redacted>\", metadata: {:?} }}",
            metadata(Some("a\"b@example.com"))
        )
    );
    assert_eq!(
        printed,
        hydrated("at-other", Some("a\"b@example.com")).debug_string()
    );
    assert_eq!(
        hydrated("at-secret", None).debug_string(),
        format!(
            "PersonalAccessTokenAuth {{ access_token: \"<redacted>\", metadata: {:?} }}",
            metadata(None)
        )
    );
}

#[test]
fn printed_strings_are_put_together() {
    assert_eq!(
        print_auth(Some("<e>"), "<u>", "<a>", "<p>", true),
        "PersonalAccessTokenAuth { access_token: \"<redacted>\", metadata: PersonalAccessTokenMetadata { email: Some(<e>), chatgpt_user_id: <u>, chatgpt_account_id: <a>, chatgpt_plan_type: <p>, chatgpt_account_is_fedramp: true } }"
    );
    assert_eq!(
        print_auth(None, "", "", "", false),
        "PersonalAccessTokenAuth { access_token: \"<redacted>\", metadata: PersonalAccessTokenMetadata { email: None, chatgpt_user_id: , chatgpt_account_id: , chatgpt_plan_type: , chatgpt_account_is_fedramp: false } }"
    );
}

#[test]
fn base_urls_of_the_environment() {
    let read = |value: &str| read_non_empty_env_var(Some(value.to_string()));
    assert_eq!(read_non_empty_env_var(None), None);
    assert_eq!(read(""), None);
    assert_eq!(read(" \t\n"), None);
    assert_eq!(read(" // "), None);
    assert_eq!(read(" https://x/api// "), Some("https://x/api".to_string()));
    assert_eq!(read("\u{3000}https://x\u{a0}"), Some("https://x".to_string()));
    assert_eq!(read("https://x /"), Some("https://x ".to_string()));
    for value in ["", " ", " a/ ", "/a/", "a b//", "\u{2028}/x/ /", "///"] {
        let expected = value.trim().trim_end_matches('/').to_string();
        assert_eq!(read(value), Some(expected).filter(|base_url| !base_url.is_empty()));
    }
}

#[test]
fn base_url_falls_back() {
    let some = |value: &str| Some(value.to_string());
    assert_eq!(authapi_base_url(some("http://a/"), some("http://b/")), "http://a");
    assert_eq!(authapi_base_url(some("  "), some("http://b/")), "http://b");
    assert_eq!(authapi_base_url(None, some("/")), "https://auth.openai.com/api/accounts");
    assert_eq!(authapi_base_url(None, None), PROD_AUTHAPI_BASE_URL);
    assert_eq!(CODEX_AUTHAPI_BASE_URL_ENV_VAR, "CODEX_AUTHAPI_BASE_URL");
    assert_eq!(
        LEGACY_CODEX_AGENT_IDENTITY_AUTHAPI_BASE_URL_ENV_VAR,
        "CODEX_AGENT_IDENTITY_AUTHAPI_BASE_URL"
    );
}

#[test]
fn bodies_are_not_compressed_by_default() {
    assert_eq!(Compression::default(), Compression::Uncompressed);
    assert_ne!(Compression::default(), Compression::Zstd);
}
