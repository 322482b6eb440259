use mastodon_repost::{
    callback_text, finish_complete, instance_base_url, login_reply, AccessToken, CallbackQuery,
    ClientId, ClientSecret, FlowError, LoginState, MastodonInstance, OauthState, RegisteredApp,
    UserId,
};

fn registered() -> RegisteredApp {
    RegisteredApp {
        client_id: ClientId::new("abc".to_string()),
        client_secret: ClientSecret::new("shh".to_string()),
    }
}

fn query(code: &str, state: &str) -> CallbackQuery {
    CallbackQuery { code: code.to_string(), state: state.to_string() }
}

#[test]
fn base_url_prefixes_https() {
    let b = instance_base_url(&MastodonInstance::new("mastodon.social".to_string()));
    assert_eq!(b, "https://mastodon.social");
}

#[test]
fn login_appends_state_and_stores_session() {
    let mut store = LoginState::new();
    let url = store
        .login(
            Ok(registered()),
            MastodonInstance::new("example.org".to_string()),
            UserId::new("42".to_string()),
            "https://me/oauth_callback",
        )
        .expect("registration succeeded");
    let prefix = "https://example.org/oauth/authorize?client_id=abc&redirect_uri=https://me/oauth_callback&scope=write&response_type=code&state=";
    assert!(url.starts_with(prefix));
    let token = &url[prefix.len()..];
    assert_eq!(token.len(), 32);
    assert_eq!(store.len(), 1);
    let session = store.get_remove(OauthState::new(token.to_string())).unwrap();
    assert_eq!(session.user_id.as_str(), "42");
    assert_eq!(session.client_secret.as_str(), "shh");
    assert_eq!(session.mastodon_instance.as_str(), "example.org");
}

#[test]
fn failed_registration_creates_no_session() {
    let mut store = LoginState::new();
    let r = store.login(
        Err(()),
        MastodonInstance::new("example.org".to_string()),
        UserId::new("42".to_string()),
        "https://me/oauth_callback",
    );
    assert!(matches!(r, Err(FlowError::Registration)));
    assert_eq!(store.len(), 0);
    assert_eq!(
        login_reply(&r),
        "We couldn't register ourselves with your Mastodon instance."
    );
}

#[test]
fn login_reply_carries_the_url() {
    let r: Result<String, FlowError> = Ok("https://x/auth&state=t".to_string());
    assert_eq!(
        login_reply(&r),
        "We successfully registered ourselves with your instance! Use this URL to grant us permission: https://x/auth&state=t"
    );
}

#[test]
fn unknown_token_fails_and_stores_nothing() {
    let mut store = LoginState::new();
    store
        .login(Ok(registered()), MastodonInstance::new("example.org".to_string()), UserId::new("1".to_string()), "https://me/oauth_callback")
        .unwrap();
    let r = store.begin_complete(query("code", "never-issued"), "https://me/oauth_callback");
    assert!(matches!(r, Err(FlowError::UnknownState)));
    assert_eq!(store.len(), 1);
}

#[test]
fn complete_succeeds_at_most_once() {
    let mut store = LoginState::new();
    let url = store
        .login(Ok(registered()), MastodonInstance::new("example.org".to_string()), UserId::new("7".to_string()), "https://me/oauth_callback")
        .unwrap();
    let token = url.rsplit("&state=").next().unwrap().to_string();
    let first = store
        .begin_complete(query("the-code", &token), "https://me/oauth_callback")
        .expect("first completion finds the session");
    assert_eq!(first.base, "https://example.org");
    assert_eq!(first.code, "the-code");
    assert_eq!(first.redirect_uri, "https://me/oauth_callback");
    assert_eq!(first.client_id.as_str(), "abc");
    assert_eq!(first.user_id.as_str(), "7");
    let second = store.begin_complete(query("the-code", &token), "https://me/oauth_callback");
    assert!(matches!(second, Err(FlowError::UnknownState)));
}

#[test]
fn exchange_outcomes() {
    let mut store = LoginState::new();
    let url = store
        .login(Ok(registered()), MastodonInstance::new("example.org".to_string()), UserId::new("7".to_string()), "https://me/oauth_callback")
        .unwrap();
    let token = url.rsplit("&state=").next().unwrap().to_string();
    let req = store.begin_complete(query("c", &token), "https://me/cb").unwrap();
    let (user, record) = req
        .finish_exchange(Ok(AccessToken::new("tok".to_string())))
        .expect("granted");
    assert_eq!(user.as_str(), "7");
    assert_eq!(record.access_token.as_str(), "tok");
    assert_eq!(record.instance.as_str(), "example.org");

    let url = store
        .login(Ok(registered()), MastodonInstance::new("example.org".to_string()), UserId::new("8".to_string()), "https://me/oauth_callback")
        .unwrap();
    let token = url.rsplit("&state=").next().unwrap().to_string();
    let req = store.begin_complete(query("c", &token), "https://me/cb").unwrap();
    assert!(matches!(req.finish_exchange(Err(())), Err(FlowError::Exchange)));
}

#[test]
fn persistence_outcomes_and_callback_text() {
    assert!(finish_complete(Ok(())).is_ok());
    let failed = finish_complete(Err(()));
    assert!(matches!(failed, Err(FlowError::Persistence)));
    assert_eq!(
        callback_text(&Ok(())),
        "you are now logged in and can use the repost function!"
    );
    assert_eq!(callback_text(&failed), "couldn't complete the login, please try again :(");
    assert_eq!(
        callback_text(&Err(FlowError::UnknownState)),
        "couldn't complete the login, please try again :("
    );
}
