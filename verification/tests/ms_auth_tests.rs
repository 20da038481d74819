use vanta::ms_auth::{
    code_challenge_of, generate_pkce_data, generate_state, get_secure_login_data, state_to_bool,
    AuthParams,
};

fn s(text: &str) -> String {
    text.to_string()
}

#[test]
fn textual_state_is_active_only_for_the_exact_word() {
    assert!(state_to_bool("ACTIVE"));
    assert!(!state_to_bool("INACTIVE"));
    assert!(!state_to_bool("active"));
    assert!(!state_to_bool(""));
    assert!(!state_to_bool("something else"));
}

fn params(state: Option<String>) -> AuthParams {
    AuthParams {
        client_id: s("client-123"),
        response_type: s("code"),
        redirect_uri: s("https://example.invalid/redirect"),
        response_mode: s("query"),
        scope: s("XboxLive.signin offline_access"),
        state,
        code_challenge: s("challenge"),
        code_challenge_method: s("S256"),
    }
}

#[test]
fn auth_params_walk_in_their_fixed_order() {
    let p = params(Some(s("st-1")));
    let mut it = p.into_iter();
    let mut pairs: Vec<(String, String)> = Vec::new();
    loop {
        match it.next() {
            Some(pair) => pairs.push(pair),
            None => break,
        }
    }
    let expected: Vec<(String, String)> = vec![
        (s("client_id"), s("client-123")),
        (s("response_type"), s("code")),
        (s("redirect_uri"), s("https://example.invalid/redirect")),
        (s("response_mode"), s("query")),
        (s("scope"), s("XboxLive.signin offline_access")),
        (s("state"), s("st-1")),
        (s("code_challenge"), s("challenge")),
        (s("code_challenge_method"), s("S256")),
    ];
    assert_eq!(pairs, expected);
}

#[test]
fn auth_params_walk_stops_at_a_missing_state() {
    let p = params(None);
    let mut it = p.into_iter();
    for _ in 0..5 {
        assert!(it.next().is_some());
    }
    // Position five is the state: nothing there when none was set.
    assert!(it.next().is_none());
    // The walk itself moves on past the gap.
    assert_eq!(it.next().unwrap().0, "code_challenge");
    assert_eq!(it.next().unwrap().0, "code_challenge_method");
    assert!(it.next().is_none());
    assert!(it.next().is_none());
}

#[test]
fn code_challenge_matches_the_published_example() {
    // The worked S256 example of the PKCE specification.
    let verifier = "dBjftJeZ4CVP-mB92K27uhbUJU1p1r_wW1gFWFOEjXk";
    assert_eq!(code_challenge_of(verifier), "E9Melhoa2OwvFrEMTJguCHaoeK1t8URWbuGJSstw-cM");
}

#[test]
fn pkce_data_is_wide_enough_and_consistent() {
    let (verifier, challenge, method) = generate_pkce_data();
    assert_eq!(verifier.len(), 128);
    assert!(verifier.chars().all(|c| c.is_ascii_alphanumeric()));
    assert_eq!(method, "S256");
    assert_eq!(challenge, code_challenge_of(&verifier));
    assert_ne!(challenge, verifier);
}

#[test]
fn state_tokens_are_32_digits_and_fresh() {
    let a = generate_state();
    let b = generate_state();
    assert_eq!(a.len(), 32);
    assert_eq!(b.len(), 32);
    assert!(a.chars().all(|c| c.is_ascii_hexdigit()));
    assert_ne!(a, b);
}

#[test]
fn secure_login_data_keeps_the_given_state() {
    let out = get_secure_login_data("client-123", "https://example.invalid/redirect", Some(s("st")))
        .unwrap();
    let (url, state, verifier) = out;
    assert_eq!(state.as_deref(), Some("st"));
    assert_eq!(verifier.len(), 128);
    assert!(url.starts_with("https://login.microsoftonline.com/consumers/oauth2/v2.0/authorize?"));
    assert!(url.contains("client_id=client-123"));
    assert!(url.contains("state=st"));
    assert!(url.contains("code_challenge_method=S256"));
}

#[test]
fn authorize_url_carries_exactly_the_eight_parameters() {
    let out = get_secure_login_data("client-123", "https://example.invalid/redirect", Some(s("st")))
        .unwrap();
    let (url, _, verifier) = out;
    let challenge = code_challenge_of(&verifier);
    let expected = format!(
        "https://login.microsoftonline.com/consumers/oauth2/v2.0/authorize\
?client_id=client-123\
&response_type=code\
&redirect_uri=https%3A%2F%2Fexample.invalid%2Fredirect\
&response_mode=query\
&scope=XboxLive.signin+offline_access\
&state=st\
&code_challenge={challenge}\
&code_challenge_method=S256"
    );
    assert_eq!(url, expected);
}

#[test]
fn secure_login_data_invents_a_state_when_none_is_given() {
    let out = get_secure_login_data("c", "https://example.invalid/r", None).unwrap();
    assert_eq!(out.1.unwrap().len(), 32);
}
