use tamanduauth::commands::login::password_authenticate_user::{
    issue_session_token, password_authenticate_user, signed_session_token, PasswordAuthenticateUserAction,
    PasswordAuthenticateUserError, PasswordAuthenticateUserEvent, PasswordAuthenticateUserStep,
    SESSION_TOKEN_VALIDITY_SECS,
};
use tamanduauth::commands::ServiceFailure;

fn is_compact_jwt(token: &str) -> bool {
    token.split('.').count() == 3
        && token.split('.').all(|part| {
            !part.is_empty() && part.chars().all(|c| c.is_ascii_alphanumeric() || c == '-' || c == '_')
        })
}

fn started() -> PasswordAuthenticateUserStep {
    let (step, action) = password_authenticate_user("11201720000", "segredo");
    match action {
        PasswordAuthenticateUserAction::Login { ra, password } => {
            assert_eq!(ra, "11201720000");
            assert_eq!(password, "segredo");
        }
        _ => panic!("expected a login"),
    }
    step
}

fn finish(action: PasswordAuthenticateUserAction) -> Result<String, PasswordAuthenticateUserError> {
    match action {
        PasswordAuthenticateUserAction::Finish(r) => r,
        _ => panic!("expected the end of the flow"),
    }
}

#[test]
fn accepted_password_gets_a_token() {
    let (step, action) = started().step(PasswordAuthenticateUserEvent::LoginChecked(Ok(true)));
    assert!(matches!(step, PasswordAuthenticateUserStep::Finished));
    let token = finish(action).expect("a token");
    assert!(is_compact_jwt(&token), "{}", token);
}

#[test]
fn refused_password_is_incorrect() {
    let (_, action) = started().step(PasswordAuthenticateUserEvent::LoginChecked(Ok(false)));
    assert_eq!(finish(action), Err(PasswordAuthenticateUserError::IncorrectPassword));
}

#[test]
fn failed_login_is_unknown_error() {
    let (_, action) = started().step(PasswordAuthenticateUserEvent::LoginChecked(Err(ServiceFailure)));
    assert_eq!(finish(action), Err(PasswordAuthenticateUserError::UnknownError));
}

fn base64url_decode(text: &str) -> Vec<u8> {
    let value = |c: char| -> u32 {
        match c {
            'A'..='Z' => c as u32 - 'A' as u32,
            'a'..='z' => c as u32 - 'a' as u32 + 26,
            '0'..='9' => c as u32 - '0' as u32 + 52,
            '-' => 62,
            '_' => 63,
            _ => panic!("not URL-safe base64: {}", c),
        }
    };
    let mut bits: u32 = 0;
    let mut count = 0;
    let mut out = Vec::new();
    for c in text.chars() {
        bits = (bits << 6) | value(c);
        count += 6;
        if count >= 8 {
            count -= 8;
            out.push(((bits >> count) & 0xff) as u8);
        }
    }
    out
}

fn claim(json: &str, name: &str) -> u64 {
    let key = format!("\"{}\":", name);
    let start = json.find(&key).expect("the claim") + key.len();
    let digits: String = json[start..].chars().take_while(|c| c.is_ascii_digit()).collect();
    digits.parse().unwrap()
}

#[test]
fn session_token_is_signed_and_valid_for_2600_seconds() {
    assert_eq!(SESSION_TOKEN_VALIDITY_SECS, 2600);
    let token = issue_session_token().expect("a token");
    assert!(is_compact_jwt(&token), "{}", token);
    let mut parts = token.split('.');
    let header = String::from_utf8(base64url_decode(parts.next().unwrap())).unwrap();
    assert!(header.starts_with("{\"alg\":\"HS256\","), "{}", header);
    let claims = String::from_utf8(base64url_decode(parts.next().unwrap())).unwrap();
    let iat = claim(&claims, "iat");
    assert_eq!(claim(&claims, "exp"), iat + 2600);
    assert_eq!(claim(&claims, "nbf"), iat);
    assert_eq!(claims, format!("{{\"iat\":{},\"exp\":{},\"nbf\":{}}}", iat, iat + 2600, iat));
    let other = issue_session_token().expect("a token");
    assert_ne!(token, other);
}

#[test]
fn login_waits_only_before_the_answer() {
    let step = started();
    assert!(step.is_waiting_for(&PasswordAuthenticateUserEvent::LoginChecked(Ok(true))));
    let (step, _) = step.step(PasswordAuthenticateUserEvent::LoginChecked(Ok(false)));
    assert!(!step.is_waiting_for(&PasswordAuthenticateUserEvent::LoginChecked(Ok(true))));
}

#[test]
fn session_token_header_names_hs256() {
    let token = issue_session_token().expect("a token");
    assert!(token.starts_with("eyJhbGciOiJIUzI1NiIs"), "{}", token);
}

#[test]
fn signing_result_decides_the_login_result() {
    assert_eq!(signed_session_token(Ok("h.c.t".to_string())), Ok("h.c.t".to_string()));
    assert_eq!(
        signed_session_token(Err(jwt_simple::Error::msg("signing failed"))),
        Err(PasswordAuthenticateUserError::UnknownError)
    );
}
