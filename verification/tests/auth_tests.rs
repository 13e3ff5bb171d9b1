use sys_stats::auth::{
    auth_endpoint, auth_outcome, decide_auth, network_error_message, next_auth_state,
    read_auth_fields, validate_credentials, AuthFields, AuthOutcome, AuthState, JsonField,
};

#[test]
fn credentials_must_be_filled() {
    assert_eq!(validate_credentials("", "pw"), Some("Email and password are required.".to_string()));
    assert_eq!(validate_credentials("a@b", ""), Some("Email and password are required.".to_string()));
    assert_eq!(validate_credentials("a@b", "pw"), None);
}

#[test]
fn endpoints_for_signin_and_signup() {
    assert_eq!(auth_endpoint(false), "https://mdeubpsdmmuowntstjjv.supabase.co/auth/v1/token?grant_type=password");
    assert_eq!(auth_endpoint(true), "https://mdeubpsdmmuowntstjjv.supabase.co/auth/v1/signup");
}

fn body(s: &str) -> Option<String> {
    Some(s.to_string())
}

#[test]
fn accepted_answer_signs_in() {
    assert_eq!(auth_outcome(true, false, &body(r#"{"access_token":"jwt","x":1}"#)), AuthOutcome::SignedIn("jwt".to_string()));
}

#[test]
fn accepted_answer_without_token() {
    assert_eq!(
        auth_outcome(true, true, &body(r#"{"id":"u"}"#)),
        AuthOutcome::Message("Registration successful! Please check your email to verify (if enabled).".to_string())
    );
    assert_eq!(auth_outcome(true, false, &body(r#"{"access_token":5}"#)), AuthOutcome::Message("Failed to retrieve access token.".to_string()));
    assert_eq!(auth_outcome(true, false, &body("not json")), AuthOutcome::Unchanged);
    assert_eq!(auth_outcome(true, false, &None), AuthOutcome::Unchanged);
}

#[test]
fn refused_answer_messages() {
    assert_eq!(auth_outcome(false, false, &body(r#"{"error_description":"Invalid login credentials"}"#)), AuthOutcome::Message("Invalid login credentials".to_string()));
    assert_eq!(auth_outcome(false, false, &body(r#"{"msg":"m","message":"n"}"#)), AuthOutcome::Message("m".to_string()));
    assert_eq!(auth_outcome(false, false, &body(r#"{"message":"n"}"#)), AuthOutcome::Message("n".to_string()));
    // the first present member decides, even when it is not text
    assert_eq!(auth_outcome(false, false, &body(r#"{"error_description":null,"msg":"m"}"#)), AuthOutcome::Message("Authentication failed.".to_string()));
    assert_eq!(auth_outcome(false, false, &body(r#"[1,2]"#)), AuthOutcome::Message("Authentication failed.".to_string()));
    assert_eq!(auth_outcome(false, false, &body("<html>")), AuthOutcome::Message("Authentication failed.".to_string()));
}

#[test]
fn fields_are_read_from_json() {
    let f = read_auth_fields(&body(r#"{"access_token":"t","msg":3}"#)).unwrap();
    assert_eq!(f.access_token, JsonField::Text("t".to_string()));
    assert_eq!(f.msg, JsonField::Other);
    assert_eq!(f.message, JsonField::Absent);
    assert!(read_auth_fields(&body("{")).is_none());
    let direct = decide_auth(false, true, Some(AuthFields {
        access_token: JsonField::Absent,
        error_description: JsonField::Absent,
        msg: JsonField::Absent,
        message: JsonField::Absent,
    }));
    assert_eq!(direct, AuthOutcome::Message("Authentication failed.".to_string()));
}

#[test]
fn sign_in_changes_state_only_on_success() {
    let s = next_auth_state(AuthState::Unauthenticated, &AuthOutcome::SignedIn("t".into()));
    assert_eq!(s, AuthState::Authenticated { token: "t".to_string() });
    let s = next_auth_state(AuthState::Unauthenticated, &AuthOutcome::Message("m".into()));
    assert_eq!(s, AuthState::Unauthenticated);
    assert_eq!(network_error_message("timeout"), "Network error: timeout");
}
