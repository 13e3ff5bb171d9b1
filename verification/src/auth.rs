//! Signing in against the identity service: what is sent where, and what the
//! sign-in screen shows for each answer.

use vstd::prelude::*;
use crate::text::{cat, lit};

verus! {

pub const SUPABASE_URL: &'static str = "https://mdeubpsdmmuowntstjjv.supabase.co";

pub const MISSING_CREDENTIALS: &'static str = "Email and password are required.";

pub const SIGNUP_SENT: &'static str = "Registration successful! Please check your email to verify (if enabled).";

pub const NO_ACCESS_TOKEN: &'static str = "Failed to retrieve access token.";

pub const AUTH_FAILED: &'static str = "Authentication failed.";

/// Whether the user is signed in to the dashboard, and with which token.
#[derive(Clone, Debug, PartialEq, Eq)]
pub enum AuthState {
    Unauthenticated,
    Authenticated { token: String },
}

/// A member of a JSON object, as far as the sign-in logic reads it.
#[derive(Clone, Debug, PartialEq, Eq)]
pub enum JsonField {
    /// The body is an object without this member, or not an object.
    Absent,
    /// The member is a string.
    Text(String),
    /// The member is present but not a string.
    Other,
}

pub enum JsonFieldView {
    Absent,
    Text(Seq<char>),
    Other,
}

pub open spec fn field_view(f: JsonField) -> JsonFieldView {
    match f {
        JsonField::Absent => JsonFieldView::Absent,
        JsonField::Text(s) => JsonFieldView::Text(s@),
        JsonField::Other => JsonFieldView::Other,
    }
}

pub open spec fn opt_field_view(f: Option<JsonField>) -> Option<JsonFieldView> {
    match f {
        Some(x) => Some(field_view(x)),
        None => None,
    }
}

/// What `serde_json` makes of member `key` of the JSON text `body`: `None`
/// when `body` is not valid JSON.
pub uninterp spec fn json_member(body: Seq<char>, key: Seq<char>) -> Option<JsonFieldView>;

/// Parses `body` with `serde_json::from_str` into a `serde_json::Value` and
/// reads member `key` with `Value::get` and `Value::as_str`. The contract only
/// names the result as a function of the body and the key; JSON parsing itself
/// is not stated.
#[verifier::external_body]
fn json_field(body: &str, key: &str) -> (r: Option<JsonField>)
    ensures
        opt_field_view(r) == json_member(body@, key@),
{
    match serde_json::from_str::<serde_json::Value>(body) {
        Ok(v) => Some(
            match v.get(key) {
                None => JsonField::Absent,
                Some(x) => match x.as_str() {
                    Some(s) => JsonField::Text(s.to_string()),
                    None => JsonField::Other,
                },
            },
        ),
        Err(_) => None,
    }
}

/// Why the sign-in form cannot be sent, if it cannot.
pub fn validate_credentials(email: &str, password: &str) -> (err: Option<String>)
    ensures
        match err {
            Some(e) => (email@.len() == 0 || password@.len() == 0) && e@ == MISSING_CREDENTIALS@,
            None => email@.len() > 0 && password@.len() > 0,
        },
{
    if email.unicode_len() == 0 || password.unicode_len() == 0 {
        Some(lit(MISSING_CREDENTIALS))
    } else {
        None
    }
}

pub open spec fn spec_auth_endpoint(signup: bool) -> Seq<char> {
    if signup {
        SUPABASE_URL@ + "/auth/v1/signup"@
    } else {
        SUPABASE_URL@ + "/auth/v1/token?grant_type=password"@
    }
}

/// Where a sign-up or a password sign-in is posted.
pub fn auth_endpoint(signup: bool) -> (url: String)
    ensures
        url@ == spec_auth_endpoint(signup),
{
    if signup {
        cat(SUPABASE_URL, "/auth/v1/signup")
    } else {
        cat(SUPABASE_URL, "/auth/v1/token?grant_type=password")
    }
}

/// What the sign-in screen does with an answer.
#[derive(Clone, Debug, PartialEq, Eq)]
pub enum AuthOutcome {
    /// Nothing changes.
    Unchanged,
    /// The user is signed in with this access token.
    SignedIn(String),
    /// The screen shows this message.
    Message(String),
}

pub enum AuthOutcomeView {
    Unchanged,
    SignedIn(Seq<char>),
    Message(Seq<char>),
}

pub open spec fn outcome_view(o: AuthOutcome) -> AuthOutcomeView {
    match o {
        AuthOutcome::Unchanged => AuthOutcomeView::Unchanged,
        AuthOutcome::SignedIn(t) => AuthOutcomeView::SignedIn(t@),
        AuthOutcome::Message(m) => AuthOutcomeView::Message(m@),
    }
}

/// The members of an answer that the screen reads; `None` when the answer is
/// not JSON.
#[derive(Clone, Debug, PartialEq, Eq)]
pub struct AuthFields {
    pub access_token: JsonField,
    pub error_description: JsonField,
    pub msg: JsonField,
    pub message: JsonField,
}

pub open spec fn spec_error_text(
    error_description: JsonFieldView,
    msg: JsonFieldView,
    message: JsonFieldView,
) -> Seq<char> {
    let first = if !(error_description is Absent) {
        error_description
    } else if !(msg is Absent) {
        msg
    } else {
        message
    };
    match first {
        JsonFieldView::Text(t) => t,
        _ => AUTH_FAILED@,
    }
}

pub open spec fn spec_decide_auth(
    success: bool,
    signup: bool,
    fields: Option<(JsonFieldView, JsonFieldView, JsonFieldView, JsonFieldView)>,
) -> AuthOutcomeView {
    match fields {
        None => if success {
            AuthOutcomeView::Unchanged
        } else {
            AuthOutcomeView::Message(AUTH_FAILED@)
        },
        Some((token, desc, msg, message)) => if success {
            match token {
                JsonFieldView::Text(t) => AuthOutcomeView::SignedIn(t),
                _ => if signup {
                    AuthOutcomeView::Message(SIGNUP_SENT@)
                } else {
                    AuthOutcomeView::Message(NO_ACCESS_TOKEN@)
                },
            }
        } else {
            AuthOutcomeView::Message(spec_error_text(desc, msg, message))
        },
    }
}

pub open spec fn fields_view(f: Option<AuthFields>) -> Option<
    (JsonFieldView, JsonFieldView, JsonFieldView, JsonFieldView),
> {
    match f {
        Some(a) => Some(
            (
                field_view(a.access_token),
                field_view(a.error_description),
                field_view(a.msg),
                field_view(a.message),
            ),
        ),
        None => None,
    }
}

/// The screen's reaction to an answer with a success (2xx) or other status:
/// an accepted answer signs the user in with its access token; a sign-up
/// without one asks the user to confirm the address; a refused answer shows
/// the first of `error_description`, `msg` and `message` that is present
/// (when it is text), else a generic failure.
pub fn decide_auth(success: bool, signup: bool, fields: Option<AuthFields>) -> (o: AuthOutcome)
    ensures
        outcome_view(o) == spec_decide_auth(success, signup, fields_view(fields)),
{
    match fields {
        None => if success {
            AuthOutcome::Unchanged
        } else {
            AuthOutcome::Message(lit(AUTH_FAILED))
        },
        Some(f) => if success {
            match f.access_token {
                JsonField::Text(t) => AuthOutcome::SignedIn(t),
                _ => if signup {
                    AuthOutcome::Message(lit(SIGNUP_SENT))
                } else {
                    AuthOutcome::Message(lit(NO_ACCESS_TOKEN))
                },
            }
        } else {
            let first = match f.error_description {
                JsonField::Absent => match f.msg {
                    JsonField::Absent => f.message,
                    other => other,
                },
                other => other,
            };
            match first {
                JsonField::Text(t) => AuthOutcome::Message(t),
                _ => AuthOutcome::Message(lit(AUTH_FAILED)),
            }
        },
    }
}

/// Reads the members the screen needs from the answer's body (`None` when the
/// body could not be read).
pub fn read_auth_fields(body: &Option<String>) -> (f: Option<AuthFields>)
    ensures
        match body {
            None => f is None,
            Some(b) => match (
                json_member(b@, "access_token"@),
                json_member(b@, "error_description"@),
                json_member(b@, "msg"@),
                json_member(b@, "message"@),
            ) {
                (Some(t), Some(d), Some(m), Some(n)) => fields_view(f) == Some((t, d, m, n)),
                _ => f is None,
            },
        },
{
    let b = match body {
        Some(b) => b.as_str(),
        None => return None,
    };
    let t = json_field(b, "access_token");
    let d = json_field(b, "error_description");
    let m = json_field(b, "msg");
    let n = json_field(b, "message");
    match (t, d, m, n) {
        (Some(t), Some(d), Some(m), Some(n)) => Some(
            AuthFields { access_token: t, error_description: d, msg: m, message: n },
        ),
        _ => None,
    }
}

/// The screen's reaction to the answer of the identity service.
pub fn auth_outcome(success: bool, signup: bool, body: &Option<String>) -> (o: AuthOutcome)
    ensures
        match body {
            None => outcome_view(o) == spec_decide_auth(success, signup, None),
            Some(b) => match (
                json_member(b@, "access_token"@),
                json_member(b@, "error_description"@),
                json_member(b@, "msg"@),
                json_member(b@, "message"@),
            ) {
                (Some(t), Some(d), Some(m), Some(n)) => outcome_view(o) == spec_decide_auth(
                    success,
                    signup,
                    Some((t, d, m, n)),
                ),
                _ => outcome_view(o) == spec_decide_auth(success, signup, None),
            },
        },
{
    let fields = read_auth_fields(body);
    decide_auth(success, signup, fields)
}

/// The message shown when the request could not be sent.
pub fn network_error_message(err: &str) -> (m: String)
    ensures
        m@ == "Network error: "@ + err@,
{
    cat("Network error: ", err)
}

/// The dashboard state after a sign-in outcome.
pub fn next_auth_state(state: AuthState, outcome: &AuthOutcome) -> (s: AuthState)
    ensures
        match outcome {
            AuthOutcome::SignedIn(t) => s matches AuthState::Authenticated { token } && token@ == t@,
            _ => s == state,
        },
{
    match outcome {
        AuthOutcome::SignedIn(t) => AuthState::Authenticated { token: t.clone() },
        _ => state,
    }
}

/// An accepted answer that carries an access token always signs the user in
/// with that token, for a sign-up as for a sign-in; an accepted answer
/// without one signs nobody in; a refused answer never signs anybody in.
pub proof fn lemma_access_token_signs_in(
    success: bool,
    signup: bool,
    fields: Option<(JsonFieldView, JsonFieldView, JsonFieldView, JsonFieldView)>,
)
    ensures
        success ==> (fields matches Some((JsonFieldView::Text(t), _, _, _)) ==> spec_decide_auth(
            success,
            signup,
            fields,
        ) == AuthOutcomeView::SignedIn(t)),
        (spec_decide_auth(success, signup, fields) is SignedIn) ==> success && (fields matches Some(
            (JsonFieldView::Text(t), _, _, _),
        )),
        success && (fields is Some) && !(fields.unwrap().0 is Text) ==> spec_decide_auth(
            success,
            signup,
            fields,
        ) == AuthOutcomeView::Message(if signup {
            SIGNUP_SENT@
        } else {
            NO_ACCESS_TOKEN@
        }),
{
}

} // verus!
