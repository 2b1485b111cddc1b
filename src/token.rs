//! The provider's token payloads, read from the fields of a JSON object.
use vstd::prelude::*;
use vstd::string::StringExecFns;
use crate::config::OAuthConfig;
use crate::http_utils::{percent_encode, percent_encoded};
use crate::text::{parse_u64, u64_of_text};

verus! {

/// The provider's success payload.
pub struct TokenResponse {
    pub access_token: String,
    pub refresh_token: Option<String>,
    pub token_type: Option<String>,
    pub expires_in: Option<u64>,
}

/// The provider's failure payload.
pub struct TokenErrorResponse {
    pub error: String,
    pub error_description: Option<String>,
}

pub open spec fn opt_view(o: Option<String>) -> Option<Seq<char>> {
    match o {
        Some(s) => Some(s@),
        None => None,
    }
}

pub ghost struct TokenView {
    pub access_token: Seq<char>,
    pub refresh_token: Option<Seq<char>>,
    pub token_type: Option<Seq<char>>,
    pub expires_in: Option<u64>,
}

impl View for TokenResponse {
    type V = TokenView;

    open spec fn view(&self) -> TokenView {
        TokenView {
            access_token: self.access_token@,
            refresh_token: opt_view(self.refresh_token),
            token_type: opt_view(self.token_type),
            expires_in: self.expires_in,
        }
    }
}

pub ghost struct TokenErrorView {
    pub error: Seq<char>,
    pub error_description: Option<Seq<char>>,
}

impl View for TokenErrorResponse {
    type V = TokenErrorView;

    open spec fn view(&self) -> TokenErrorView {
        TokenErrorView { error: self.error@, error_description: opt_view(self.error_description) }
    }
}

/// A JSON member value, as far as the token payloads read it.
pub enum JsonScalar {
    Text(String),
    /// A number, as `serde_json` writes it.
    Number(String),
    Null,
    Bool(bool),
    Array,
    Object,
}

pub ghost enum JsonScalarView {
    Text(Seq<char>),
    Number(Seq<char>),
    Null,
    Bool(bool),
    Array,
    Object,
}

impl View for JsonScalar {
    type V = JsonScalarView;

    open spec fn view(&self) -> JsonScalarView {
        match self {
            JsonScalar::Text(s) => JsonScalarView::Text(s@),
            JsonScalar::Number(s) => JsonScalarView::Number(s@),
            JsonScalar::Null => JsonScalarView::Null,
            JsonScalar::Bool(b) => JsonScalarView::Bool(*b),
            JsonScalar::Array => JsonScalarView::Array,
            JsonScalar::Object => JsonScalarView::Object,
        }
    }
}

pub open spec fn fields_view(f: Seq<(String, JsonScalar)>) -> Seq<(Seq<char>, JsonScalarView)> {
    f.map_values(|x: (String, JsonScalar)| (x.0@, x.1@))
}

/// The members of the JSON object that `text` holds, or the parser's message.
pub uninterp spec fn json_object_of(text: Seq<char>) -> Result<Seq<(Seq<char>, JsonScalarView)>, Seq<char>>;

pub open spec fn json_result_view(r: Result<Vec<(String, JsonScalar)>, String>) -> Result<Seq<(Seq<char>, JsonScalarView)>, Seq<char>> {
    match r {
        Ok(f) => Ok(fields_view(f@)),
        Err(m) => Err(m@),
    }
}

/// Relies on `serde_json::from_str` into a `serde_json::Map`: the members
/// with their values told apart by kind (nested arrays and objects are not
/// read), or the error's message.
#[verifier::external_body]
fn parse_json_object(text: &str) -> (r: Result<Vec<(String, JsonScalar)>, String>)
    ensures
        json_result_view(r) == json_object_of(text@),
{
    match serde_json::from_str::<serde_json::Map<String, serde_json::Value>>(text) {
        Ok(m) => Ok(m.into_iter().map(|(k, v)| (k, match v {
            serde_json::Value::String(s) => JsonScalar::Text(s),
            serde_json::Value::Number(n) => JsonScalar::Number(n.to_string()),
            serde_json::Value::Null => JsonScalar::Null,
            serde_json::Value::Bool(b) => JsonScalar::Bool(b),
            serde_json::Value::Array(_) => JsonScalar::Array,
            serde_json::Value::Object(_) => JsonScalar::Object,
        })).collect()),
        Err(e) => Err(e.to_string()),
    }
}

/// The value of the first member named `key`.
pub open spec fn member(fields: Seq<(Seq<char>, JsonScalarView)>, key: Seq<char>) -> Option<JsonScalarView>
    decreases fields.len(),
{
    if fields.len() == 0 {
        None
    } else if fields[0].0 == key {
        Some(fields[0].1)
    } else {
        member(fields.skip(1), key)
    }
}

fn member_of<'a>(fields: &'a Vec<(String, JsonScalar)>, key: &str) -> (r: Option<&'a JsonScalar>)
    ensures
        match r {
            Some(x) => member(fields_view(fields@), key@) == Some(x@),
            None => member(fields_view(fields@), key@) is None,
        },
{
    let ghost fv = fields_view(fields@);
    let owned = key.to_owned();
    let mut i: usize = 0;
    assert(fv.skip(0) =~= fv);
    while i < fields.len()
        invariant
            i <= fields@.len(),
            fv == fields_view(fields@),
            owned@ == key@,
            member(fv, key@) == member(fv.skip(i as int), key@),
        decreases fields@.len() - i,
    {
        assert(fv.skip(i as int).skip(1) =~= fv.skip(i + 1));
        if fields[i].0 == owned {
            return Some(&fields[i].1);
        }
        i = i + 1;
    }
    None
}

/// A required string member.
pub open spec fn required_text(fields: Seq<(Seq<char>, JsonScalarView)>, key: Seq<char>) -> Result<Seq<char>, Seq<char>> {
    match member(fields, key) {
        Some(JsonScalarView::Text(s)) => Ok(s),
        Some(_) => Err("invalid type: expected a string for `"@ + key + "`"@),
        None => Err("missing field `"@ + key + "`"@),
    }
}

/// An optional string member: absent or `null` gives `None`.
pub open spec fn optional_text(fields: Seq<(Seq<char>, JsonScalarView)>, key: Seq<char>) -> Result<Option<Seq<char>>, Seq<char>> {
    match member(fields, key) {
        Some(JsonScalarView::Text(s)) => Ok(Some(s)),
        Some(JsonScalarView::Null) => Ok(None),
        None => Ok(None),
        Some(_) => Err("invalid type: expected a string for `"@ + key + "`"@),
    }
}

/// An optional unsigned integer member: absent or `null` gives `None`.
pub open spec fn optional_u64(fields: Seq<(Seq<char>, JsonScalarView)>, key: Seq<char>) -> Result<Option<u64>, Seq<char>> {
    match member(fields, key) {
        Some(JsonScalarView::Number(t)) => match u64_of_text(t) {
            Some(n) => Ok(Some(n)),
            None => Err("invalid value: expected an unsigned integer for `"@ + key + "`"@),
        },
        Some(JsonScalarView::Null) => Ok(None),
        None => Ok(None),
        Some(_) => Err("invalid type: expected an unsigned integer for `"@ + key + "`"@),
    }
}

fn message(before: &str, key: &str, after: &str) -> (r: String)
    ensures
        r@ == before@ + key@ + after@,
{
    let mut r = before.to_owned();
    r.append(key);
    r.append(after);
    r
}

fn get_required_text(fields: &Vec<(String, JsonScalar)>, key: &str) -> (r: Result<String, String>)
    ensures
        match required_text(fields_view(fields@), key@) {
            Ok(s) => r is Ok && r->Ok_0@ == s,
            Err(m) => r is Err && r->Err_0@ == m,
        },
{
    proof { reveal_strlit("invalid type: expected a string for `"); reveal_strlit("missing field `"); reveal_strlit("`"); }
    match member_of(fields, key) {
        Some(JsonScalar::Text(s)) => Ok(s.clone()),
        Some(_) => Err(message("invalid type: expected a string for `", key, "`")),
        None => Err(message("missing field `", key, "`")),
    }
}

fn get_optional_text(fields: &Vec<(String, JsonScalar)>, key: &str) -> (r: Result<Option<String>, String>)
    ensures
        match optional_text(fields_view(fields@), key@) {
            Ok(s) => r is Ok && opt_view(r->Ok_0) == s,
            Err(m) => r is Err && r->Err_0@ == m,
        },
{
    proof { reveal_strlit("invalid type: expected a string for `"); reveal_strlit("`"); }
    match member_of(fields, key) {
        Some(JsonScalar::Text(s)) => Ok(Some(s.clone())),
        Some(JsonScalar::Null) => Ok(None),
        None => Ok(None),
        Some(_) => Err(message("invalid type: expected a string for `", key, "`")),
    }
}

fn get_optional_u64(fields: &Vec<(String, JsonScalar)>, key: &str) -> (r: Result<Option<u64>, String>)
    ensures
        match optional_u64(fields_view(fields@), key@) {
            Ok(n) => r == Ok::<Option<u64>, String>(n),
            Err(m) => r is Err && r->Err_0@ == m,
        },
{
    proof {
        reveal_strlit("invalid type: expected an unsigned integer for `");
        reveal_strlit("invalid value: expected an unsigned integer for `");
        reveal_strlit("`");
    }
    match member_of(fields, key) {
        Some(JsonScalar::Number(t)) => match parse_u64(t.as_str()) {
            Some(n) => Ok(Some(n)),
            None => Err(message("invalid value: expected an unsigned integer for `", key, "`")),
        },
        Some(JsonScalar::Null) => Ok(None),
        None => Ok(None),
        Some(_) => Err(message("invalid type: expected an unsigned integer for `", key, "`")),
    }
}

/// The success payload that the members give, or why they do not.
pub open spec fn token_from_fields(f: Seq<(Seq<char>, JsonScalarView)>) -> Result<TokenView, Seq<char>> {
    match required_text(f, "access_token"@) {
        Err(m) => Err(m),
        Ok(access_token) => match optional_text(f, "refresh_token"@) {
            Err(m) => Err(m),
            Ok(refresh_token) => match optional_text(f, "token_type"@) {
                Err(m) => Err(m),
                Ok(token_type) => match optional_u64(f, "expires_in"@) {
                    Err(m) => Err(m),
                    Ok(expires_in) => Ok(TokenView { access_token, refresh_token, token_type, expires_in }),
                },
            },
        },
    }
}

/// The failure payload that the members give, or why they do not.
pub open spec fn token_error_from_fields(f: Seq<(Seq<char>, JsonScalarView)>) -> Result<TokenErrorView, Seq<char>> {
    match required_text(f, "error"@) {
        Err(m) => Err(m),
        Ok(error) => match optional_text(f, "error_description"@) {
            Err(m) => Err(m),
            Ok(error_description) => Ok(TokenErrorView { error, error_description }),
        },
    }
}

/// Reads a success payload from a JSON object's members.
pub fn token_response_from_fields(fields: &Vec<(String, JsonScalar)>) -> (r: Result<TokenResponse, String>)
    ensures
        match token_from_fields(fields_view(fields@)) {
            Ok(t) => r is Ok && r->Ok_0@ == t,
            Err(m) => r is Err && r->Err_0@ == m,
        },
{
    let access_token = match get_required_text(fields, "access_token") {
        Ok(s) => s,
        Err(m) => { return Err(m); },
    };
    let refresh_token = match get_optional_text(fields, "refresh_token") {
        Ok(s) => s,
        Err(m) => { return Err(m); },
    };
    let token_type = match get_optional_text(fields, "token_type") {
        Ok(s) => s,
        Err(m) => { return Err(m); },
    };
    let expires_in = match get_optional_u64(fields, "expires_in") {
        Ok(n) => n,
        Err(m) => { return Err(m); },
    };
    Ok(TokenResponse { access_token, refresh_token, token_type, expires_in })
}

/// Reads a failure payload from a JSON object's members.
pub fn token_error_from_fields_of(fields: &Vec<(String, JsonScalar)>) -> (r: Result<TokenErrorResponse, String>)
    ensures
        match token_error_from_fields(fields_view(fields@)) {
            Ok(t) => r is Ok && r->Ok_0@ == t,
            Err(m) => r is Err && r->Err_0@ == m,
        },
{
    let error = match get_required_text(fields, "error") {
        Ok(s) => s,
        Err(m) => { return Err(m); },
    };
    let error_description = match get_optional_text(fields, "error_description") {
        Ok(s) => s,
        Err(m) => { return Err(m); },
    };
    Ok(TokenErrorResponse { error, error_description })
}

pub open spec fn token_result_view(r: Result<TokenResponse, String>) -> Result<TokenView, Seq<char>> {
    match r {
        Ok(t) => Ok(t@),
        Err(m) => Err(m@),
    }
}

pub open spec fn token_error_result_view(r: Result<TokenErrorResponse, String>) -> Result<TokenErrorView, Seq<char>> {
    match r {
        Ok(t) => Ok(t@),
        Err(m) => Err(m@),
    }
}

/// The success payload in a JSON body, or the message of what is wrong with it.
pub open spec fn token_of_body(body: Seq<char>) -> Result<TokenView, Seq<char>> {
    match json_object_of(body) {
        Ok(f) => token_from_fields(f),
        Err(m) => Err(m),
    }
}

/// The failure payload in a JSON body, or the message of what is wrong with it.
pub open spec fn token_error_of_body(body: Seq<char>) -> Result<TokenErrorView, Seq<char>> {
    match json_object_of(body) {
        Ok(f) => token_error_from_fields(f),
        Err(m) => Err(m),
    }
}

impl TokenResponse {
    /// Parses the token endpoint's success body.
    pub fn from_json(body: &str) -> (r: Result<TokenResponse, String>)
        ensures
            token_result_view(r) == token_of_body(body@),
    {
        match parse_json_object(body) {
            Ok(f) => token_response_from_fields(&f),
            Err(m) => Err(m),
        }
    }
}

impl TokenErrorResponse {
    /// Parses the token endpoint's failure body.
    pub fn from_json(body: &str) -> (r: Result<TokenErrorResponse, String>)
        ensures
            token_error_result_view(r) == token_error_of_body(body@),
    {
        match parse_json_object(body) {
            Ok(f) => token_error_from_fields_of(&f),
            Err(m) => Err(m),
        }
    }
}

/// The form body of the code-for-token request.
pub open spec fn token_request_text(code: Seq<char>, redirect_uri: Seq<char>, c: crate::config::ConfigView) -> Seq<char> {
    "grant_type=authorization_code&code="@ + percent_encoded(code)
        + "&redirect_uri="@ + percent_encoded(redirect_uri)
        + "&client_id="@ + percent_encoded(c.client_id)
        + "&client_secret="@ + percent_encoded(c.client_secret)
}

/// Builds the form body of the code-for-token request, each value percent-encoded.
pub fn token_request_body(code: &str, redirect_uri: &str, config: &OAuthConfig) -> (r: String)
    ensures
        r@ == token_request_text(code@, redirect_uri@, config@),
{
    proof {
        reveal_strlit("grant_type=authorization_code&code=");
        reveal_strlit("&redirect_uri=");
        reveal_strlit("&client_id=");
        reveal_strlit("&client_secret=");
    }
    let mut r = "grant_type=authorization_code&code=".to_owned();
    r.append(percent_encode(code).as_str());
    r.append("&redirect_uri=");
    r.append(percent_encode(redirect_uri).as_str());
    r.append("&client_id=");
    r.append(percent_encode(config.client_id.as_str()).as_str());
    r.append("&client_secret=");
    r.append(percent_encode(config.client_secret.as_str()).as_str());
    assert(r@ =~= token_request_text(code@, redirect_uri@, config@));
    r
}

} // verus!
