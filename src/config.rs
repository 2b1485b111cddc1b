//! The relay's configuration, read from named environment values.
use vstd::prelude::*;
use vstd::string::StrSliceExecFns;
use crate::error::FlowError;

verus! {

/// Configuration for one request: client credentials, the provider's
/// endpoints and the two paths this service owns.
pub struct OAuthConfig {
    pub client_id: String,
    pub client_secret: String,
    /// The path where users start the flow, such as `/app/oauth`.
    pub oauth_init_uri_suffix: String,
    /// The path of the provider's callback, such as `/app/oauth/callback`.
    pub redirect_uri_suffix: String,
    /// The provider's authorization page.
    pub authorization_url: String,
    /// The provider's token endpoint.
    pub token_url: String,
}

pub ghost struct ConfigView {
    pub client_id: Seq<char>,
    pub client_secret: Seq<char>,
    pub oauth_init_uri_suffix: Seq<char>,
    pub redirect_uri_suffix: Seq<char>,
    pub authorization_url: Seq<char>,
    pub token_url: Seq<char>,
}

impl View for OAuthConfig {
    type V = ConfigView;

    open spec fn view(&self) -> ConfigView {
        ConfigView {
            client_id: self.client_id@,
            client_secret: self.client_secret@,
            oauth_init_uri_suffix: self.oauth_init_uri_suffix@,
            redirect_uri_suffix: self.redirect_uri_suffix@,
            authorization_url: self.authorization_url@,
            token_url: self.token_url@,
        }
    }
}

/// The value of the first entry named `name`, if any.
pub open spec fn env_value(vars: Seq<(Seq<char>, Seq<char>)>, name: Seq<char>) -> Option<Seq<char>>
    decreases vars.len(),
{
    if vars.len() == 0 {
        None
    } else if vars[0].0 == name {
        Some(vars[0].1)
    } else {
        env_value(vars.skip(1), name)
    }
}

pub open spec fn vars_view(vars: Seq<(String, String)>) -> Seq<(Seq<char>, Seq<char>)> {
    vars.map_values(|p: (String, String)| (p.0@, p.1@))
}

/// A required value: present and non-empty, else the name is reported.
pub open spec fn required(vars: Seq<(Seq<char>, Seq<char>)>, name: Seq<char>) -> Result<Seq<char>, Seq<char>> {
    match env_value(vars, name) {
        Some(v) => if v.len() > 0 { Ok(v) } else { Err(name) },
        None => Err(name),
    }
}

/// The configuration that `vars` gives, or the name of the first required
/// value that is missing or empty.
pub open spec fn config_from_vars(vars: Seq<(Seq<char>, Seq<char>)>) -> Result<ConfigView, Seq<char>> {
    match required(vars, "OAUTH_CLIENT_ID"@) {
        Err(n) => Err(n),
        Ok(client_id) => match required(vars, "OAUTH_CLIENT_SECRET"@) {
            Err(n) => Err(n),
            Ok(client_secret) => match required(vars, "OAUTH_INIT_URI_SUFFIX"@) {
                Err(n) => Err(n),
                Ok(init) => match required(vars, "OAUTH_REDIRECT_URI_SUFFIX"@) {
                    Err(n) => Err(n),
                    Ok(redirect) => match required(vars, "OAUTH_AUTHORIZATION_URL"@) {
                        Err(n) => Err(n),
                        Ok(auth) => match required(vars, "OAUTH_TOKEN_URL"@) {
                            Err(n) => Err(n),
                            Ok(token) => Ok(ConfigView {
                                client_id,
                                client_secret,
                                oauth_init_uri_suffix: init,
                                redirect_uri_suffix: redirect,
                                authorization_url: auth,
                                token_url: token,
                            }),
                        },
                    },
                },
            },
        },
    }
}

/// Looks `name` up among `vars`, first entry first.
fn required_value(vars: &Vec<(String, String)>, name: &str) -> (r: Result<String, FlowError>)
    ensures
        match required(vars_view(vars@), name@) {
            Ok(v) => r is Ok && r->Ok_0@ == v,
            Err(n) => r is Err && r->Err_0 is ConfigurationError && r->Err_0->ConfigurationError_0@ == n,
        },
{
    let ghost vv = vars_view(vars@);
    let mut i: usize = 0;
    assert(vv.skip(0) =~= vv);
    while i < vars.len()
        invariant
            i <= vars@.len(),
            vv == vars_view(vars@),
            env_value(vv, name@) == env_value(vv.skip(i as int), name@),
        decreases vars@.len() - i,
    {
        assert(vv.skip(i as int).skip(1) =~= vv.skip(i + 1));
        if vars[i].0 == name.to_owned() {
            let v = vars[i].1.clone();
            if v.as_str().unicode_len() == 0 {
                return Err(FlowError::ConfigurationError(name.to_owned()));
            }
            return Ok(v);
        }
        i = i + 1;
    }
    Err(FlowError::ConfigurationError(name.to_owned()))
}

impl OAuthConfig {
    /// Reads the configuration from the environment's named values.
    /// Every value is required and must be non-empty; the error names the
    /// first one, in field order, that is not.
    pub fn from_env(vars: &Vec<(String, String)>) -> (r: Result<OAuthConfig, FlowError>)
        ensures
            match config_from_vars(vars_view(vars@)) {
                Ok(c) => r is Ok && r->Ok_0@ == c,
                Err(n) => r is Err && r->Err_0 is ConfigurationError && r->Err_0->ConfigurationError_0@ == n,
            },
    {
        let client_id = match required_value(vars, "OAUTH_CLIENT_ID") {
            Ok(v) => v,
            Err(e) => { return Err(e); },
        };
        let client_secret = match required_value(vars, "OAUTH_CLIENT_SECRET") {
            Ok(v) => v,
            Err(e) => { return Err(e); },
        };
        let oauth_init_uri_suffix = match required_value(vars, "OAUTH_INIT_URI_SUFFIX") {
            Ok(v) => v,
            Err(e) => { return Err(e); },
        };
        let redirect_uri_suffix = match required_value(vars, "OAUTH_REDIRECT_URI_SUFFIX") {
            Ok(v) => v,
            Err(e) => { return Err(e); },
        };
        let authorization_url = match required_value(vars, "OAUTH_AUTHORIZATION_URL") {
            Ok(v) => v,
            Err(e) => { return Err(e); },
        };
        let token_url = match required_value(vars, "OAUTH_TOKEN_URL") {
            Ok(v) => v,
            Err(e) => { return Err(e); },
        };
        Ok(OAuthConfig {
            client_id,
            client_secret,
            oauth_init_uri_suffix,
            redirect_uri_suffix,
            authorization_url,
            token_url,
        })
    }
}

} // verus!
