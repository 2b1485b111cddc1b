//! URLs: this service's own callback URL, query strings, and the
//! redirects to the local application.
use vstd::prelude::*;
use vstd::string::StringExecFns;
use vstd::string::StrSliceExecFns;
use crate::config::OAuthConfig;
use crate::error::FlowError;
use crate::text::{chars_of, decimal, digit_char, push_decimal};
use vstd::utf8::encode_utf8;
use crate::token::TokenResponse;

verus! {

/// The parts of an incoming request's URI that the relay reads.
pub struct RequestUri {
    pub scheme: Option<String>,
    pub host: Option<String>,
    pub port: Option<u16>,
    pub path: String,
    /// The raw query, without the `?`.
    pub query: Option<String>,
}

/// The serialization that the `url` crate gives to the URL text `s`, or
/// `None` where it does not parse.
pub uninterp spec fn url_normalized(s: Seq<char>) -> Option<Seq<char>>;

/// An upper-case hexadecimal digit (of `d` modulo sixteen).
pub open spec fn upper_hex_char(d: nat) -> char {
    if d % 16 < 10 { digit_char(d % 16) }
    else if d % 16 == 10 { 'A' }
    else if d % 16 == 11 { 'B' }
    else if d % 16 == 12 { 'C' }
    else if d % 16 == 13 { 'D' }
    else if d % 16 == 14 { 'E' }
    else { 'F' }
}

/// `%XX`, upper case, for a byte.
pub open spec fn percent_byte(b: u8) -> Seq<char> {
    seq!['%', upper_hex_char(b as nat / 16), upper_hex_char(b as nat)]
}

pub open spec fn is_alphanumeric_byte(b: u8) -> bool {
    (0x30 <= b <= 0x39) || (0x41 <= b <= 0x5a) || (0x61 <= b <= 0x7a)
}

/// The bytes that percent-encoding keeps: alphanumerics and `-._~`.
pub open spec fn is_unreserved_byte(b: u8) -> bool {
    is_alphanumeric_byte(b) || b == 0x2d || b == 0x2e || b == 0x5f || b == 0x7e
}

/// The bytes that form encoding keeps: alphanumerics and `*-._`.
pub open spec fn is_form_plain_byte(b: u8) -> bool {
    is_alphanumeric_byte(b) || b == 0x2a || b == 0x2d || b == 0x2e || b == 0x5f
}

pub open spec fn percent_encoded_bytes(bs: Seq<u8>) -> Seq<char>
    decreases bs.len(),
{
    if bs.len() == 0 {
        Seq::empty()
    } else {
        (if is_unreserved_byte(bs[0]) { seq![bs[0] as char] } else { percent_byte(bs[0]) })
            + percent_encoded_bytes(bs.skip(1))
    }
}

pub open spec fn form_encoded_bytes(bs: Seq<u8>) -> Seq<char>
    decreases bs.len(),
{
    if bs.len() == 0 {
        Seq::empty()
    } else {
        (if is_form_plain_byte(bs[0]) {
            seq![bs[0] as char]
        } else if bs[0] == 0x20 {
            seq!['+']
        } else {
            percent_byte(bs[0])
        }) + form_encoded_bytes(bs.skip(1))
    }
}

/// The `application/x-www-form-urlencoded` serialization of `s`: over its
/// UTF-8 bytes, alphanumerics and `*-._` stay, a space becomes `+`, any
/// other byte becomes `%XX`.
pub open spec fn form_encoded(s: Seq<char>) -> Seq<char> {
    form_encoded_bytes(encode_utf8(s))
}

/// The percent-encoding of `s`: over its UTF-8 bytes, alphanumerics and
/// `-._~` stay, any other byte becomes `%XX`.
pub open spec fn percent_encoded(s: Seq<char>) -> Seq<char> {
    percent_encoded_bytes(encode_utf8(s))
}

/// The name-value pairs, decoded, of the form-urlencoded text `q`.
pub uninterp spec fn form_decoded_pairs(q: Seq<char>) -> Seq<(Seq<char>, Seq<char>)>;

#[verifier::external_type_specification]
#[verifier::external_body]
pub struct ExParseError(url::ParseError);

/// Relies on `url::Url::parse` and the URL's serialization (`String::from`).
#[verifier::external_body]
fn url_parse(s: &str) -> (r: Result<String, url::ParseError>)
    ensures
        r is Ok <==> url_normalized(s@) is Some,
        r is Ok ==> r->Ok_0@ == url_normalized(s@)->0,
{
    url::Url::parse(s).map(String::from)
}

/// Relies on `url::form_urlencoded::byte_serialize` over the UTF-8 bytes of
/// `s`, which keeps `*-._` and alphanumerics, writes a space as `+` and any
/// other byte as `percent_encoding::percent_encode_byte` does (`%XX`, upper case).
#[verifier::external_body]
fn form_encode(s: &str) -> (r: String)
    ensures
        r@ == form_encoded(s@),
{
    url::form_urlencoded::byte_serialize(s.as_bytes()).collect()
}

/// Relies on `urlencoding::encode`, which keeps alphanumerics and `-._~` of
/// the UTF-8 bytes and writes any other byte as `%XX`, upper case.
#[verifier::external_body]
pub(crate) fn percent_encode(s: &str) -> (r: String)
    ensures
        r@ == percent_encoded(s@),
{
    urlencoding::encode(s).into_owned()
}

/// Relies on `url::form_urlencoded::parse` over the UTF-8 bytes of `q`.
#[verifier::external_body]
fn form_decode(q: &str) -> (r: Vec<(String, String)>)
    ensures
        pairs_view(r@) == form_decoded_pairs(q@),
{
    url::form_urlencoded::parse(q.as_bytes()).into_owned().collect()
}

pub open spec fn pairs_view(p: Seq<(String, String)>) -> Seq<(Seq<char>, Seq<char>)> {
    p.map_values(|x: (String, String)| (x.0@, x.1@))
}

/// Parses a URL given in configuration, giving its serialization.
pub fn parse_url(url_str: &str) -> (r: Result<String, FlowError>)
    ensures
        match url_normalized(url_str@) {
            Some(u) => r is Ok && r->Ok_0@ == u,
            None => r == Err::<String, FlowError>(FlowError::InvalidConfiguredUrl),
        },
{
    match url_parse(url_str) {
        Ok(u) => Ok(u),
        Err(_) => Err(FlowError::InvalidConfiguredUrl),
    }
}

/// The text of this service's callback URL before normalization.
pub open spec fn callback_text(scheme: Seq<char>, host: Seq<char>, port: Option<u16>, suffix: Seq<char>) -> Seq<char> {
    let authority = match port {
        Some(p) => host + seq![':'] + decimal(p as nat),
        None => host,
    };
    scheme + seq![':', '/', '/'] + authority + suffix
}

pub open spec fn own_callback_url(
    scheme: Option<Seq<char>>,
    host: Option<Seq<char>>,
    port: Option<u16>,
    suffix: Seq<char>,
) -> Result<Seq<char>, FlowError> {
    match (host, scheme) {
        (Some(h), Some(s)) => match url_normalized(callback_text(s, h, port, suffix)) {
            Some(u) => Ok(u),
            None => Err(FlowError::InvalidConfiguredUrl),
        },
        _ => Err(FlowError::MissingUriComponent),
    }
}

pub open spec fn str_result_view(r: Result<String, FlowError>) -> Result<Seq<char>, FlowError> {
    match r {
        Ok(s) => Ok(s@),
        Err(e) => Err(e),
    }
}

/// The externally visible URL of this service's callback endpoint: the
/// request's scheme, host and explicit port, then the configured suffix.
pub fn make_redirect_uri(req: &RequestUri, config: &OAuthConfig) -> (r: Result<String, FlowError>)
    ensures
        str_result_view(r) == own_callback_url(
            opt_str_view(req.scheme),
            opt_str_view(req.host),
            req.port,
            config.redirect_uri_suffix@,
        ),
{
    let host = match &req.host {
        Some(h) => h,
        None => { return Err(FlowError::MissingUriComponent); },
    };
    let scheme = match &req.scheme {
        Some(s) => s,
        None => { return Err(FlowError::MissingUriComponent); },
    };
    let mut text = scheme.clone();
    proof { reveal_strlit("://"); reveal_strlit(":"); }
    text.append("://");
    text.append(host.as_str());
    match req.port {
        Some(p) => {
            text.append(":");
            push_decimal(&mut text, p as u64);
        },
        None => {},
    }
    text.append(config.redirect_uri_suffix.as_str());
    assert(text@ =~= callback_text(scheme@, host@, req.port, config.redirect_uri_suffix@));
    parse_url(text.as_str())
}

pub open spec fn opt_str_view(o: Option<String>) -> Option<Seq<char>> {
    match o {
        Some(s) => Some(s@),
        None => None,
    }
}

/// The first position of `c` in `s`, or the length where there is none.
pub open spec fn is_first_index(s: Seq<char>, c: char, i: int) -> bool {
    &&& 0 <= i <= s.len()
    &&& (i < s.len() ==> s[i] == c)
    &&& forall|j: int| 0 <= j < i ==> s[j] != c
}

pub open spec fn first_index(s: Seq<char>, c: char) -> int {
    choose|i: int| is_first_index(s, c, i)
}

proof fn lemma_first_index(s: Seq<char>, c: char, i: int)
    requires
        is_first_index(s, c, i),
    ensures
        first_index(s, c) == i,
{
    let k = first_index(s, c);
    assert(is_first_index(s, c, k));
    if k < i {
        assert(s[k] != c);
    }
    if i < k {
        assert(s[i] != c);
    }
}

fn find_char(s: &Vec<char>, c: char) -> (r: usize)
    ensures
        r == first_index(s@, c),
        is_first_index(s@, c, r as int),
{
    let mut i: usize = 0;
    while i < s.len() && s[i] != c
        invariant
            i <= s@.len(),
            forall|j: int| 0 <= j < i ==> s@[j] != c,
        decreases s@.len() - i,
    {
        i = i + 1;
    }
    proof { lemma_first_index(s@, c, i as int); }
    i
}

/// A form-encoded `key=value` pair.
pub open spec fn query_pair(k: Seq<char>, v: Seq<char>) -> Seq<char> {
    form_encoded(k) + seq!['='] + form_encoded(v)
}

/// `url` with the pair appended to its query, before any fragment: `?` opens
/// a query where there is none, `&` separates it from a non-empty one.
pub open spec fn with_query_pair(url: Seq<char>, k: Seq<char>, v: Seq<char>) -> Seq<char> {
    let h = first_index(url, '#');
    let base = url.subrange(0, h);
    let frag = url.subrange(h, url.len() as int);
    let q = first_index(base, '?');
    let sep = if q == base.len() {
        seq!['?']
    } else if q == base.len() - 1 {
        Seq::empty()
    } else {
        seq!['&']
    };
    base + sep + query_pair(k, v) + frag
}

/// Appends `key=value`, form-encoded, to the query of `url`.
pub fn append_query_pair(url: &str, k: &str, v: &str) -> (r: String)
    ensures
        r@ == with_query_pair(url@, k@, v@),
{
    let cs = chars_of(url);
    let h = find_char(&cs, '#');
    let base = url.substring_char(0, h);
    let frag = url.substring_char(h, cs.len());
    let bs = chars_of(base);
    let q = find_char(&bs, '?');
    let mut r = base.to_owned();
    proof { reveal_strlit("?"); reveal_strlit("&"); reveal_strlit("="); }
    if q == bs.len() {
        r.append("?");
    } else if q + 1 < bs.len() {
        r.append("&");
    }
    let ke = form_encode(k);
    let ve = form_encode(v);
    r.append(ke.as_str());
    r.append("=");
    r.append(ve.as_str());
    r.append(frag);
    assert(r@ =~= with_query_pair(url@, k@, v@));
    r
}

/// The value of the last pair named `key`.
pub open spec fn last_value(pairs: Seq<(Seq<char>, Seq<char>)>, key: Seq<char>) -> Option<Seq<char>>
    decreases pairs.len(),
{
    if pairs.len() == 0 {
        None
    } else if pairs.last().0 == key {
        Some(pairs.last().1)
    } else {
        last_value(pairs.drop_last(), key)
    }
}

/// The decoded query pairs of a request.
pub open spec fn request_pairs(query: Option<Seq<char>>) -> Seq<(Seq<char>, Seq<char>)> {
    match query {
        Some(q) => form_decoded_pairs(q),
        None => Seq::empty(),
    }
}

/// Decodes the query of a request into name-value pairs, in order.
pub fn query_pairs(req: &RequestUri) -> (r: Vec<(String, String)>)
    ensures
        pairs_view(r@) == request_pairs(opt_str_view(req.query)),
{
    match &req.query {
        Some(q) => form_decode(q.as_str()),
        None => {
            let v: Vec<(String, String)> = Vec::new();
            assert(pairs_view(v@) =~= Seq::empty());
            v
        },
    }
}

/// The value of the last pair named `key`, as later values of a repeated
/// parameter replace earlier ones.
pub fn last_value_of(pairs: &Vec<(String, String)>, key: &str) -> (r: Option<String>)
    ensures
        opt_str_view(r) == last_value(pairs_view(pairs@), key@),
{
    let ghost pv = pairs_view(pairs@);
    let mut cur: Option<String> = None;
    let mut i: usize = 0;
    let owned = key.to_owned();
    assert(pv.subrange(0, 0) =~= Seq::empty());
    while i < pairs.len()
        invariant
            i <= pairs@.len(),
            pv == pairs_view(pairs@),
            owned@ == key@,
            opt_str_view(cur) == last_value(pv.subrange(0, i as int), key@),
        decreases pairs@.len() - i,
    {
        assert(pv.subrange(0, i + 1).drop_last() =~= pv.subrange(0, i as int));
        if pairs[i].0 == owned {
            cur = Some(pairs[i].1.clone());
        }
        i = i + 1;
    }
    assert(pv.subrange(0, i as int) =~= pv);
    cur
}

pub open spec fn localhost_prefix(port: u16) -> Seq<char> {
    "http://localhost:"@ + decimal(port as nat) + seq!['/', '?']
}

/// The local application's URL for a failure: `status=error` and the
/// percent-encoded message.
pub open spec fn local_error_url(port: u16, msg: Seq<char>) -> Seq<char> {
    localhost_prefix(port) + "status=error&error="@ + percent_encoded(msg)
}

/// The local application's URL for a success: `status=ok`, the access
/// token and, where there is one, the refresh token, form-encoded.
pub open spec fn local_success_url(port: u16, access: Seq<char>, refresh: Option<Seq<char>>) -> Seq<char> {
    let base = localhost_prefix(port) + "status=ok&"@ + query_pair("access_token"@, access);
    match refresh {
        Some(t) => base + seq!['&'] + query_pair("refresh_token"@, t),
        None => base,
    }
}

fn localhost_url(port: u16) -> (r: String)
    ensures
        r@ == localhost_prefix(port),
{
    let mut r = String::new();
    proof { reveal_strlit("http://localhost:"); reveal_strlit("/?"); }
    r.append("http://localhost:");
    push_decimal(&mut r, port as u64);
    r.append("/?");
    assert(r@ =~= localhost_prefix(port));
    r
}

/// Where to send the local application a failure message.
pub fn error_redirect(local_port: u16, error_msg: &str) -> (r: String)
    ensures
        r@ == local_error_url(local_port, error_msg@),
{
    let mut r = localhost_url(local_port);
    proof { reveal_strlit("status=error&error="); }
    r.append("status=error&error=");
    let enc = percent_encode(error_msg);
    r.append(enc.as_str());
    r
}

/// Where to send the local application its tokens.
pub fn success_redirect(local_port: u16, tokens: &TokenResponse) -> (r: String)
    ensures
        r@ == local_success_url(local_port, tokens.access_token@, opt_str_view(tokens.refresh_token)),
{
    let mut r = localhost_url(local_port);
    proof {
        reveal_strlit("status=ok&");
        reveal_strlit("access_token");
        reveal_strlit("refresh_token");
        reveal_strlit("=");
        reveal_strlit("&");
    }
    r.append("status=ok&");
    let k = form_encode("access_token");
    let v = form_encode(tokens.access_token.as_str());
    r.append(k.as_str());
    r.append("=");
    r.append(v.as_str());
    match &tokens.refresh_token {
        Some(t) => {
            let k2 = form_encode("refresh_token");
            let v2 = form_encode(t.as_str());
            r.append("&");
            r.append(k2.as_str());
            r.append("=");
            r.append(v2.as_str());
        },
        None => {},
    }
    assert(r@ =~= local_success_url(local_port, tokens.access_token@, opt_str_view(tokens.refresh_token)));
    r
}

} // verus!
