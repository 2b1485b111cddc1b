//! The opaque `state` token that carries the caller's local port and a
//! nonce through the provider's redirect.
//!
//! The token is the URL-safe, unpadded base64 of the UTF-8 bytes of a
//! compact text `{"local_port":N,"nonce":"..."}`, in which `"` and `\` of
//! the nonce are escaped with a backslash.
use base64::Engine;
use vstd::prelude::*;
use vstd::string::StrSliceExecFns;
use vstd::string::StringExecFns;
use vstd::utf8::{decode_utf8, encode_utf8, encode_utf8_decode_utf8, encode_utf8_valid_utf8, valid_utf8};
use crate::text::{all_digits, chars_of, decimal, digits_at_most, digits_value, is_digit, lemma_decimal, push_decimal};

verus! {

/// The context that survives the round trip through the provider.
pub struct StateData {
    pub local_port: u16,
    pub nonce: String,
}

/// What a `StateData` holds, as mathematical values.
pub ghost struct StateView {
    pub local_port: u16,
    pub nonce: Seq<char>,
}

impl View for StateData {
    type V = StateView;

    open spec fn view(&self) -> StateView {
        StateView { local_port: self.local_port, nonce: self.nonce@ }
    }
}

/// Why a state token was refused.
#[derive(Debug, PartialEq, Eq, Clone, Copy, Structural)]
pub enum StateError {
    MalformedState,
}

/// The base64 text, URL-safe alphabet and no padding, of `b`.
pub uninterp spec fn b64url_encoded(b: Seq<u8>) -> Seq<char>;

#[verifier::external_type_specification]
#[verifier::external_body]
pub struct ExDecodeError(base64::DecodeError);

/// A character of the URL-safe base64 alphabet.
pub open spec fn is_b64url_char(c: char) -> bool {
    ('A' <= c <= 'Z') || ('a' <= c <= 'z') || ('0' <= c <= '9') || c == '-' || c == '_'
}

/// Relies on base64's `URL_SAFE_NO_PAD.encode`: the unpadded URL-safe
/// base64 text of the bytes, made of the alphabet `A-Za-z0-9-_` alone and
/// empty only for no bytes.
#[verifier::external_body]
fn b64url_encode(b: &[u8]) -> (r: String)
    ensures
        r@ == b64url_encoded(b@),
        forall|i: int| 0 <= i < r@.len() ==> is_b64url_char(#[trigger] r@[i]),
        r@.len() == 0 <==> b@.len() == 0,
{
    base64::engine::general_purpose::URL_SAFE_NO_PAD.encode(b)
}

/// Relies on base64's `URL_SAFE_NO_PAD.decode`, which accepts only the
/// canonical unpadded encoding (no trailing bits, no padding): it succeeds
/// exactly on the texts that `encode` yields, and gives back those bytes.
#[verifier::external_body]
fn b64url_decode(s: &str) -> (r: Result<Vec<u8>, base64::DecodeError>)
    ensures
        r is Ok ==> b64url_encoded(r->Ok_0@) == s@,
        forall|b: Seq<u8>| #[trigger] b64url_encoded(b) == s@ ==> (r is Ok && r->Ok_0@ == b),
{
    base64::engine::general_purpose::URL_SAFE_NO_PAD.decode(s)
}

/// Relies on `String::from_utf8`: it succeeds exactly on valid UTF-8, and
/// then holds the characters that the bytes encode.
#[verifier::external_body]
fn string_from_utf8(b: Vec<u8>) -> (r: Option<String>)
    ensures
        r is Some <==> valid_utf8(b@),
        r is Some ==> r->0@ == decode_utf8(b@),
{
    String::from_utf8(b).ok()
}

pub open spec fn open_text() -> Seq<char> {
    seq!['{', '"', 'l', 'o', 'c', 'a', 'l', '_', 'p', 'o', 'r', 't', '"', ':']
}

pub open spec fn middle_text() -> Seq<char> {
    seq![',', '"', 'n', 'o', 'n', 'c', 'e', '"', ':', '"']
}

pub open spec fn close_text() -> Seq<char> {
    seq!['"', '}']
}

pub open spec fn escape_char(c: char) -> Seq<char> {
    if c == '"' || c == '\\' { seq!['\\', c] } else { seq![c] }
}

/// `s` with `"` and `\` escaped by a backslash.
pub open spec fn escaped(s: Seq<char>) -> Seq<char>
    decreases s.len(),
{
    if s.len() == 0 {
        Seq::empty()
    } else {
        escape_char(s[0]) + escaped(s.skip(1))
    }
}

/// Undoes `escaped`: a backslash must be followed by `"` or `\`.
pub open spec fn unescaped(u: Seq<char>) -> Option<Seq<char>>
    decreases u.len(),
{
    if u.len() == 0 {
        Some(Seq::empty())
    } else if u[0] != '\\' {
        match unescaped(u.skip(1)) {
            Some(r) => Some(seq![u[0]] + r),
            None => None,
        }
    } else if u.len() >= 2 && (u[1] == '"' || u[1] == '\\') {
        match unescaped(u.skip(2)) {
            Some(r) => Some(seq![u[1]] + r),
            None => None,
        }
    } else {
        None
    }
}

/// The compact text form of a state.
pub open spec fn state_text(v: StateView) -> Seq<char> {
    open_text() + decimal(v.local_port as nat) + middle_text() + escaped(v.nonce) + close_text()
}

/// The token that carries a state.
pub open spec fn state_token(v: StateView) -> Seq<char> {
    b64url_encoded(encode_utf8(state_text(v)))
}

proof fn lemma_unescape_escaped(s: Seq<char>)
    ensures
        unescaped(escaped(s)) == Some(s),
    decreases s.len(),
{
    if s.len() > 0 {
        lemma_unescape_escaped(s.skip(1));
        let e = escape_char(s[0]);
        let u = escaped(s);
        assert(u =~= e + escaped(s.skip(1)));
        assert(u.skip(e.len() as int) =~= escaped(s.skip(1)));
        assert(seq![s[0]] + s.skip(1) =~= s);
    } else {
        assert(escaped(s) =~= Seq::<char>::empty());
    }
}

proof fn lemma_escaped_skip(s: Seq<char>, i: int)
    requires
        0 <= i < s.len(),
    ensures
        escaped(s.skip(i)) == escape_char(s[i]) + escaped(s.skip(i + 1)),
{
    assert(s.skip(i).skip(1) =~= s.skip(i + 1));
}

fn push_escaped(out: &mut String, s: &str)
    ensures
        final(out)@ == old(out)@ + escaped(s@),
{
    let cs = chars_of(s);
    let mut i: usize = 0;
    assert(s@.skip(0) =~= s@);
    while i < cs.len()
        invariant
            i <= cs@.len(),
            cs@ == s@,
            out@ + escaped(s@.skip(i as int)) == old(out)@ + escaped(s@),
        decreases cs@.len() - i,
    {
        proof {
            lemma_escaped_skip(s@, i as int);
            reveal_strlit("\\\"");
            reveal_strlit("\\\\");
        }
        let c = cs[i];
        if c == '"' {
            out.append("\\\"");
        } else if c == '\\' {
            out.append("\\\\");
        } else {
            let one = s.substring_char(i, i + 1);
            assert(one@ =~= seq![c]);
            out.append(one);
        }
        assert(out@ + escaped(s@.skip(i + 1)) =~= old(out)@ + escaped(s@));
        i = i + 1;
    }
    assert(s@.skip(i as int) =~= Seq::<char>::empty());
    assert(escaped(s@.skip(i as int)) =~= Seq::<char>::empty());
    assert(out@ =~= old(out)@ + escaped(s@));
}

/// The compact text form of `sd`.
pub fn state_text_of(sd: &StateData) -> (r: String)
    ensures
        r@ == state_text(sd@),
{
    let mut r = String::new();
    proof {
        reveal_strlit("{\"local_port\":");
        reveal_strlit(",\"nonce\":\"");
        reveal_strlit("\"}");
    }
    r.append("{\"local_port\":");
    push_decimal(&mut r, sd.local_port as u64);
    r.append(",\"nonce\":\"");
    push_escaped(&mut r, sd.nonce.as_str());
    r.append("\"}");
    assert(r@ =~= state_text(sd@));
    r
}


pub open spec fn prepend_opt(p: Seq<char>, o: Option<Seq<char>>) -> Option<Seq<char>> {
    match o {
        Some(r) => Some(p + r),
        None => None,
    }
}

/// The shape of a state's text: where each part stands.
proof fn lemma_text_shape(v: StateView)
    ensures
        ({
            let t = state_text(v);
            let d = decimal(v.local_port as nat);
            let l = d.len() as int;
            &&& l > 0
            &&& all_digits(d)
            &&& digits_value(d) == v.local_port
            &&& t.len() == 26 + l + escaped(v.nonce).len()
            &&& t.subrange(0, 14) == open_text()
            &&& t.subrange(14, 14 + l) == d
            &&& (forall|k: int| 14 <= k < 14 + l ==> is_digit(#[trigger] t[k]))
            &&& t[14 + l] == ','
            &&& t.subrange(14 + l, 24 + l) == middle_text()
            &&& t.subrange(t.len() - 2, t.len() as int) == close_text()
            &&& t.subrange(24 + l, t.len() - 2) == escaped(v.nonce)
        }),
{
    let t = state_text(v);
    let d = decimal(v.local_port as nat);
    let l = d.len() as int;
    let e = escaped(v.nonce);
    lemma_decimal(v.local_port as nat);
    assert(t =~= open_text() + d + middle_text() + e + close_text());
    assert(t.subrange(0, 14) =~= open_text());
    assert(t.subrange(14, 14 + l) =~= d);
    assert forall|k: int| 14 <= k < 14 + l implies is_digit(#[trigger] t[k]) by {
        assert(t[k] == d[k - 14]);
    }
    assert(t.subrange(14 + l, 24 + l) =~= middle_text());
    assert(t.subrange(t.len() - 2, t.len() as int) =~= close_text());
    assert(t.subrange(24 + l, t.len() - 2) =~= e);
}

/// Two states with the same text are the same state.
pub proof fn lemma_state_text_injective(a: StateView, b: StateView)
    requires
        state_text(a) == state_text(b),
    ensures
        a == b,
{
    lemma_text_shape(a);
    lemma_text_shape(b);
    let t = state_text(a);
    let la = decimal(a.local_port as nat).len() as int;
    let lb = decimal(b.local_port as nat).len() as int;
    if la < lb {
        assert(is_digit(t[14 + la]));
    }
    if lb < la {
        assert(is_digit(t[14 + lb]));
    }
    assert(la == lb);
    lemma_unescape_escaped(a.nonce);
    lemma_unescape_escaped(b.nonce);
}

/// Whether `lit` stands in `cs` at `pos`.
fn has_at(cs: &Vec<char>, pos: usize, lit: &str) -> (r: bool)
    requires
        pos <= cs@.len(),
    ensures
        r == (pos + lit@.len() <= cs@.len() && cs@.subrange(pos as int, pos + lit@.len()) == lit@),
{
    let ls = chars_of(lit);
    let cl = cs.len();
    if ls.len() > cl - pos {
        return false;
    }
    let mut i: usize = 0;
    while i < ls.len()
        invariant
            ls@ == lit@,
            cl == cs@.len(),
            pos <= cs@.len(),
            pos + ls@.len() <= cs@.len(),
            i <= ls@.len(),
            forall|k: int| 0 <= k < i ==> cs@[pos + k] == ls@[k],
        decreases ls@.len() - i,
    {
        if cs[pos + i] != ls[i] {
            assert(cs@.subrange(pos as int, pos + lit@.len())[i as int] != lit@[i as int]);
            return false;
        }
        i = i + 1;
    }
    assert(cs@.subrange(pos as int, pos + lit@.len()) =~= lit@);
    true
}

/// Undoes the escaping of `cs[from..to]`, where `cs` holds the characters of `t`.
fn unescape_range(cs: &Vec<char>, t: &str, from: usize, to: usize) -> (r: Option<String>)
    requires
        cs@ == t@,
        from <= to <= cs@.len(),
    ensures
        r is Some <==> unescaped(cs@.subrange(from as int, to as int)) is Some,
        r is Some ==> r->0@ == unescaped(cs@.subrange(from as int, to as int))->0,
{
    let ghost u = cs@.subrange(from as int, to as int);
    let mut out = String::new();
    let mut k: usize = from;
    assert(u.skip(0) =~= u);
    assert(out@ + Seq::<char>::empty() =~= Seq::<char>::empty());
    while k < to
        invariant
            cs@ == t@,
            from <= k <= to <= cs@.len(),
            u == cs@.subrange(from as int, to as int),
            unescaped(u) == prepend_opt(out@, unescaped(u.skip(k - from))),
        decreases to - k,
    {
        let ghost w = u.skip(k - from);
        assert(w[0] == cs@[k as int]);
        if cs[k] != '\\' {
            let one = t.substring_char(k, k + 1);
            assert(w.skip(1) =~= u.skip(k + 1 - from));
            assert(out@ + (one@ + Seq::<char>::empty()) =~= out@ + one@);
            assert(one@ =~= seq![w[0]]);
            proof {
                match unescaped(w.skip(1)) {
                    Some(x) => { assert(out@ + (seq![w[0]] + x) =~= (out@ + seq![w[0]]) + x); }
                    None => {}
                }
            }
            out.append(one);
            k = k + 1;
        } else if k + 1 < to && (cs[k + 1] == '"' || cs[k + 1] == '\\') {
            assert(w[1] == cs@[k + 1]);
            let one = t.substring_char(k + 1, k + 2);
            assert(w.skip(2) =~= u.skip(k + 2 - from));
            assert(one@ =~= seq![w[1]]);
            proof {
                match unescaped(w.skip(2)) {
                    Some(x) => { assert(out@ + (seq![w[1]] + x) =~= (out@ + seq![w[1]]) + x); }
                    None => {}
                }
            }
            out.append(one);
            k = k + 2;
        } else {
            return None;
        }
    }
    assert(u.skip(k - from) =~= Seq::<char>::empty());
    assert(out@ + Seq::<char>::empty() =~= out@);
    Some(out)
}

/// Reads a state back from its compact text form. Only the exact text
/// that `state_text_of` writes is accepted.
pub fn parse_state_text(t: &str) -> (r: Option<StateData>)
    ensures
        r is Some ==> state_text(r->0@) == t@,
        forall|v: StateView| #[trigger] state_text(v) == t@ ==> (r is Some && r->0@ == v),
{
    let ghost found: Option<StateView> = if exists|v: StateView| state_text(v) == t@ {
        Some(choose|v: StateView| state_text(v) == t@)
    } else {
        None
    };
    let ghost l: int = 0;
    proof {
        reveal_strlit("{\"local_port\":");
        reveal_strlit(",\"nonce\":\"");
        reveal_strlit("\"}");
        if let Some(v) = found {
            lemma_text_shape(v);
            l = decimal(v.local_port as nat).len() as int;
        }
    }
    let r = parse_state_text_found(t, Ghost(found), Ghost(l));
    proof {
        assert forall|v: StateView| #[trigger] state_text(v) == t@ implies (r is Some && r->0@ == v) by {
            lemma_state_text_injective(r->0@, v);
        }
    }
    r
}

fn parse_state_text_found(t: &str, Ghost(found): Ghost<Option<StateView>>, Ghost(l): Ghost<int>) -> (r: Option<StateData>)
    requires
        found is Some ==> ({
            let v = found->0;
            let tt = state_text(v);
            let d = decimal(v.local_port as nat);
            &&& tt == t@
            &&& l == d.len()
            &&& l > 0
            &&& all_digits(d)
            &&& digits_value(d) == v.local_port
            &&& tt.len() == 26 + l + escaped(v.nonce).len()
            &&& tt.subrange(0, 14) == open_text()
            &&& tt.subrange(14, 14 + l) == d
            &&& (forall|k: int| 14 <= k < 14 + l ==> is_digit(#[trigger] tt[k]))
            &&& tt[14 + l] == ','
            &&& tt.subrange(14 + l, 24 + l) == middle_text()
            &&& tt.subrange(tt.len() - 2, tt.len() as int) == close_text()
            &&& tt.subrange(24 + l, tt.len() - 2) == escaped(v.nonce)
        }),
    ensures
        r is Some ==> state_text(r->0@) == t@,
        found is Some ==> r is Some,
{
    proof {
        reveal_strlit("{\"local_port\":");
        reveal_strlit(",\"nonce\":\"");
        reveal_strlit("\"}");
        assert(open_text() =~= "{\"local_port\":"@);
        assert(middle_text() =~= ",\"nonce\":\""@);
        assert(close_text() =~= "\"}"@);
    }
    let cs = chars_of(t);
    let n = cs.len();
    if n < 14 || !has_at(&cs, 0, "{\"local_port\":") {
        return None;
    }
    let mut j: usize = 14;
    while j < n && '0' <= cs[j] && cs[j] <= '9'
        invariant
            14 <= j <= n,
            n == cs@.len(),
            cs@ == t@,
            found is Some ==> j <= 14 + l,
            found is Some ==> (forall|k: int| 14 <= k < 14 + l ==> is_digit(#[trigger] t@[k])),
            found is Some ==> t@[14 + l] == ',',
            found is Some ==> 14 + l < n,
        decreases n - j,
    {
        j = j + 1;
    }
    proof {
        if found is Some {
            if j < 14 + l {
                assert(is_digit(t@[j as int]));
            }
        }
    }
    let port: u16 = match digits_at_most(&cs, 14, j, 65535) {
        Some(p) => p as u16,
        None => { return None; },
    };
    if n - j < 12 || !has_at(&cs, j, ",\"nonce\":\"") {
        return None;
    }
    let start = j + 10;
    if !has_at(&cs, n - 2, "\"}") {
        return None;
    }
    let nonce = match unescape_range(&cs, t, start, n - 2) {
        Some(s) => s,
        None => {
            proof {
                if let Some(v) = found {
                    lemma_unescape_escaped(v.nonce);
                }
            }
            return None;
        },
    };
    let sd = StateData { local_port: port, nonce };
    let text = state_text_of(&sd);
    let same = text == t.to_owned();
    proof {
        if let Some(v) = found {
            lemma_unescape_escaped(v.nonce);
            assert(sd@ == v);
        }
    }
    if same {
        Some(sd)
    } else {
        None
    }
}

/// Encodes `sd` as a token that can stand verbatim as a query-parameter
/// value: it is non-empty and uses the URL-safe base64 alphabet alone.
pub fn encode_state(sd: &StateData) -> (r: String)
    ensures
        r@ == state_token(sd@),
        r@.len() > 0,
        forall|i: int| 0 <= i < r@.len() ==> is_b64url_char(#[trigger] r@[i]),
{
    let text = state_text_of(sd);
    proof {
        assert(state_text(sd@).len() > 0);
        assert(encode_utf8(state_text(sd@)).len() > 0) by {
            vstd::utf8::encode_utf8_first_scalar(state_text(sd@));
        }
    }
    b64url_encode(text.as_str().as_bytes())
}

/// Decodes a token. It succeeds exactly on the tokens that `encode_state`
/// yields, and then gives back the state that was encoded; anything else
/// is `MalformedState`.
pub fn decode_state(token: &str) -> (r: Result<StateData, StateError>)
    ensures
        r is Ok ==> state_token(r->Ok_0@) == token@,
        r is Err ==> r == Err::<StateData, StateError>(StateError::MalformedState),
        forall|v: StateView| #[trigger] state_token(v) == token@ ==> (r is Ok && r->Ok_0@ == v),
{
    let bytes = match b64url_decode(token) {
        Ok(b) => b,
        Err(_) => { return Err(StateError::MalformedState); },
    };
    let ghost bs = bytes@;
    let text = match string_from_utf8(bytes) {
        Some(s) => s,
        None => {
            proof {
                assert forall|v: StateView| #[trigger] state_token(v) == token@ implies false by {
                    encode_utf8_valid_utf8(state_text(v));
                }
            }
            return Err(StateError::MalformedState);
        },
    };
    proof {
        assert forall|v: StateView| #[trigger] state_token(v) == token@ implies text@ == state_text(v) by {
            encode_utf8_decode_utf8(state_text(v));
        }
    }
    match parse_state_text(text.as_str()) {
        Some(sd) => {
            proof {
                vstd::utf8::decode_utf8_encode_utf8(bs);
            }
            Ok(sd)
        },
        None => Err(StateError::MalformedState),
    }
}

} // verus!
