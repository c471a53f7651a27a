//! ChatGPT Plus/Pro OAuth: the decisions of the browser (PKCE) and the
//! device-code login, the callback request handling, the token refresh and
//! the account id carried in the tokens' JWT claims.
//!
//! The network, the browser and the callback socket are driven by the
//! caller; every decision about what they send or received is made here.
use vstd::prelude::*;

use base64::Engine;
use rand::RngCore;
use sha2::Digest;

use crate::auth::provider::{
    AuthDomainError, AuthError, AuthLoginMethod, AuthProvider, AuthSession, expired_at,
};
use crate::clock::unix_timestamp_secs;
use crate::text::{
    chars_of, concat2, concat3, decimal, has_prefix, owned, parse_u16, parse_u64, parse_unsigned,
    split_words, str_eq, string_of, trim, trim_str, u64_decimal, words, byte_len, lemma_encode_len,
};

verus! {

/// Session lifetime assumed when the token endpoint gives no `expires_in`.
pub const DEFAULT_SESSION_LIFETIME_SECS: u64 = 3600;
pub const DEFAULT_CLIENT_ID: &'static str = "app_EMoamEEZ73f0CkXaXp7hrann";
pub const DEFAULT_ISSUER: &'static str = "https://auth.openai.com";
pub const DEFAULT_CALLBACK_PORT: u16 = 1455;
pub const OAUTH_CALLBACK_PATH: &'static str = "/auth/callback";
pub const OAUTH_CALLBACK_TIMEOUT_SECS: u64 = 300;
pub const DEVICE_LOGIN_TIMEOUT_SECS: u64 = 600;
pub const DEVICE_POLLING_SAFETY_MARGIN_MS: u64 = 3000;
pub const USER_AGENT: &'static str = "maky-cli/0.1.0";
pub const PROVIDER_ID: &'static str = "chatgpt-oauth";

// ---------------------------------------------------------------------------
// Callback request
// ---------------------------------------------------------------------------

/// Position of the first `\n` in `s`, or its length.
pub open spec fn newline_pos(s: Seq<char>) -> nat
    decreases s.len(),
{
    if s.len() == 0 || s[0] == '\n' {
        0
    } else {
        1 + newline_pos(s.drop_first())
    }
}

/// The first line of `s` as `str::lines` yields it: up to the first `\n`,
/// without a `\r` that ends it; empty text has an empty first line.
pub open spec fn first_line(s: Seq<char>) -> Seq<char> {
    let k = newline_pos(s) as int;
    let line = s.take(k);
    if k < s.len() && k > 0 && line.last() == '\r' {
        line.drop_last()
    } else {
        line
    }
}

pub proof fn lemma_newline_pos_is(s: Seq<char>, n: nat)
    requires
        n <= s.len(),
        forall|i: int| 0 <= i < n ==> #[trigger] s[i] != '\n',
        n < s.len() ==> s[n as int] == '\n',
    ensures
        newline_pos(s) == n,
    decreases n,
{
    if n > 0 {
        let t = s.drop_first();
        assert forall|i: int| 0 <= i < n - 1 implies #[trigger] t[i] != '\n' by {
            assert(t[i] == s[i + 1]);
        }
        if n - 1 < t.len() {
            assert(t[n - 1] == s[n as int]);
        }
        lemma_newline_pos_is(t, (n - 1) as nat);
        assert(s[0] != '\n');
    }
}

/// The first line of a request.
fn request_first_line(request: &str) -> (r: Vec<char>)
    ensures
        r@ == first_line(request@),
{
    let v = chars_of(request);
    let n = v.len();
    let mut k: usize = 0;
    while k < n && v[k] != '\n'
        invariant
            k <= n,
            n == v@.len(),
            forall|i: int| 0 <= i < k ==> #[trigger] v@[i] != '\n',
        decreases n - k,
    {
        k = k + 1;
    }
    proof {
        lemma_newline_pos_is(v@, k as nat);
    }
    let mut line: Vec<char> = Vec::new();
    let mut i: usize = 0;
    while i < k
        invariant
            i <= k <= n,
            n == v@.len(),
            line@ == v@.take(i as int),
        decreases k - i,
    {
        line.push(v[i]);
        i = i + 1;
        assert(line@ =~= v@.take(i as int));
    }
    if k < n && k > 0 && line[k - 1] == '\r' {
        line.pop();
        assert(line@ =~= v@.take(k as int).drop_last());
    }
    line
}

/// A response the callback server writes back to the browser.
#[derive(Debug, Clone, PartialEq, Eq)]
pub struct HttpResponse {
    pub status_code: u16,
    pub title: String,
    pub body: String,
}

/// The HTML page of a callback response.
pub open spec fn spec_response_html(title: Seq<char>, body: Seq<char>) -> Seq<char> {
    "<!doctype html><html><head><title>"@ + title + "</title></head><body><h1>"@ + title
        + "</h1><p>"@ + body + "</p></body></html>"@
}

/// The HTTP/1.1 text of a callback response; the length header counts the
/// UTF-8 bytes of the page.
pub open spec fn spec_response_text(status: u16, title: Seq<char>, body: Seq<char>) -> Seq<char> {
    let html = spec_response_html(title, body);
    "HTTP/1.1 "@ + decimal(status as nat)
        + "\r\nContent-Type: text/html; charset=utf-8\r\nContent-Length: "@ + decimal(
        byte_len(html),
    ) + "\r\nConnection: close\r\n\r\n"@ + html
}

impl HttpResponse {
    pub open spec fn spec_text(self) -> Seq<char> {
        spec_response_text(self.status_code, self.title@, self.body@)
    }

    /// The text written to the socket.
    pub fn to_http_text(&self) -> (r: String)
        requires
            byte_len(spec_response_html(self.title@, self.body@)) <= usize::MAX,
        ensures
            r@ == self.spec_text(),
    {
        let mut html = concat3(
            "<!doctype html><html><head><title>",
            self.title.as_str(),
            "</title></head><body><h1>",
        );
        html.append(self.title.as_str());
        html.append("</h1><p>");
        html.append(self.body.as_str());
        html.append("</p></body></html>");
        assert(html@ =~= spec_response_html(self.title@, self.body@));
        let len = html.as_str().len();
        proof {
            lemma_encode_len(html@);
            assert(len == byte_len(html@));
        }
        let status = u64_decimal(self.status_code as u64);
        let length = u64_decimal(len as u64);
        let mut r = concat3(
            "HTTP/1.1 ",
            status.as_str(),
            "\r\nContent-Type: text/html; charset=utf-8\r\nContent-Length: ",
        );
        r.append(length.as_str());
        r.append("\r\nConnection: close\r\n\r\n");
        r.append(html.as_str());
        r
    }
}

/// `url::Url::parse` accepts the text.
pub uninterp spec fn url_parses(text: Seq<char>) -> bool;

/// `Url::path` of the URL that `Url::parse` reads from the text.
pub uninterp spec fn url_path(text: Seq<char>) -> Seq<char>;

/// `Url::query_pairs` of the URL that `Url::parse` reads from the text,
/// each pair percent-decoded, in their order in the query.
pub uninterp spec fn url_query_pairs(text: Seq<char>) -> Seq<(Seq<char>, Seq<char>)>;

pub open spec fn pair_views(pairs: Seq<(String, String)>) -> Seq<(Seq<char>, Seq<char>)> {
    Seq::new(pairs.len(), |i: int| (pairs[i].0@, pairs[i].1@))
}

/// Parses a URL with `url::Url::parse` and hands out its path and its
/// decoded query pairs.
#[verifier::external_body]
fn parse_url_parts(text: &str) -> (r: Option<(String, Vec<(String, String)>)>)
    ensures
        r is Some <==> url_parses(text@),
        r matches Some(p) ==> p.0@ == url_path(text@) && pair_views(p.1@) == url_query_pairs(
            text@,
        ),
{
    match url::Url::parse(text) {
        Ok(url) => Some((url.path().to_string(), url.query_pairs().into_owned().collect())),
        Err(_) => None,
    }
}

/// The value of `key` in query pairs collected into a map: the last pair
/// with that name wins.
pub open spec fn query_value(pairs: Seq<(Seq<char>, Seq<char>)>, key: Seq<char>) -> Option<
    Seq<char>,
>
    decreases pairs.len(),
{
    if pairs.len() == 0 {
        None
    } else if pairs.last().0 == key {
        Some(pairs.last().1)
    } else {
        query_value(pairs.drop_last(), key)
    }
}

fn lookup_query(pairs: &Vec<(String, String)>, key: &str) -> (r: Option<String>)
    ensures
        r matches Some(v) ==> query_value(pair_views(pairs@), key@) == Some(v@),
        r is None ==> query_value(pair_views(pairs@), key@) is None,
{
    let mut found: Option<String> = None;
    let mut i: usize = 0;
    while i < pairs.len()
        invariant
            i <= pairs@.len(),
            found matches Some(v) ==> query_value(pair_views(pairs@).take(i as int), key@) == Some(
                v@,
            ),
            found is None ==> query_value(pair_views(pairs@).take(i as int), key@) is None,
        decreases pairs@.len() - i,
    {
        proof {
            let pv = pair_views(pairs@);
            assert(pv.take(i + 1).drop_last() =~= pv.take(i as int));
            assert(pv.take(i + 1).last() == pv[i as int]);
        }
        if str_eq(pairs[i].0.as_str(), key) {
            found = Some(pairs[i].1.clone());
        }
        i = i + 1;
    }
    assert(pair_views(pairs@).take(i as int) =~= pair_views(pairs@));
    found
}

/// What the callback server does with one request: the response it writes
/// (if any) and the outcome for the login (`Ok(None)` keeps listening,
/// `Ok(Some(code))` ends it with the authorization code, `Err` fails it).
#[derive(Debug)]
pub struct CallbackReply {
    pub response: Option<HttpResponse>,
    pub outcome: Result<Option<String>, AuthError>,
}

pub open spec fn reply_view(r: CallbackReply) -> (
    Option<(u16, Seq<char>, Seq<char>)>,
    Result<Option<Seq<char>>, Seq<char>>,
) {
    (
        match r.response {
            Some(h) => Some((h.status_code, h.title@, h.body@)),
            None => None,
        },
        match r.outcome {
            Ok(Some(c)) => Ok(Some(c@)),
            Ok(None) => Ok(None),
            Err(e) => Err(e.message@),
        },
    )
}

/// The reply to a callback on the right path, decided by its query.
pub open spec fn spec_query_reply(q: Seq<(Seq<char>, Seq<char>)>, expected_state: Seq<char>) -> (
    Option<(u16, Seq<char>, Seq<char>)>,
    Result<Option<Seq<char>>, Seq<char>>,
) {
    if query_value(q, "error"@) is Some {
        let description = match query_value(q, "error_description"@) {
            Some(d) => d,
            None => query_value(q, "error"@)->0,
        };
        (
            Some((400, "OAuth Failed"@, "OAuth failed: "@ + description)),
            Err("oauth callback returned error: "@ + description),
        )
    } else if query_value(q, "state"@) is None {
        (
            Some((400, "OAuth Failed"@, "Missing callback state value"@)),
            Err("oauth callback missing state parameter"@),
        )
    } else if query_value(q, "state"@)->0 != expected_state {
        (
            Some((400, "OAuth Failed"@, "Invalid callback state. Please retry login."@)),
            Err("oauth callback state mismatch"@),
        )
    } else if query_value(q, "code"@) is None {
        (
            Some((400, "OAuth Failed"@, "Missing authorization code from callback"@)),
            Err("oauth callback missing authorization code"@),
        )
    } else {
        (
            Some(
                (
                    200,
                    "Authorization Successful"@,
                    "Authorization completed. You can close this tab and return to maky-cli."@,
                ),
            ),
            Ok(query_value(q, "code"@)),
        )
    }
}

/// The reply to one callback request.
///
/// Empty input means the browser closed the connection: nothing is written
/// and the server keeps listening. Only `GET` is served; the target is read
/// as a URL on `http://localhost`, and only the callback path is answered.
pub open spec fn spec_callback_reply(request: Seq<char>, expected_state: Seq<char>) -> (
    Option<(u16, Seq<char>, Seq<char>)>,
    Result<Option<Seq<char>>, Seq<char>>,
) {
    let w = words(first_line(request));
    let method = if w.len() > 0 { w[0] } else { Seq::<char>::empty() };
    let target = if w.len() > 1 { w[1] } else { "/"@ };
    let url = "http://localhost"@ + target;
    if request.len() == 0 {
        (None, Ok(None))
    } else if method != "GET"@ {
        (Some((405, "Method Not Allowed"@, "Unsupported request method"@)), Ok(None))
    } else if !url_parses(url) {
        (None, Err("failed to parse callback request URL"@))
    } else if url_path(url) != OAUTH_CALLBACK_PATH@ {
        (Some((404, "Not Found"@, "OAuth callback endpoint not found"@)), Ok(None))
    } else {
        spec_query_reply(url_query_pairs(url), expected_state)
    }
}

/// A callback gives out an authorization code only for a `GET` of the
/// callback path that carries no error and the expected state.
pub proof fn law_callback_code_needs_matching_state(request: Seq<char>, expected_state: Seq<char>)
    ensures
        ({
            let w = words(first_line(request));
            let target = if w.len() > 1 { w[1] } else { "/"@ };
            let url = "http://localhost"@ + target;
            spec_callback_reply(request, expected_state).1 matches Ok(Some(code)) ==> {
                &&& w.len() > 0 && w[0] == "GET"@
                &&& url_parses(url) && url_path(url) == OAUTH_CALLBACK_PATH@
                &&& query_value(url_query_pairs(url), "error"@) is None
                &&& query_value(url_query_pairs(url), "state"@) == Some(expected_state)
                &&& query_value(url_query_pairs(url), "code"@) == Some(code)
            }
        }),
{
    let w = words(first_line(request));
    let target = if w.len() > 1 { w[1] } else { "/"@ };
    let url = "http://localhost"@ + target;
    let method = if w.len() > 0 { w[0] } else { Seq::<char>::empty() };
    let r = spec_callback_reply(request, expected_state);
    if r.1 matches Ok(Some(code)) {
        assert(request.len() != 0);
        assert(method == "GET"@);
        reveal_strlit("GET");
        assert(w.len() > 0);
        assert(url_parses(url) && url_path(url) == OAUTH_CALLBACK_PATH@);
        let q = url_query_pairs(url);
        assert(r == spec_query_reply(q, expected_state));
        assert(query_value(q, "error"@) is None);
        assert(query_value(q, "state"@) == Some(expected_state));
    }
}

fn reply(status_code: u16, title: &str, body: String, outcome: Result<Option<String>, AuthError>) -> (r:
    CallbackReply)
    ensures
        r.response == Some(HttpResponse { status_code, title: r.response->0.title, body }),
        r.response->0.title@ == title@,
        r.outcome == outcome,
{
    CallbackReply {
        response: Some(HttpResponse { status_code, title: owned(title), body }),
        outcome,
    }
}

fn query_reply(pairs: &Vec<(String, String)>, expected_state: &str) -> (r: CallbackReply)
    ensures
        reply_view(r) == spec_query_reply(pair_views(pairs@), expected_state@),
{
    let ghost q = pair_views(pairs@);
    if let Some(error) = lookup_query(pairs, "error") {
        let description = match lookup_query(pairs, "error_description") {
            Some(d) => d,
            None => error,
        };
        let r = reply(
            400,
            "OAuth Failed",
            concat2("OAuth failed: ", description.as_str()),
            Err(AuthError { message: concat2("oauth callback returned error: ", description.as_str()) }),
        );
        return r;
    }
    let state = match lookup_query(pairs, "state") {
        Some(s) => s,
        None => {
            return reply(
                400,
                "OAuth Failed",
                owned("Missing callback state value"),
                Err(AuthError::new("oauth callback missing state parameter")),
            );
        },
    };
    if !str_eq(state.as_str(), expected_state) {
        return reply(
            400,
            "OAuth Failed",
            owned("Invalid callback state. Please retry login."),
            Err(AuthError::new("oauth callback state mismatch")),
        );
    }
    match lookup_query(pairs, "code") {
        Some(code) => reply(
            200,
            "Authorization Successful",
            owned("Authorization completed. You can close this tab and return to maky-cli."),
            Ok(Some(code)),
        ),
        None => reply(
            400,
            "OAuth Failed",
            owned("Missing authorization code from callback"),
            Err(AuthError::new("oauth callback missing authorization code")),
        ),
    }
}

/// Decides the reply to one request received on the callback socket.
pub fn handle_callback_request(request: &str, expected_state: &str) -> (r: CallbackReply)
    ensures
        reply_view(r) == spec_callback_reply(request@, expected_state@),
{
    if request.is_empty() {
        return CallbackReply { response: None, outcome: Ok(None) };
    }
    let line = request_first_line(request);
    let w = split_words(&line);
    let method = if w.len() > 0 {
        string_of(&w[0])
    } else {
        String::new()
    };
    let target = if w.len() > 1 {
        string_of(&w[1])
    } else {
        owned("/")
    };
    proof {
        reveal_strlit("GET");
        reveal_strlit("/");
    }
    if !str_eq(method.as_str(), "GET") {
        return reply(
            405,
            "Method Not Allowed",
            owned("Unsupported request method"),
            Ok(None),
        );
    }
    let url = concat2("http://localhost", target.as_str());
    match parse_url_parts(url.as_str()) {
        None => CallbackReply {
            response: None,
            outcome: Err(AuthError::new("failed to parse callback request URL")),
        },
        Some((path, pairs)) => {
            if !str_eq(path.as_str(), OAUTH_CALLBACK_PATH) {
                reply(404, "Not Found", owned("OAuth callback endpoint not found"), Ok(None))
            } else {
                query_reply(&pairs, expected_state)
            }
        },
    }
}

// ---------------------------------------------------------------------------
// Browser login: PKCE, state token and authorize URL
// ---------------------------------------------------------------------------

/// `application/x-www-form-urlencoded` serialization of name/value pairs,
/// in their order, by `form_urlencoded::Serializer::extend_pairs`.
pub uninterp spec fn form_urlencoded_pairs(pairs: Seq<(Seq<char>, Seq<char>)>) -> Seq<char>;

/// Serializes query pairs with `url::form_urlencoded::Serializer`.
#[verifier::external_body]
fn form_urlencode(pairs: &Vec<(String, String)>) -> (r: String)
    ensures
        r@ == form_urlencoded_pairs(pair_views(pairs@)),
{
    url::form_urlencoded::Serializer::new(String::new()).extend_pairs(pairs.iter()).finish()
}

fn pair(name: &str, value: &str) -> (r: (String, String))
    ensures
        r.0@ == name@,
        r.1@ == value@,
{
    (owned(name), owned(value))
}

/// The query parameters of the authorize request, in order.
pub open spec fn authorize_query(
    client_id: Seq<char>,
    redirect_uri: Seq<char>,
    code_challenge: Seq<char>,
    state: Seq<char>,
) -> Seq<(Seq<char>, Seq<char>)> {
    seq![
        ("response_type"@, "code"@),
        ("client_id"@, client_id),
        ("redirect_uri"@, redirect_uri),
        ("scope"@, "openid profile email offline_access"@),
        ("code_challenge"@, code_challenge),
        ("code_challenge_method"@, "S256"@),
        ("id_token_add_organizations"@, "true"@),
        ("codex_cli_simplified_flow"@, "true"@),
        ("state"@, state),
        ("originator"@, "maky-cli"@),
    ]
}

/// The URL the browser opens to authorize: the issuer's authorize endpoint
/// with the PKCE challenge and the state token.
pub fn build_authorize_url(
    issuer: &str,
    client_id: &str,
    redirect_uri: &str,
    code_challenge: &str,
    state: &str,
) -> (r: String)
    ensures
        r@ == issuer@ + "/oauth/authorize?"@ + form_urlencoded_pairs(
            authorize_query(client_id@, redirect_uri@, code_challenge@, state@),
        ),
{
    let mut pairs: Vec<(String, String)> = Vec::new();
    pairs.push(pair("response_type", "code"));
    pairs.push(pair("client_id", client_id));
    pairs.push(pair("redirect_uri", redirect_uri));
    pairs.push(pair("scope", "openid profile email offline_access"));
    pairs.push(pair("code_challenge", code_challenge));
    pairs.push(pair("code_challenge_method", "S256"));
    pairs.push(pair("id_token_add_organizations", "true"));
    pairs.push(pair("codex_cli_simplified_flow", "true"));
    pairs.push(pair("state", state));
    pairs.push(pair("originator", "maky-cli"));
    assert(pair_views(pairs@) =~= authorize_query(
        client_id@,
        redirect_uri@,
        code_challenge@,
        state@,
    ));
    let query = form_urlencode(&pairs);
    concat3(issuer, "/oauth/authorize?", query.as_str())
}

/// The redirect URI of the local callback server.
pub fn callback_redirect_uri(port: u16) -> (r: String)
    ensures
        r@ == "http://localhost:"@ + decimal(port as nat) + OAUTH_CALLBACK_PATH@,
{
    let p = u64_decimal(port as u64);
    concat3("http://localhost:", p.as_str(), OAUTH_CALLBACK_PATH)
}

/// The callback port: a positive port number read from the configured
/// value, else the default port.
pub open spec fn spec_callback_port(value: Option<Seq<char>>) -> u16 {
    match value {
        Some(v) => match parse_unsigned(v, u16::MAX as nat) {
            Some(p) => if p > 0 {
                p as u16
            } else {
                DEFAULT_CALLBACK_PORT
            },
            None => DEFAULT_CALLBACK_PORT,
        },
        None => DEFAULT_CALLBACK_PORT,
    }
}

pub fn callback_port_from(value: Option<&str>) -> (r: u16)
    ensures
        r == spec_callback_port(
            match value {
                Some(v) => Some(v@),
                None => None,
            },
        ),
{
    match value {
        Some(v) => match parse_u16(v) {
            Some(p) => if p > 0 {
                p
            } else {
                DEFAULT_CALLBACK_PORT
            },
            None => DEFAULT_CALLBACK_PORT,
        },
        None => DEFAULT_CALLBACK_PORT,
    }
}

/// Base64 with the URL-safe alphabet and no padding
/// (`base64::engine::general_purpose::URL_SAFE_NO_PAD`).
pub uninterp spec fn base64_url_encoded(bytes: Seq<u8>) -> Seq<char>;

/// Decoding with `URL_SAFE_NO_PAD`: `None` where the text is no such
/// encoding.
pub uninterp spec fn base64_url_decoded(text: Seq<char>) -> Option<Seq<u8>>;

/// The SHA-256 digest (`sha2::Sha256::digest`).
pub uninterp spec fn sha256_digest(bytes: Seq<u8>) -> Seq<u8>;

/// `URL_SAFE_NO_PAD.encode`; the encoder's length computation overflows
/// only near `usize::MAX`.
#[verifier::external_body]
fn base64_url_encode(bytes: &[u8]) -> (r: String)
    requires
        bytes@.len() <= usize::MAX / 2,
    ensures
        r@ == base64_url_encoded(bytes@),
{
    base64::engine::general_purpose::URL_SAFE_NO_PAD.encode(bytes)
}

/// `URL_SAFE_NO_PAD.decode` of the text's bytes.
#[verifier::external_body]
fn base64_url_decode(text: &str) -> (r: Option<Vec<u8>>)
    ensures
        match r {
            Some(v) => base64_url_decoded(text@) == Some(v@),
            None => base64_url_decoded(text@) is None,
        },
{
    match base64::engine::general_purpose::URL_SAFE_NO_PAD.decode(text.as_bytes()) {
        Ok(bytes) => Some(bytes),
        Err(_) => None,
    }
}

/// `Sha256::digest`; its output is 32 bytes.
#[verifier::external_body]
fn sha256(bytes: &[u8]) -> (r: Vec<u8>)
    ensures
        r@ == sha256_digest(bytes@),
        r@.len() == 32,
{
    sha2::Sha256::digest(bytes).to_vec()
}

/// `n` bytes from the operating system's random source
/// (`rand::rngs::OsRng::try_fill_bytes`); `None` when the source fails.
/// Nothing is stated of the bytes but their number.
#[verifier::external_body]
fn os_random_bytes(n: usize) -> (r: Option<Vec<u8>>)
    ensures
        r matches Some(v) ==> v@.len() == n,
{
    let mut bytes = vec![0u8; n];
    match rand::rngs::OsRng.try_fill_bytes(&mut bytes) {
        Ok(()) => Some(bytes),
        Err(_) => None,
    }
}

/// A random URL-safe token: 32 random bytes, base64url-encoded; `None` when
/// the operating system's random source fails.
pub fn random_urlsafe_token() -> (r: Option<String>)
    ensures
        r matches Some(t) ==> exists|b: Seq<u8>|
            b.len() == 32 && t@ == #[trigger] base64_url_encoded(b),
{
    match os_random_bytes(32) {
        Some(bytes) => {
            let t = base64_url_encode(bytes.as_slice());
            Some(t)
        },
        None => None,
    }
}

/// The state token sent with the authorize request.
pub fn generate_state_token() -> (r: Option<String>)
    ensures
        r matches Some(t) ==> exists|b: Seq<u8>|
            b.len() == 32 && t@ == #[trigger] base64_url_encoded(b),
{
    random_urlsafe_token()
}

/// The PKCE challenge of a verifier: the base64url SHA-256 of its bytes.
pub open spec fn spec_pkce_challenge(verifier: Seq<char>) -> Seq<char> {
    base64_url_encoded(sha256_digest(vstd::utf8::encode_utf8(verifier)))
}

/// A PKCE pair `(verifier, challenge)`: a random verifier and its S256
/// challenge.
pub fn generate_pkce_pair() -> (r: Option<(String, String)>)
    ensures
        r matches Some(p) ==> {
            &&& exists|b: Seq<u8>| b.len() == 32 && p.0@ == #[trigger] base64_url_encoded(b)
            &&& p.1@ == spec_pkce_challenge(p.0@)
        },
{
    match random_urlsafe_token() {
        Some(verifier) => {
            let challenge = pkce_challenge(verifier.as_str());
            Some((verifier, challenge))
        },
        None => None,
    }
}

/// The S256 challenge of a PKCE verifier.
pub fn pkce_challenge(verifier: &str) -> (r: String)
    ensures
        r@ == spec_pkce_challenge(verifier@),
{
    let hash = sha256(verifier.as_bytes());
    base64_url_encode(hash.as_slice())
}

// ---------------------------------------------------------------------------
// JWT claims and the account id
// ---------------------------------------------------------------------------

/// Position of the first `.` in `s`, or its length.
pub open spec fn dot_pos(s: Seq<char>) -> nat
    decreases s.len(),
{
    if s.len() == 0 || s[0] == '.' {
        0
    } else {
        1 + dot_pos(s.drop_first())
    }
}

/// The second `.`-separated segment of a token (`split('.').nth(1)`).
pub open spec fn second_segment(token: Seq<char>) -> Option<Seq<char>> {
    let i = dot_pos(token) as int;
    if i >= token.len() {
        None
    } else {
        let rest = token.skip(i + 1);
        Some(rest.take(dot_pos(rest) as int))
    }
}

proof fn lemma_dot_pos_is(s: Seq<char>, n: nat)
    requires
        n <= s.len(),
        forall|i: int| 0 <= i < n ==> #[trigger] s[i] != '.',
        n < s.len() ==> s[n as int] == '.',
    ensures
        dot_pos(s) == n,
    decreases n,
{
    if n > 0 {
        let t = s.drop_first();
        assert forall|i: int| 0 <= i < n - 1 implies #[trigger] t[i] != '.' by {
            assert(t[i] == s[i + 1]);
        }
        if n - 1 < t.len() {
            assert(t[n - 1] == s[n as int]);
        }
        lemma_dot_pos_is(t, (n - 1) as nat);
        assert(s[0] != '.');
    }
}

/// Index of the first `.` at or after `from`, or the length.
fn next_dot(v: &Vec<char>, from: usize) -> (r: usize)
    requires
        from <= v@.len(),
    ensures
        from <= r <= v@.len(),
        dot_pos(v@.skip(from as int)) == r - from,
{
    let mut k = from;
    while k < v.len() && v[k] != '.'
        invariant
            from <= k <= v@.len(),
            forall|i: int| from <= i < k ==> #[trigger] v@[i] != '.',
        decreases v@.len() - k,
    {
        k = k + 1;
    }
    proof {
        let t = v@.skip(from as int);
        assert forall|i: int| 0 <= i < k - from implies #[trigger] t[i] != '.' by {
            assert(t[i] == v@[i + from]);
        }
        if k < v@.len() {
            assert(t[k - from] == v@[k as int]);
        }
        lemma_dot_pos_is(t, (k - from) as nat);
    }
    k
}

/// The payload segment of a JWT.
pub fn jwt_payload_segment(token: &str) -> (r: Option<String>)
    ensures
        match r {
            Some(p) => second_segment(token@) == Some(p@),
            None => second_segment(token@) is None,
        },
{
    let v = chars_of(token);
    let i = next_dot(&v, 0);
    assert(v@.skip(0) =~= v@);
    if i >= v.len() {
        return None;
    }
    let j = next_dot(&v, i + 1);
    let mut seg: Vec<char> = Vec::new();
    let mut k = i + 1;
    while k < j
        invariant
            i + 1 <= k <= j <= v@.len(),
            seg@ == v@.subrange(i + 1, k as int),
        decreases j - k,
    {
        seg.push(v[k]);
        k = k + 1;
        assert(seg@ =~= v@.subrange(i + 1, k as int));
    }
    assert(v@.skip(i + 1).take((j - (i + 1)) as int) =~= v@.subrange(i + 1, j as int));
    Some(string_of(&seg))
}

/// The decoded bytes of a JWT's payload segment.
pub open spec fn spec_jwt_payload(token: Seq<char>) -> Option<Seq<u8>> {
    match second_segment(token) {
        Some(p) => base64_url_decoded(p),
        None => None,
    }
}

/// The JSON bytes of a JWT's claims: its second segment, base64url-decoded.
pub fn jwt_payload(token: &str) -> (r: Option<Vec<u8>>)
    ensures
        match r {
            Some(b) => spec_jwt_payload(token@) == Some(b@),
            None => spec_jwt_payload(token@) is None,
        },
{
    match jwt_payload_segment(token) {
        Some(p) => base64_url_decode(p.as_str()),
        None => None,
    }
}

/// An organization listed in the claims.
#[derive(Debug, Clone, PartialEq, Eq)]
pub struct JwtOrganization {
    pub id: String,
}

/// The claims under `https://api.openai.com/auth`.
#[derive(Debug, Clone, PartialEq, Eq)]
pub struct OpenAiAuthClaims {
    pub chatgpt_account_id: Option<String>,
}

/// The JWT claims that carry the ChatGPT account id.
#[derive(Debug, Clone, PartialEq, Eq)]
pub struct JwtClaims {
    pub chatgpt_account_id: Option<String>,
    pub organizations: Option<Vec<JwtOrganization>>,
    pub openai_auth: Option<OpenAiAuthClaims>,
}

/// The account id of one token's claims: the root claim, else the nested
/// OpenAI auth claim, else the first organization.
pub open spec fn spec_claims_account_id(c: JwtClaims) -> Option<Seq<char>> {
    if c.chatgpt_account_id is Some {
        Some(c.chatgpt_account_id->0@)
    } else if c.openai_auth is Some && c.openai_auth->0.chatgpt_account_id is Some {
        Some(c.openai_auth->0.chatgpt_account_id->0@)
    } else if c.organizations is Some && c.organizations->0@.len() > 0 {
        Some(c.organizations->0@[0].id@)
    } else {
        None
    }
}

pub open spec fn opt_str(o: Option<String>) -> Option<Seq<char>> {
    match o {
        Some(s) => Some(s@),
        None => None,
    }
}

pub fn claims_account_id(claims: &JwtClaims) -> (r: Option<String>)
    ensures
        opt_str(r) == spec_claims_account_id(*claims),
{
    if let Some(id) = &claims.chatgpt_account_id {
        return Some(id.clone());
    }
    if let Some(auth) = &claims.openai_auth {
        if let Some(id) = &auth.chatgpt_account_id {
            return Some(id.clone());
        }
    }
    if let Some(orgs) = &claims.organizations {
        if orgs.len() > 0 {
            return Some(orgs[0].id.clone());
        }
    }
    None
}

/// The account id of a token response, from the claims of its id token,
/// then those of its access token (`None` for a token whose claims could
/// not be read).
pub open spec fn spec_account_id(
    id_token_claims: Option<JwtClaims>,
    access_token_claims: Option<JwtClaims>,
) -> Option<Seq<char>> {
    let first = match id_token_claims {
        Some(c) => spec_claims_account_id(c),
        None => None,
    };
    if first is Some {
        first
    } else {
        match access_token_claims {
            Some(c) => spec_claims_account_id(c),
            None => None,
        }
    }
}

pub fn extract_account_id(
    id_token_claims: Option<JwtClaims>,
    access_token_claims: Option<JwtClaims>,
) -> (r: Option<String>)
    ensures
        opt_str(r) == spec_account_id(id_token_claims, access_token_claims),
{
    if let Some(c) = &id_token_claims {
        let id = claims_account_id(c);
        if id.is_some() {
            return id;
        }
    }
    match &access_token_claims {
        Some(c) => claims_account_id(c),
        None => None,
    }
}

// ---------------------------------------------------------------------------
// Sessions from token responses
// ---------------------------------------------------------------------------

/// The token endpoint's answer.
#[derive(Debug, Clone, PartialEq, Eq)]
pub struct TokenResponse {
    pub access_token: String,
    pub refresh_token: Option<String>,
    pub id_token: Option<String>,
    pub expires_in: Option<u64>,
}

/// Seconds until the tokens expire.
pub open spec fn lifetime(expires_in: Option<u64>) -> u64 {
    match expires_in {
        Some(s) => s,
        None => DEFAULT_SESSION_LIFETIME_SECS,
    }
}

/// The session a login yields. A login must return a refresh token that is
/// not blank.
pub fn session_from_login_tokens(
    provider_id: &str,
    tokens: TokenResponse,
    account_id: Option<String>,
    now_unix_secs: u64,
) -> (r: Result<AuthSession, AuthError>)
    requires
        now_unix_secs + lifetime(tokens.expires_in) <= u64::MAX,
    ensures
        (tokens.refresh_token is Some && trim(tokens.refresh_token->0@).len() > 0) <==> r is Ok,
        r matches Err(e) ==> e.message@ == "oauth login did not return a refresh token"@,
        r matches Ok(s) ==> {
            &&& s.provider_id@ == provider_id@
            &&& s.access_token == tokens.access_token
            &&& s.refresh_token == tokens.refresh_token
            &&& s.expires_at_unix_secs == Some((now_unix_secs + lifetime(tokens.expires_in)) as u64)
            &&& s.id_token == tokens.id_token
            &&& s.account_id == account_id
        },
{
    let refresh = match &tokens.refresh_token {
        Some(t) => {
            let trimmed = trim_str(t.as_str());
            if trimmed.as_str().is_empty() {
                return Err(AuthError::new("oauth login did not return a refresh token"));
            }
            t.clone()
        },
        None => {
            return Err(AuthError::new("oauth login did not return a refresh token"));
        },
    };
    let lifetime_secs = match tokens.expires_in {
        Some(s) => s,
        None => DEFAULT_SESSION_LIFETIME_SECS,
    };
    Ok(AuthSession {
        provider_id: owned(provider_id),
        access_token: tokens.access_token,
        refresh_token: Some(refresh),
        expires_at_unix_secs: Some(now_unix_secs + lifetime_secs),
        id_token: tokens.id_token,
        account_id,
    })
}

/// What a refresh has to do with a session: fail, nothing (`Ok(None)`, the
/// session is still valid) or call the token endpoint with the refresh
/// token (`Ok(Some(token))`).
pub open spec fn spec_refresh_plan(provider_id: Seq<char>, session: AuthSession, now: u64) -> Result<
    Option<Seq<char>>,
    Seq<char>,
> {
    if session.provider_id@ != provider_id {
        Err(
            "provider mismatch during refresh: session belongs to `"@ + session.provider_id@
                + "`, refresher is `"@ + provider_id + "`"@,
        )
    } else if !expired_at(session.expires_at_unix_secs, now) {
        Ok(None)
    } else if session.refresh_token is None {
        Err(
            "oauth session for provider `"@ + session.provider_id@
                + "` is expired and has no refresh token"@,
        )
    } else if trim(session.refresh_token->0@).len() == 0 {
        Err("refresh token cannot be empty"@)
    } else {
        Ok(Some(session.refresh_token->0@))
    }
}

pub fn refresh_plan(provider_id: &str, session: &AuthSession, now_unix_secs: u64) -> (r: Result<
    Option<String>,
    AuthError,
>)
    ensures
        match r {
            Ok(Some(t)) => spec_refresh_plan(provider_id@, *session, now_unix_secs) == Ok::<
                Option<Seq<char>>,
                Seq<char>,
            >(Some(t@)),
            Ok(None) => spec_refresh_plan(provider_id@, *session, now_unix_secs) == Ok::<
                Option<Seq<char>>,
                Seq<char>,
            >(None),
            Err(e) => spec_refresh_plan(provider_id@, *session, now_unix_secs) == Err::<
                Option<Seq<char>>,
                Seq<char>,
            >(e.message@),
        },
{
    if !str_eq(session.provider_id.as_str(), provider_id) {
        let mut m = concat3(
            "provider mismatch during refresh: session belongs to `",
            session.provider_id.as_str(),
            "`, refresher is `",
        );
        m.append(provider_id);
        m.append("`");
        return Err(AuthError { message: m });
    }
    if !session.is_expired(now_unix_secs) {
        return Ok(None);
    }
    let refresh_token = match &session.refresh_token {
        Some(t) => t.clone(),
        None => {
            let e = AuthDomainError::MissingRefreshToken { provider_id: session.provider_id.clone() };
            return Err(AuthError { message: e.message() });
        },
    };
    let trimmed = trim_str(refresh_token.as_str());
    if trimmed.as_str().is_empty() {
        return Err(AuthError::new("refresh token cannot be empty"));
    }
    Ok(Some(refresh_token))
}

/// The session that refreshed tokens make of `session` at `now`: the new
/// access token and expiry, the new refresh token, id token and account id
/// where there are (non-blank) ones, the rest kept.
pub open spec fn spec_refreshed_session(
    session: AuthSession,
    tokens: TokenResponse,
    account_id: Option<String>,
    now: u64,
) -> AuthSession {
    AuthSession {
        access_token: tokens.access_token,
        refresh_token: if tokens.refresh_token is Some && trim(tokens.refresh_token->0@).len() > 0 {
            tokens.refresh_token
        } else {
            session.refresh_token
        },
        id_token: if tokens.id_token is Some {
            tokens.id_token
        } else {
            session.id_token
        },
        account_id: if account_id is Some {
            account_id
        } else {
            session.account_id
        },
        expires_at_unix_secs: Some((now + lifetime(tokens.expires_in)) as u64),
        ..session
    }
}

/// What a ChatGPT refresh does to a session: a failure leaves it alone; a
/// session of another provider fails; one without an expiry is left alone;
/// a success at some time `now` either leaves a session that is valid then
/// alone, or gives an expired one the tokens the token endpoint returned.
pub open spec fn spec_chatgpt_refreshes(before: AuthSession, after: AuthSession, ok: bool) -> bool {
    &&& after.provider_id == before.provider_id
    &&& !ok ==> after == before
    &&& before.provider_id@ != PROVIDER_ID@ ==> !ok
    &&& before.provider_id@ == PROVIDER_ID@ && before.expires_at_unix_secs is None ==> ok && after
        == before
    &&& ok ==> exists|now: u64|
        {
            ||| #[trigger] spec_refresh_plan(PROVIDER_ID@, before, now) == Ok::<
                Option<Seq<char>>,
                Seq<char>,
            >(None) && after == before
            ||| spec_refresh_plan(PROVIDER_ID@, before, now) is Ok && exists|
                tokens: TokenResponse,
                account_id: Option<String>,
            |
                expiry_fits(now, tokens.expires_in) && after == #[trigger] spec_refreshed_session(
                    before,
                    tokens,
                    account_id,
                    now,
                )
        }
}

/// Applies the token endpoint's answer to a refreshed session: a new access
/// token, a new refresh token when one that is not blank came, the id token
/// and account id when they came (else the old ones), and a new expiry.
pub fn apply_refreshed_tokens(
    session: &mut AuthSession,
    tokens: TokenResponse,
    account_id: Option<String>,
    now_unix_secs: u64,
)
    requires
        now_unix_secs + lifetime(tokens.expires_in) <= u64::MAX,
    ensures
        final(session).provider_id == old(session).provider_id,
        final(session).access_token == tokens.access_token,
        final(session).refresh_token == (if tokens.refresh_token is Some && trim(
            tokens.refresh_token->0@,
        ).len() > 0 {
            tokens.refresh_token
        } else {
            old(session).refresh_token
        }),
        final(session).id_token == (if tokens.id_token is Some {
            tokens.id_token
        } else {
            old(session).id_token
        }),
        final(session).account_id == (if account_id is Some {
            account_id
        } else {
            old(session).account_id
        }),
        final(session).expires_at_unix_secs == Some(
            (now_unix_secs + lifetime(tokens.expires_in)) as u64,
        ),
        *final(session) == spec_refreshed_session(*old(session), tokens, account_id, now_unix_secs),
{
    let lifetime_secs = match tokens.expires_in {
        Some(s) => s,
        None => DEFAULT_SESSION_LIFETIME_SECS,
    };
    session.access_token = tokens.access_token;
    if let Some(next) = tokens.refresh_token {
        let trimmed = trim_str(next.as_str());
        if !trimmed.as_str().is_empty() {
            session.refresh_token = Some(next);
        }
    }
    if tokens.id_token.is_some() {
        session.id_token = tokens.id_token;
    }
    if account_id.is_some() {
        session.account_id = account_id;
    }
    session.expires_at_unix_secs = Some(now_unix_secs + lifetime_secs);
}

// ---------------------------------------------------------------------------
// Token endpoint and device-code login
// ---------------------------------------------------------------------------

/// A 2xx status (`http::StatusCode::is_success`).
pub open spec fn is_success(status: u16) -> bool {
    200 <= status <= 299
}

pub fn is_success_status(status: u16) -> (r: bool)
    ensures
        r == is_success(status),
{
    200 <= status && status <= 299
}

/// The error for an HTTP call that answered with a failure status.
pub fn http_failure(what: &str, status: u16, body: &str) -> (r: AuthError)
    ensures
        r.message@ == what@ + " failed with status "@ + decimal(status as nat) + ": "@ + body@,
{
    let code = u64_decimal(status as u64);
    let mut m = concat3(what, " failed with status ", code.as_str());
    m.append(": ");
    m.append(body);
    AuthError { message: m }
}

/// The token endpoint of an issuer.
pub fn token_url(issuer: &str) -> (r: String)
    ensures
        r@ == issuer@ + "/oauth/token"@,
{
    concat2(issuer, "/oauth/token")
}

/// The form that exchanges an authorization code for tokens.
pub fn authorization_code_form(
    code: &str,
    redirect_uri: &str,
    client_id: &str,
    code_verifier: &str,
) -> (r: Vec<(String, String)>)
    ensures
        pair_views(r@) == seq![
            ("grant_type"@, "authorization_code"@),
            ("code"@, code@),
            ("redirect_uri"@, redirect_uri@),
            ("client_id"@, client_id@),
            ("code_verifier"@, code_verifier@),
        ],
{
    let mut form: Vec<(String, String)> = Vec::new();
    form.push(pair("grant_type", "authorization_code"));
    form.push(pair("code", code));
    form.push(pair("redirect_uri", redirect_uri));
    form.push(pair("client_id", client_id));
    form.push(pair("code_verifier", code_verifier));
    assert(pair_views(form@) =~= seq![
        ("grant_type"@, "authorization_code"@),
        ("code"@, code@),
        ("redirect_uri"@, redirect_uri@),
        ("client_id"@, client_id@),
        ("code_verifier"@, code_verifier@),
    ]);
    form
}

/// The form that refreshes an access token.
pub fn refresh_token_form(refresh_token: &str, client_id: &str) -> (r: Vec<(String, String)>)
    ensures
        pair_views(r@) == seq![
            ("grant_type"@, "refresh_token"@),
            ("refresh_token"@, refresh_token@),
            ("client_id"@, client_id@),
        ],
{
    let mut form: Vec<(String, String)> = Vec::new();
    form.push(pair("grant_type", "refresh_token"));
    form.push(pair("refresh_token", refresh_token));
    form.push(pair("client_id", client_id));
    assert(pair_views(form@) =~= seq![
        ("grant_type"@, "refresh_token"@),
        ("refresh_token"@, refresh_token@),
        ("client_id"@, client_id@),
    ]);
    form
}

/// The endpoint that starts a device-code login.
pub fn device_usercode_url(issuer: &str) -> (r: String)
    ensures
        r@ == issuer@ + "/api/accounts/deviceauth/usercode"@,
{
    concat2(issuer, "/api/accounts/deviceauth/usercode")
}

/// The endpoint polled for the device authorization.
pub fn device_token_url(issuer: &str) -> (r: String)
    ensures
        r@ == issuer@ + "/api/accounts/deviceauth/token"@,
{
    concat2(issuer, "/api/accounts/deviceauth/token")
}

/// The redirect URI that a device authorization code is exchanged with.
pub fn device_redirect_uri(issuer: &str) -> (r: String)
    ensures
        r@ == issuer@ + "/deviceauth/callback"@,
{
    concat2(issuer, "/deviceauth/callback")
}

/// The line that tells the user where to enter the device code.
pub fn device_code_prompt(issuer: &str, user_code: &str) -> (r: String)
    ensures
        r@ == "Open "@ + issuer@ + "/codex/device and enter code: "@ + user_code@,
{
    let mut m = concat3("Open ", issuer, "/codex/device and enter code: ");
    m.append(user_code);
    m
}

/// The polling interval in seconds: the advertised interval read as a
/// number, 5 when it is not one, and at least 1.
pub open spec fn spec_interval_secs(interval: Seq<char>) -> u64 {
    let v: u64 = match parse_unsigned(interval, u64::MAX as nat) {
        Some(n) => n as u64,
        None => 5,
    };
    if v < 1 {
        1
    } else {
        v
    }
}

pub fn interval_secs(interval: &str) -> (r: u64)
    ensures
        r == spec_interval_secs(interval@),
{
    let v = match parse_u64(interval) {
        Some(n) => n,
        None => 5,
    };
    if v < 1 {
        1
    } else {
        v
    }
}

/// What a device-code login polls with.
#[derive(Debug, Clone, PartialEq, Eq)]
pub struct DevicePollingBootstrap {
    pub device_auth_id: String,
    pub user_code: String,
    /// Milliseconds between polls.
    pub interval: u64,
}

/// The polling state of a device-code login; the interval is given in
/// seconds and kept in milliseconds.
pub fn device_polling_bootstrap(device_auth_id: String, user_code: String, interval_secs: u64) -> (r:
    DevicePollingBootstrap)
    requires
        interval_secs * 1000 <= u64::MAX,
    ensures
        r.device_auth_id == device_auth_id,
        r.user_code == user_code,
        r.interval == interval_secs * 1000,
{
    DevicePollingBootstrap { device_auth_id, user_code, interval: interval_secs * 1000 }
}

/// The device-code login has waited too long: more than ten minutes.
pub fn device_login_expired(elapsed_nanos: u128) -> (r: bool)
    ensures
        r == (elapsed_nanos > DEVICE_LOGIN_TIMEOUT_SECS * 1_000_000_000),
{
    elapsed_nanos > 600_000_000_000
}

/// The browser callback has not come in time: five minutes or more.
pub fn callback_wait_expired(elapsed_nanos: u128) -> (r: bool)
    ensures
        r == (elapsed_nanos >= OAUTH_CALLBACK_TIMEOUT_SECS * 1_000_000_000),
{
    elapsed_nanos >= 300_000_000_000
}

/// What to do after one poll of the device authorization.
#[derive(Debug, Clone, PartialEq, Eq)]
pub enum DevicePollAction {
    /// Authorized: read the code and verifier from the answer and exchange them.
    Exchange,
    /// Not authorized yet: wait this many milliseconds and poll again.
    Wait(u64),
    /// The login failed.
    Fail(AuthError),
}

/// Decides on a poll's answer: a success status authorizes, 403 and 404
/// mean "not yet", anything else fails the login.
pub fn device_poll_action(status: u16, body: &str, interval_millis: u64) -> (r: DevicePollAction)
    requires
        interval_millis + DEVICE_POLLING_SAFETY_MARGIN_MS <= u64::MAX,
    ensures
        is_success(status) ==> r == DevicePollAction::Exchange,
        !is_success(status) && (status == 403 || status == 404) ==> r == DevicePollAction::Wait(
            (interval_millis + DEVICE_POLLING_SAFETY_MARGIN_MS) as u64,
        ),
        !is_success(status) && status != 403 && status != 404 ==> (r matches DevicePollAction::Fail(e)
            && e.message@ == "device authorization failed with status "@ + decimal(status as nat)
            + ": "@ + body@),
{
    if is_success_status(status) {
        DevicePollAction::Exchange
    } else if status == 403 || status == 404 {
        DevicePollAction::Wait(interval_millis + DEVICE_POLLING_SAFETY_MARGIN_MS)
    } else {
        let e = http_failure("device authorization", status, body);
        proof {
            reveal_strlit("device authorization");
            reveal_strlit(" failed with status ");
            reveal_strlit("device authorization failed with status ");
            assert(e.message@ =~= "device authorization failed with status "@ + decimal(
                status as nat,
            ) + ": "@ + body@);
        }
        DevicePollAction::Fail(e)
    }
}

/// The ChatGPT OAuth identity provider.
#[derive(Debug, Clone, Copy, Default, PartialEq, Eq)]
pub struct ChatGptOAuthProvider;

impl ChatGptOAuthProvider {
    pub fn id(&self) -> (r: &'static str)
        ensures
            r@ == PROVIDER_ID@,
    {
        PROVIDER_ID
    }

    /// What refreshing `session` needs (see `refresh_plan`), for this provider.
    pub fn refresh_plan(&self, session: &AuthSession, now_unix_secs: u64) -> (r: Result<
        Option<String>,
        AuthError,
    >)
        ensures
            match r {
                Ok(Some(t)) => spec_refresh_plan(PROVIDER_ID@, *session, now_unix_secs) == Ok::<
                    Option<Seq<char>>,
                    Seq<char>,
                >(Some(t@)),
                Ok(None) => spec_refresh_plan(PROVIDER_ID@, *session, now_unix_secs) == Ok::<
                    Option<Seq<char>>,
                    Seq<char>,
                >(None),
                Err(e) => spec_refresh_plan(PROVIDER_ID@, *session, now_unix_secs) == Err::<
                    Option<Seq<char>>,
                    Seq<char>,
                >(e.message@),
            },
    {
        refresh_plan(self.id(), session, now_unix_secs)
    }

    /// The session a login by this provider yields.
    pub fn session_from_tokens(
        &self,
        tokens: TokenResponse,
        account_id: Option<String>,
        now_unix_secs: u64,
    ) -> (r: Result<AuthSession, AuthError>)
        requires
            now_unix_secs + lifetime(tokens.expires_in) <= u64::MAX,
        ensures
            (tokens.refresh_token is Some && trim(tokens.refresh_token->0@).len() > 0) <==> r is Ok,
            r matches Err(e) ==> e.message@ == "oauth login did not return a refresh token"@,
            r matches Ok(s) ==> {
                &&& s.provider_id@ == PROVIDER_ID@
                &&& s.access_token == tokens.access_token
                &&& s.refresh_token == tokens.refresh_token
                &&& s.expires_at_unix_secs == Some(
                    (now_unix_secs + lifetime(tokens.expires_in)) as u64,
                )
                &&& s.id_token == tokens.id_token
                &&& s.account_id == account_id
            },
    {
        session_from_login_tokens(self.id(), tokens, account_id, now_unix_secs)
    }
}

/// The network side of the ChatGPT OAuth flows, carried out by the front
/// end: the browser or device-code login, the refresh call to the token
/// endpoint, and reading a JWT's claims from its payload JSON.
pub trait OAuthTransport {
    fn login_tokens(&self, method: AuthLoginMethod) -> Result<TokenResponse, AuthError>;

    fn refresh_tokens(&self, refresh_token: &str) -> Result<TokenResponse, AuthError>;

    fn jwt_claims(&self, token: &str) -> Option<JwtClaims>;
}

/// The ChatGPT OAuth provider over a transport.
#[derive(Debug, Default)]
pub struct ChatGptOAuth<T> {
    pub provider: ChatGptOAuthProvider,
    pub transport: T,
}

/// Whether tokens with this lifetime can be given an expiry from `now`.
pub open spec fn expiry_fits(now: u64, expires_in: Option<u64>) -> bool {
    now + lifetime(expires_in) <= u64::MAX
}

fn check_expiry(now: u64, tokens: &TokenResponse) -> (r: Result<(), AuthError>)
    ensures
        r is Ok <==> expiry_fits(now, tokens.expires_in),
{
    let lifetime_secs = match tokens.expires_in {
        Some(s) => s,
        None => DEFAULT_SESSION_LIFETIME_SECS,
    };
    if lifetime_secs > u64::MAX - now {
        Err(AuthError::new("token lifetime exceeds the time range"))
    } else {
        Ok(())
    }
}

impl<T: OAuthTransport> ChatGptOAuth<T> {
    /// The account id carried by the tokens' claims.
    fn account_id(&self, tokens: &TokenResponse) -> (r: Option<String>) {
        let id_claims = match &tokens.id_token {
            Some(t) => self.transport.jwt_claims(t.as_str()),
            None => None,
        };
        let access_claims = self.transport.jwt_claims(tokens.access_token.as_str());
        extract_account_id(id_claims, access_claims)
    }
}

impl<T: OAuthTransport> AuthProvider for ChatGptOAuth<T> {
    open spec fn spec_id(&self) -> Seq<char> {
        PROVIDER_ID@
    }

    fn id(&self) -> (r: &'static str) {
        self.provider.id()
    }

    /// The transport's login decides.
    open spec fn logins_succeed(&self) -> bool {
        false
    }

    /// A ChatGPT session with a usable refresh token and an expiry (which
    /// flow the transport ran is not visible in the session).
    open spec fn logs_in(&self, method: AuthLoginMethod, session: AuthSession) -> bool {
        &&& session.provider_id@ == PROVIDER_ID@
        &&& session.refresh_token matches Some(t) && trim(t@).len() > 0
        &&& session.expires_at_unix_secs is Some
    }

    /// Logs in and makes the session of the tokens that came back; a login
    /// without a usable refresh token fails.
    fn login(&self, method: AuthLoginMethod) -> (r: Result<AuthSession, AuthError>)
        ensures
            r matches Ok(s) ==> {
                &&& s.provider_id@ == PROVIDER_ID@
                &&& s.refresh_token matches Some(t) && trim(t@).len() > 0
                &&& s.expires_at_unix_secs is Some
            },
    {
        let tokens = self.transport.login_tokens(method)?;
        let account_id = self.account_id(&tokens);
        let now = unix_timestamp_secs();
        check_expiry(now, &tokens)?;
        self.provider.session_from_tokens(tokens, account_id, now)
    }

    open spec fn refreshes(&self, before: AuthSession, after: AuthSession, ok: bool) -> bool {
        spec_chatgpt_refreshes(before, after, ok)
    }

    /// Refreshes an expired session through the token endpoint; a valid
    /// session is left alone, and a failure leaves the session unchanged.
    fn refresh_if_needed(&self, session: &mut AuthSession) -> (r: Result<(), AuthError>)
        ensures
            final(session).provider_id == old(session).provider_id,
            r is Err ==> *final(session) == *old(session),
            old(session).expires_at_unix_secs is None && old(session).provider_id@ == PROVIDER_ID@
                ==> r is Ok && *final(session) == *old(session),
            old(session).provider_id@ != PROVIDER_ID@ ==> (r matches Err(e) && e.message@
                == "provider mismatch during refresh: session belongs to `"@
                + old(session).provider_id@ + "`, refresher is `"@ + PROVIDER_ID@ + "`"@),
    {
        let now = unix_timestamp_secs();
        let refresh_token = match self.provider.refresh_plan(session, now)? {
            Some(t) => t,
            None => {
                assert(spec_refresh_plan(PROVIDER_ID@, *old(session), now) == Ok::<
                    Option<Seq<char>>,
                    Seq<char>,
                >(None));
                return Ok(());
            },
        };
        assert(spec_refresh_plan(PROVIDER_ID@, *old(session), now) is Ok);
        let tokens = self.transport.refresh_tokens(refresh_token.as_str())?;
        let account_id = self.account_id(&tokens);
        check_expiry(now, &tokens)?;
        let ghost tk = tokens;
        let ghost acct = account_id;
        apply_refreshed_tokens(session, tokens, account_id, now);
        assert(*session == spec_refreshed_session(*old(session), tk, acct, now));
        assert(expiry_fits(now, tk.expires_in));
        Ok(())
    }
}

} // verus!
