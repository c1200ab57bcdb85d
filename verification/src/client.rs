//! The client configuration, its builder, and the request executor's verified
//! core: the auth header, the prepared shape of the HTTP POST, and the
//! decoding of a response body into a JSON value.

use vstd::prelude::*;
use vstd::string::{StrSliceExecFns, StringExecFns};
use vstd::utf8::encode_utf8;

use crate::encoding::{base64_chars, encode_base64, fits_base64, lemma_base64_injective};

verus! {

/// The response envelope the endpoint returns per query.  The executor hands
/// back the untyped JSON value instead of binding to this shape; the shape
/// stays available as library surface.
#[derive(Debug, Clone, PartialEq, Eq)]
pub struct SurrealHTTPResponse {
    pub time: String,
    pub status: String,
    pub result: Vec<serde_json::Value>,
}

#[verifier::external_type_specification]
#[verifier::external_body]
pub struct ExJsonValue(serde_json::Value);

#[verifier::external_type_specification]
#[verifier::external_body]
pub struct ExJsonError(serde_json::Error);

/// What a text parses to as JSON: the parsed value, or `None` where the text
/// is not a JSON document.  Parsing depends on the text alone, so the result
/// deserves a name even though stating it in full would take pages.
pub uninterp spec fn json_of(s: Seq<char>) -> Option<serde_json::Value>;

/// Relies on `serde_json::from_str::<serde_json::Value>`: whether and to
/// what a text parses depends on the text alone.
#[verifier::external_body]
fn parse_json(s: &str) -> (r: Result<serde_json::Value, serde_json::Error>)
    ensures
        r matches Ok(v) ==> json_of(s@) == Some(v),
        r is Err ==> json_of(s@) is None,
{
    serde_json::from_str(s)
}

/// A failed execution: the transport failed, or the response body did not
/// decode as JSON.  Neither is recovered from locally; both surface to the
/// caller, which never sees data from a failed call.
#[derive(Debug)]
pub enum ExecutionError {
    Transport(String),
    Decode(serde_json::Error),
}

/// The HTTP request methods the wire protocol knows.
#[derive(Debug, Clone, Copy, PartialEq, Eq, Structural)]
pub enum RequestMethod {
    GET,
    PATCH,
    POST,
    PUT,
    DELETE,
}

/// An immutable bundle of connection parameters.  Every field has a default,
/// so a built client never has an unset field.
#[derive(Debug, Clone)]
pub struct Client {
    pub host: String,
    pub port: i32,
    pub username: String,
    pub password: String,
    pub namespace: String,
    pub database: String,
}

/// Accumulates field overrides for a `Client`; `build` fills the rest in
/// with the defaults.
#[derive(Debug, Clone)]
pub struct ClientBuilder {
    pub host: Option<String>,
    pub port: Option<i32>,
    pub username: Option<String>,
    pub password: Option<String>,
    pub namespace: Option<String>,
    pub database: Option<String>,
}

/// Reserved for builder validation failures; with every field defaulted,
/// `build` never actually returns it.
#[derive(Debug, Clone, PartialEq, Eq, Structural)]
pub enum BuildError {
    UninitializedField,
}

/// The string value a built client carries for an optional string override.
pub open spec fn str_or(field: Option<String>, default: Seq<char>) -> Seq<char> {
    match field {
        Some(s) => s@,
        None => default,
    }
}

/// The port a built client carries for an optional port override.
pub open spec fn port_or(field: Option<i32>, default: i32) -> i32 {
    match field {
        Some(p) => p,
        None => default,
    }
}

/// What `build` makes of a builder: each overridden field is kept, each
/// unset field takes its default.
pub open spec fn builds_to(b: ClientBuilder, c: Client) -> bool {
    &&& c.host@ == str_or(b.host, "localhost"@)
    &&& c.port == port_or(b.port, 8000)
    &&& c.username@ == str_or(b.username, "root"@)
    &&& c.password@ == str_or(b.password, "root"@)
    &&& c.namespace@ == str_or(b.namespace, "test"@)
    &&& c.database@ == str_or(b.database, "test"@)
}

impl Default for ClientBuilder {
    /// A builder with no overrides.
    fn default() -> (r: ClientBuilder)
        ensures
            r.host is None,
            r.port is None,
            r.username is None,
            r.password is None,
            r.namespace is None,
            r.database is None,
    {
        ClientBuilder {
            host: None,
            port: None,
            username: None,
            password: None,
            namespace: None,
            database: None,
        }
    }
}

impl ClientBuilder {
    /// Overrides the host; no validation is performed.
    pub fn host(self, value: &str) -> (r: ClientBuilder)
        ensures
            r.host matches Some(v) && v@ == value@,
            r.port == self.port,
            r.username == self.username,
            r.password == self.password,
            r.namespace == self.namespace,
            r.database == self.database,
    {
        ClientBuilder { host: Some(value.to_owned()), ..self }
    }

    /// Overrides the port; no validation is performed.
    pub fn port(self, value: i32) -> (r: ClientBuilder)
        ensures
            r.port == Some(value),
            r.host == self.host,
            r.username == self.username,
            r.password == self.password,
            r.namespace == self.namespace,
            r.database == self.database,
    {
        ClientBuilder { port: Some(value), ..self }
    }

    /// Overrides the username; no validation is performed.
    pub fn username(self, value: &str) -> (r: ClientBuilder)
        ensures
            r.username matches Some(v) && v@ == value@,
            r.host == self.host,
            r.port == self.port,
            r.password == self.password,
            r.namespace == self.namespace,
            r.database == self.database,
    {
        ClientBuilder { username: Some(value.to_owned()), ..self }
    }

    /// Overrides the password; no validation is performed.
    pub fn password(self, value: &str) -> (r: ClientBuilder)
        ensures
            r.password matches Some(v) && v@ == value@,
            r.host == self.host,
            r.port == self.port,
            r.username == self.username,
            r.namespace == self.namespace,
            r.database == self.database,
    {
        ClientBuilder { password: Some(value.to_owned()), ..self }
    }

    /// Overrides the namespace; no validation is performed.
    pub fn namespace(self, value: &str) -> (r: ClientBuilder)
        ensures
            r.namespace matches Some(v) && v@ == value@,
            r.host == self.host,
            r.port == self.port,
            r.username == self.username,
            r.password == self.password,
            r.database == self.database,
    {
        ClientBuilder { namespace: Some(value.to_owned()), ..self }
    }

    /// Overrides the database; no validation is performed.
    pub fn database(self, value: &str) -> (r: ClientBuilder)
        ensures
            r.database matches Some(v) && v@ == value@,
            r.host == self.host,
            r.port == self.port,
            r.username == self.username,
            r.password == self.password,
            r.namespace == self.namespace,
    {
        ClientBuilder { database: Some(value.to_owned()), ..self }
    }

    /// Produces the client, with defaults applied for every unset field.
    /// With all fields defaulted, building always succeeds.
    pub fn build(self) -> (r: Result<Client, BuildError>)
        ensures
            r matches Ok(c) && builds_to(self, c),
    {
        let ClientBuilder { host, port, username, password, namespace, database } = self;
        Ok(Client {
            host: match host {
                Some(s) => s,
                None => "localhost".to_owned(),
            },
            port: match port {
                Some(p) => p,
                None => 8000,
            },
            username: match username {
                Some(s) => s,
                None => "root".to_owned(),
            },
            password: match password {
                Some(s) => s,
                None => "root".to_owned(),
            },
            namespace: match namespace {
                Some(s) => s,
                None => "test".to_owned(),
            },
            database: match database {
                Some(s) => s,
                None => "test".to_owned(),
            },
        })
    }
}

/// The HTTP Basic-Auth header derived from a credential pair: `"Basic "`
/// followed by the base64 encoding of the UTF-8 bytes of
/// `username:password`.
pub open spec fn auth_seq(u: Seq<char>, p: Seq<char>) -> Seq<char> {
    "Basic "@ + base64_chars(encode_utf8(u + ":"@ + p))
}

/// The user-agent header naming the library and its semantic version.
pub open spec fn user_agent_spec() -> Seq<char> {
    "dali-rs/"@ + crate::version_spec()
}

/// The full shape of one authenticated HTTP POST, ready for a transport to
/// send: method, target, headers and body.
#[derive(Debug, Clone)]
pub struct PreparedRequest {
    pub method: RequestMethod,
    pub uri: String,
    pub accept: String,
    pub authorization: String,
    pub db: String,
    pub ns: String,
    pub user_agent: String,
    pub body: String,
}

impl Client {
    /// A builder with no overrides yet.
    pub fn new() -> (r: ClientBuilder)
        ensures
            r.host is None,
            r.port is None,
            r.username is None,
            r.password is None,
            r.namespace is None,
            r.database is None,
    {
        ClientBuilder::default()
    }

    /// Computes the Basic-Auth header from the configured credentials.  The
    /// precondition only keeps the base64 output length within `usize`.
    pub fn auth(&self) -> (r: String)
        requires
            fits_base64(encode_utf8(self.username@ + ":"@ + self.password@).len()),
        ensures
            r@ == auth_seq(self.username@, self.password@),
    {
        let mut cred = self.username.clone();
        cred.append(":");
        cred.append(self.password.as_str());
        let bytes = cred.as_str().as_bytes_vec();
        let b64 = encode_base64(&bytes);
        let mut r: String = "Basic ".to_owned();
        r.append(b64.as_str());
        r
    }

    /// Assembles the one request `execute` sends: a POST to the
    /// caller-supplied URI, carrying the query string verbatim as its body,
    /// under the `Accept`, `Authorization`, `DB`, `NS` and user-agent
    /// headers.  The configured host and port take no part in it: the target
    /// is the caller's URI alone.
    pub fn prepare(&self, uri: &str, data: &str) -> (r: PreparedRequest)
        requires
            fits_base64(encode_utf8(self.username@ + ":"@ + self.password@).len()),
        ensures
            r.method == RequestMethod::POST,
            r.uri@ == uri@,
            r.accept@ == "application/json"@,
            r.authorization@ == auth_seq(self.username@, self.password@),
            r.db@ == self.database@,
            r.ns@ == self.namespace@,
            r.user_agent@ == user_agent_spec(),
            r.body@ == data@,
    {
        let mut ua: String = "dali-rs/".to_owned();
        ua.append(crate::version());
        PreparedRequest {
            method: RequestMethod::POST,
            uri: uri.to_owned(),
            accept: "application/json".to_owned(),
            authorization: self.auth(),
            db: self.database.clone(),
            ns: self.namespace.clone(),
            user_agent: ua,
            body: data.to_owned(),
        }
    }
}

/// Decodes the body of an HTTP response as an untyped JSON value.  Exactly
/// the bodies that parse as JSON succeed; any other body yields a decode
/// error, never a successful result.
pub fn decode_body(body: &str) -> (r: Result<serde_json::Value, ExecutionError>)
    ensures
        r is Ok <==> json_of(body@) is Some,
        r matches Ok(v) ==> json_of(body@) == Some(v),
        r matches Err(e) ==> e is Decode,
{
    match parse_json(body) {
        Ok(v) => Ok(v),
        Err(e) => Err(ExecutionError::Decode(e)),
    }
}

/// The auth header is exactly `"Basic "` followed by the base64 encoding of
/// the UTF-8 bytes of the separator-joined credentials; as a function of the
/// two credential sequences alone it is deterministic and pure.
pub proof fn lemma_auth_shape(u: Seq<char>, p: Seq<char>)
    ensures
        auth_seq(u, p) == "Basic "@ + base64_chars(encode_utf8(u + ":"@ + p)),
{
}

/// UTF-8 encoding is injective: decoding the encoding gives the characters
/// back.
proof fn lemma_encode_utf8_injective(c1: Seq<char>, c2: Seq<char>)
    requires
        encode_utf8(c1) == encode_utf8(c2),
    ensures
        c1 == c2,
{
    vstd::utf8::encode_utf8_decode_utf8(c1);
    vstd::utf8::encode_utf8_decode_utf8(c2);
}

/// Joining two sequences around a separator that occurs in neither left part
/// is injective in the pair.
proof fn lemma_sep_split(a1: Seq<char>, b1: Seq<char>, a2: Seq<char>, b2: Seq<char>, x: char)
    requires
        !a1.contains(x),
        !a2.contains(x),
        a1 + seq![x] + b1 == a2 + seq![x] + b2,
    ensures
        a1 == a2,
        b1 == b2,
{
    let s = a1 + seq![x] + b1;
    let t = a2 + seq![x] + b2;
    if a1.len() < a2.len() {
        assert(s[a1.len() as int] == x);
        assert(t[a1.len() as int] == a2[a1.len() as int]);
        assert(a2.contains(x));
    } else if a2.len() < a1.len() {
        assert(t[a2.len() as int] == x);
        assert(s[a2.len() as int] == a1[a2.len() as int]);
        assert(a1.contains(x));
    }
    assert(a1.len() == a2.len());
    assert forall|i: int| 0 <= i < a1.len() implies a1[i] == a2[i] by {
        assert(s[i] == a1[i]);
        assert(t[i] == a2[i]);
    }
    assert(a1 =~= a2);
    assert(s.len() == a1.len() + 1 + b1.len());
    assert(t.len() == a2.len() + 1 + b2.len());
    assert(b1.len() == b2.len());
    assert forall|i: int| 0 <= i < b1.len() implies b1[i] == b2[i] by {
        assert((a1 + seq![x]).len() == a1.len() + 1);
        assert((a2 + seq![x]).len() == a2.len() + 1);
        assert(b1[i] == s[a1.len() + 1 + i]);
        assert(b2[i] == t[a2.len() + 1 + i]);
    }
    assert(b1 =~= b2);
}

/// The auth header determines the credentials: when neither username holds
/// the `:` separator, equal auth headers come only from equal
/// username/password pairs.  (A `:` inside a username shifts the separator,
/// so two distinct pairs can join to one credential string; such inputs are
/// left out.)
pub proof fn lemma_auth_injective(u1: Seq<char>, p1: Seq<char>, u2: Seq<char>, p2: Seq<char>)
    requires
        !u1.contains(':'),
        !u2.contains(':'),
        auth_seq(u1, p1) == auth_seq(u2, p2),
    ensures
        u1 == u2,
        p1 == p2,
{
    let s1 = encode_utf8(u1 + ":"@ + p1);
    let s2 = encode_utf8(u2 + ":"@ + p2);
    reveal_strlit("Basic ");
    assert(base64_chars(s1) =~= auth_seq(u1, p1).skip(6));
    assert(base64_chars(s2) =~= auth_seq(u2, p2).skip(6));
    lemma_base64_injective(s1, s2);
    lemma_encode_utf8_injective(u1 + ":"@ + p1, u2 + ":"@ + p2);
    reveal_strlit(":");
    assert(":"@ =~= seq![':']);
    assert(u1 + seq![':'] + p1 == u2 + seq![':'] + p2);
    lemma_sep_split(u1, p1, u2, p2, ':');
}

/// Copying every field of a built client into a fresh builder and building
/// again yields a client equal to the first, field for field.
pub proof fn lemma_copy_round_trip(c1: Client, b: ClientBuilder, c2: Client)
    requires
        b.host matches Some(h) && h@ == c1.host@,
        b.port == Some(c1.port),
        b.username matches Some(u) && u@ == c1.username@,
        b.password matches Some(p) && p@ == c1.password@,
        b.namespace matches Some(n) && n@ == c1.namespace@,
        b.database matches Some(d) && d@ == c1.database@,
        builds_to(b, c2),
    ensures
        c2.host@ == c1.host@,
        c2.port == c1.port,
        c2.username@ == c1.username@,
        c2.password@ == c1.password@,
        c2.namespace@ == c1.namespace@,
        c2.database@ == c1.database@,
{
}

} // verus!
