//! The request composer: canonical signing string, headers, and the
//! configured client.
//!
//! A request is signed by joining the method, the fixed content type, the
//! body digest, the request path and the date into one comma-separated
//! line — the canonical request string — and signing that line with the
//! configured secret. The digest and date placed in the headers are the
//! very values embedded in the canonical string, so a receiver that
//! recomputes the string from the headers sees the signed bytes exactly.

use crate::digest::{
    content_digest, digest_spec, sign, sign_spec, signable_bytes, SignableValue,
};
use crate::ApiError;
use vstd::prelude::*;
use vstd::string::StringExecFns;
use vstd::utf8::encode_utf8;

verus! {

/// `serde_json`'s JSON value, carried through opaquely: the composer only
/// hands it to the serializer.
#[verifier::external_type_specification]
#[verifier::external_body]
pub struct ExValue(serde_json::Value);

/// `serde_json`'s string-keyed map, carried through opaquely as the query
/// parameter collection.
#[verifier::external_type_specification]
#[verifier::external_body]
#[verifier::reject_recursive_types(K)]
#[verifier::reject_recursive_types(V)]
pub struct ExJsonMap<K, V>(serde_json::Map<K, V>);

/// Whether `c` is an ASCII decimal digit.
pub open spec fn is_digit(c: char) -> bool {
    '0' as int <= c as int && c as int <= '9' as int
}

/// Whether `s` is one of the seven abbreviated weekday names of the HTTP
/// date format.
pub open spec fn is_weekday_name(s: Seq<char>) -> bool {
    ||| s == "Mon"@
    ||| s == "Tue"@
    ||| s == "Wed"@
    ||| s == "Thu"@
    ||| s == "Fri"@
    ||| s == "Sat"@
    ||| s == "Sun"@
}

/// Whether `s` is one of the twelve abbreviated month names of the HTTP
/// date format.
pub open spec fn is_month_name(s: Seq<char>) -> bool {
    ||| s == "Jan"@
    ||| s == "Feb"@
    ||| s == "Mar"@
    ||| s == "Apr"@
    ||| s == "May"@
    ||| s == "Jun"@
    ||| s == "Jul"@
    ||| s == "Aug"@
    ||| s == "Sep"@
    ||| s == "Oct"@
    ||| s == "Nov"@
    ||| s == "Dec"@
}

/// Whether `s` has the fixed 29-character IMF-fixdate shape of RFC 7231,
/// `Tue, 15 Nov 1994 08:12:31 GMT`: weekday, day, month, year and
/// zero-padded clock fields in their fixed columns, ending in ` GMT`.
pub open spec fn is_imf_fixdate(s: Seq<char>) -> bool {
    &&& s.len() == 29
    &&& is_weekday_name(s.subrange(0, 3))
    &&& s.subrange(3, 5) == ", "@
    &&& is_digit(s[5]) && is_digit(s[6])
    &&& s[7] == ' '
    &&& is_month_name(s.subrange(8, 11))
    &&& s[11] == ' '
    &&& is_digit(s[12]) && is_digit(s[13]) && is_digit(s[14]) && is_digit(s[15])
    &&& s[16] == ' '
    &&& is_digit(s[17]) && is_digit(s[18])
    &&& s[19] == ':'
    &&& is_digit(s[20]) && is_digit(s[21])
    &&& s[22] == ':'
    &&& is_digit(s[23]) && is_digit(s[24])
    &&& s.subrange(25, 29) == " GMT"@
}

/// Whether `path` is `api/v1/<endpoint>?<q>` for some query string `q`.
pub open spec fn path_has_query(endpoint: Seq<char>, path: Seq<char>) -> bool {
    exists|q: Seq<char>| path == #[trigger] path_spec(endpoint, Some(q))
}

/// The view of an optional borrowed query string.
pub open spec fn query_view(query: Option<&str>) -> Option<Seq<char>> {
    match query {
        None => None,
        Some(q) => Some(q@),
    }
}

/// The request path: `api/v1/<endpoint>`, with `?<query>` appended when
/// query parameters were supplied.
pub open spec fn path_spec(endpoint: Seq<char>, query: Option<Seq<char>>) -> Seq<char> {
    match query {
        None => "api/v1/"@ + endpoint,
        Some(q) => "api/v1/"@ + endpoint + "?"@ + q,
    }
}

/// The canonical request string: method, the fixed content type, the body
/// digest, the request path and the date, joined by commas with no
/// surrounding whitespace.
pub open spec fn canonical_spec(
    method: Seq<char>,
    digest: Seq<char>,
    path: Seq<char>,
    date: Seq<char>,
) -> Seq<char> {
    method + ","@ + "application/json"@ + ","@ + digest + ","@ + path + ","@ + date
}

/// The authorization header value: `APIAuth <key>:<signature>`.
pub open spec fn auth_spec(key: Seq<char>, signature: Seq<char>) -> Seq<char> {
    "APIAuth "@ + key + ":"@ + signature
}

/// Builds the request path of [`path_spec`].
pub fn request_path(endpoint: &str, query: Option<&str>) -> (r: String)
    ensures
        r@ == path_spec(endpoint@, query_view(query)),
{
    let mut s = String::new();
    s.append("api/v1/");
    s.append(endpoint);
    match query {
        None => {},
        Some(q) => {
            s.append("?");
            s.append(q);
        },
    }
    proof {
        assert(s@ =~= path_spec(endpoint@, query_view(query)));
    }
    s
}

/// Builds the canonical request string of [`canonical_spec`].
pub fn canonical_string(method: &str, digest: &str, path: &str, date: &str) -> (r: String)
    ensures
        r@ == canonical_spec(method@, digest@, path@, date@),
{
    let mut s = String::new();
    s.append(method);
    s.append(",");
    s.append("application/json");
    s.append(",");
    s.append(digest);
    s.append(",");
    s.append(path);
    s.append(",");
    s.append(date);
    proof {
        assert(s@ =~= canonical_spec(method@, digest@, path@, date@));
    }
    s
}

/// A fully signed request, ready for a transport: the method, the URL, and
/// every header value.
#[derive(Debug, Clone)]
pub struct SignedRequest {
    /// The HTTP method, as given.
    pub method: String,
    /// The request path, query string included.
    pub path: String,
    /// The full URL: the API origin, a slash, and the path.
    pub url: String,
    /// The fixed `User-Agent` header value.
    pub user_agent: String,
    /// The fixed `Accept` header value.
    pub accept: String,
    /// The fixed `Content-Type` header value.
    pub content_type: String,
    /// The `Content-MD5` header value: the body digest.
    pub content_md5: String,
    /// The `Date` header value.
    pub date: String,
    /// The `Authorization` header value.
    pub authorization: String,
}

/// What a signed request holds for the given inputs: the digest of the
/// body, the path for the endpoint and query, the date as stamped, and an
/// authorization signature over the canonical string built from exactly
/// those header values.
pub open spec fn signed_request_for(
    api: RemitanoApi,
    method: Seq<char>,
    endpoint: Seq<char>,
    query: Option<Seq<char>>,
    value: Option<SignableValue>,
    date: Seq<char>,
    r: SignedRequest,
) -> bool {
    let digest = digest_spec(signable_bytes(value));
    let path = path_spec(endpoint, query);
    let canonical = canonical_spec(method, digest, path, date);
    &&& r.method@ == method
    &&& r.path@ == path
    &&& r.url@ == api.api_url@ + "/"@ + path
    &&& r.user_agent@
        == "Mozilla/5.0 (Macintosh; Intel Mac OS X 10.15; rv:85.0) Gecko/20100101 Firefox/85.0"@
    &&& r.accept@ == "application/json"@
    &&& r.content_type@ == "application/json"@
    &&& r.content_md5@ == digest
    &&& r.date@ == date
    &&& r.authorization@ == auth_spec(
        api.key@,
        sign_spec(encode_utf8(api.secret@), encode_utf8(canonical)),
    )
}

/// A configured API client: the credential pair, the API origin, and the
/// request timeout.
#[derive(Debug, Clone)]
pub struct RemitanoApi {
    /// The public key identifier, named in the authorization header.
    pub key: String,
    /// The shared secret that signs each request.
    pub secret: String,
    /// The API origin the request path is appended to.
    pub api_url: String,
    /// The transport timeout, in milliseconds.
    pub timeout_ms: u64,
}

impl RemitanoApi {
    /// Builds a client from optional configuration fields: a missing key or
    /// secret is rejected, a missing origin or timeout falls back to the
    /// default.
    pub fn build(
        key: Option<String>,
        secret: Option<String>,
        api_url: Option<String>,
        timeout_ms: Option<u64>,
    ) -> (r: Result<RemitanoApi, ApiError>)
        ensures
            key is None ==> r == Err::<RemitanoApi, ApiError>(ApiError::MissingKey),
            key is Some && secret is None ==> r == Err::<RemitanoApi, ApiError>(
                ApiError::MissingSecret,
            ),
            key is Some && secret is Some ==> r is Ok,
            r matches Ok(api) ==> {
                &&& Some(api.key) == key
                &&& Some(api.secret) == secret
                &&& api.api_url@ == (match api_url {
                    Some(u) => u@,
                    None => "https://api.remitano.com"@,
                })
                &&& api.timeout_ms == (match timeout_ms {
                    Some(t) => t,
                    None => 3000u64,
                })
            },
    {
        let key = match key {
            Some(k) => k,
            None => {
                return Err(ApiError::MissingKey);
            },
        };
        let secret = match secret {
            Some(s) => s,
            None => {
                return Err(ApiError::MissingSecret);
            },
        };
        let api_url = match api_url {
            Some(u) => u,
            None => String::from_str("https://api.remitano.com"),
        };
        let timeout_ms = match timeout_ms {
            Some(t) => t,
            None => 3000,
        };
        Ok(RemitanoApi { key, secret, api_url, timeout_ms })
    }

    /// The content digest of a body, as [`content_digest`] computes it.
    pub fn content_digest(&self, value: &Option<SignableValue>) -> (r: String)
        ensures
            r@ == digest_spec(signable_bytes(*value)),
    {
        content_digest(value)
    }

    /// The signature of a body under the configured secret, as [`sign`]
    /// computes it.
    pub fn sign(&self, value: &Option<SignableValue>) -> (r: String)
        ensures
            r@ == sign_spec(encode_utf8(self.secret@), signable_bytes(*value)),
    {
        sign(value, self.secret.as_str().as_bytes())
    }

    /// Composes the signed request for the given plain inputs: the digest
    /// of `value` as `Content-MD5`, the path for `endpoint` and `query`,
    /// `date` as the `Date` header, and an authorization signature over the
    /// canonical string built from those very values.
    pub fn prepare_signed(
        &self,
        method: &str,
        endpoint: &str,
        query: Option<&str>,
        value: &Option<SignableValue>,
        date: &str,
    ) -> (r: SignedRequest)
        ensures
            signed_request_for(*self, method@, endpoint@, query_view(query), *value, date@, r),
    {
        let digest = content_digest(value);
        let path = request_path(endpoint, query);
        let canonical = canonical_string(method, digest.as_str(), path.as_str(), date);
        let ghost canonical_view = canonical@;
        let signature = sign(
            &Some(SignableValue::Text(canonical)),
            self.secret.as_str().as_bytes(),
        );
        let mut authorization = String::new();
        authorization.append("APIAuth ");
        authorization.append(self.key.as_str());
        authorization.append(":");
        authorization.append(signature.as_str());
        let mut url = String::new();
        url.append(self.api_url.as_str());
        url.append("/");
        url.append(path.as_str());
        let r = SignedRequest {
            method: String::from_str(method),
            path,
            url,
            user_agent: String::from_str(
                "Mozilla/5.0 (Macintosh; Intel Mac OS X 10.15; rv:85.0) Gecko/20100101 Firefox/85.0",
            ),
            accept: String::from_str("application/json"),
            content_type: String::from_str("application/json"),
            content_md5: digest,
            date: String::from_str(date),
            authorization,
        };
        proof {
            assert(r.url@ =~= self.api_url@ + "/"@ + path_spec(endpoint@, query_view(query)));
            assert(r.authorization@ =~= auth_spec(
                self.key@,
                sign_spec(encode_utf8(self.secret@), encode_utf8(canonical_view)),
            ));
        }
        r
    }
}

/// Relies on `serde_json::to_vec`: the canonical JSON text of the value,
/// as bytes. Serializing a JSON value into a vector cannot fail — its map
/// keys are always strings and the writer is a vector — so the `expect`
/// never fires. A JSON string value is taken as its raw text instead, so
/// that it is hashed unquoted.
#[verifier::external_body]
fn json_to_signable(v: &serde_json::Value) -> (r: SignableValue) {
    match v {
        serde_json::Value::String(s) => SignableValue::Text(s.clone()),
        other => SignableValue::Structured(
            serde_json::to_vec(other).expect("serializing a JSON value to a vector cannot fail"),
        ),
    }
}

/// Whether `serde_qs` can serialize the parameter map to a query string: a
/// property of the map's contents alone.
pub uninterp spec fn qs_ok(params: serde_json::Map<String, serde_json::Value>) -> bool;

/// Relies on `serde_qs::to_string`: the query-string form of the parameter
/// map, nested keys written in the bracket convention. It returns text
/// exactly when the map's shape is serializable, and fails only with the
/// query error.
#[verifier::external_body]
fn query_of_params(params: &serde_json::Map<String, serde_json::Value>) -> (r: Result<String, ApiError>)
    ensures
        r is Ok <==> qs_ok(*params),
        r matches Err(e) ==> e == ApiError::Query,
{
    match serde_qs::to_string(params) {
        Ok(q) => Ok(q),
        Err(_) => Err(ApiError::Query),
    }
}

/// Relies on `hyperx`'s `HttpDate` over the `httpdate` crate: the current
/// time, always written in the fixed 29-character IMF-fixdate form. Which
/// moment it names depends on the clock, so only the shape is promised. As
/// in the clock formatting it wraps, a system clock before 1970 or past
/// the year 9999 aborts the process.
#[verifier::external_body]
fn http_date_now() -> (r: String)
    ensures
        is_imf_fixdate(r@),
{
    hyperx::header::HttpDate::from(std::time::SystemTime::now()).to_string()
}

impl RemitanoApi {
    /// Composes a signed request from a caller's raw inputs: serializes the
    /// query parameters and the body, stamps the current time, and signs.
    /// It succeeds exactly when the parameter map (if any) serializes, and
    /// the only failure is the query error; the body and the date never
    /// fail.
    #[verifier::rlimit(50)]
    pub fn request_parts(
        &self,
        method: &str,
        endpoint: &str,
        params: Option<&serde_json::Map<String, serde_json::Value>>,
        body: Option<&serde_json::Value>,
    ) -> (r: Result<SignedRequest, ApiError>)
        ensures
            r is Ok <==> (match params {
                None => true,
                Some(p) => qs_ok(*p),
            }),
            r is Err ==> r == Err::<SignedRequest, ApiError>(ApiError::Query),
            r matches Ok(sr) ==> {
                &&& sr.method@ == method@
                &&& sr.user_agent@
                    == "Mozilla/5.0 (Macintosh; Intel Mac OS X 10.15; rv:85.0) Gecko/20100101 Firefox/85.0"@
                &&& sr.accept@ == "application/json"@
                &&& sr.content_type@ == "application/json"@
                &&& sr.url@ == self.api_url@ + "/"@ + sr.path@
                &&& (params is None ==> sr.path@ == path_spec(endpoint@, None))
                &&& (params is Some ==> path_has_query(endpoint@, sr.path@))
                &&& (body is None ==> sr.content_md5@ == digest_spec(Seq::empty()))
                &&& is_imf_fixdate(sr.date@)
                &&& sr.authorization@ == auth_spec(
                    self.key@,
                    sign_spec(
                        encode_utf8(self.secret@),
                        encode_utf8(
                            canonical_spec(sr.method@, sr.content_md5@, sr.path@, sr.date@),
                        ),
                    ),
                )
            },
    {
        let value: Option<SignableValue> = match body {
            None => None,
            Some(v) => Some(json_to_signable(v)),
        };
        let query: Option<String> = match params {
            None => None,
            Some(p) => match query_of_params(p) {
                Ok(q) => Some(q),
                Err(e) => {
                    return Err(e);
                },
            },
        };
        let date = http_date_now();
        let query_ref: Option<&str> = match &query {
            None => None,
            Some(q) => Some(q.as_str()),
        };
        let sr = self.prepare_signed(method, endpoint, query_ref, &value, date.as_str());
        proof {
            let q = query_view(query_ref);
            assert(signed_request_for(*self, method@, endpoint@, q, value, date@, sr));
            if params is Some {
                assert(sr.path@ == path_spec(endpoint@, Some(q->0)));
            }
        }
        Ok(sr)
    }
}

/// The headers of a signed request are mutually consistent: the digest and
/// date they carry are byte-identical to the ones embedded in the canonical
/// string, and the authorization value is `APIAuth <key>:` followed by the
/// signature of that string under the configured secret.
pub proof fn lemma_signed_request_consistent(
    api: RemitanoApi,
    method: Seq<char>,
    endpoint: Seq<char>,
    query: Option<Seq<char>>,
    value: Option<SignableValue>,
    date: Seq<char>,
    r: SignedRequest,
)
    requires
        signed_request_for(api, method, endpoint, query, value, date, r),
    ensures
        r.content_md5@ == digest_spec(signable_bytes(value)),
        r.date@ == date,
        r.authorization@ == auth_spec(
            api.key@,
            sign_spec(
                encode_utf8(api.secret@),
                encode_utf8(canonical_spec(r.method@, r.content_md5@, r.path@, r.date@)),
            ),
        ),
{
}

/// A supplied query string is appended to the path after `?`, and that
/// same path, query included, stands verbatim in the canonical string the
/// signature covers.
pub proof fn lemma_query_in_canonical(
    api: RemitanoApi,
    method: Seq<char>,
    endpoint: Seq<char>,
    q: Seq<char>,
    value: Option<SignableValue>,
    date: Seq<char>,
    r: SignedRequest,
)
    requires
        signed_request_for(api, method, endpoint, Some(q), value, date, r),
    ensures
        r.path@ == "api/v1/"@ + endpoint + "?"@ + q,
        r.url@ == api.api_url@ + "/"@ + r.path@,
        r.authorization@ == auth_spec(
            api.key@,
            sign_spec(
                encode_utf8(api.secret@),
                encode_utf8(canonical_spec(method, r.content_md5@, r.path@, date)),
            ),
        ),
{
}

} // verus!
