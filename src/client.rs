//! The transport rules of the client: the base URL and how paths join it,
//! the endpoints and their methods, which requests carry the credential,
//! and how a response status is classified.
use vstd::prelude::*;
use vstd::string::{StrSliceExecFns, StringExecFns};
use crate::error::DoclingError;
use crate::text::{decimal, decimal_string, digit_char, text_eq};

verus! {

/// `s` without the slashes at its end, however many there are.
pub open spec fn trim_trailing_slashes(s: Seq<char>) -> Seq<char>
    decreases s.len(),
{
    if s.len() > 0 && s.last() == '/' {
        trim_trailing_slashes(s.drop_last())
    } else {
        s
    }
}

/// `n` slashes.
pub open spec fn slashes(n: nat) -> Seq<char>
    decreases n,
{
    if n == 0 {
        Seq::empty()
    } else {
        slashes((n - 1) as nat).push('/')
    }
}

/// Trailing slashes do not change the normalized base URL, however many
/// are added.
pub proof fn lemma_trailing_slashes_ignored(s: Seq<char>, n: nat)
    ensures
        trim_trailing_slashes(s + slashes(n)) == trim_trailing_slashes(s),
    decreases n,
{
    if n > 0 {
        let t = s + slashes(n);
        assert(t.drop_last() =~= s + slashes((n - 1) as nat));
        lemma_trailing_slashes_ignored(s, (n - 1) as nat);
    } else {
        assert(s + slashes(n) =~= s);
    }
}

/// Strips every trailing slash.
fn trim_slashes(s: &str) -> (r: String)
    ensures
        r@ == trim_trailing_slashes(s@),
{
    let n = s.unicode_len();
    let mut end: usize = n;
    assert(s@.subrange(0, n as int) =~= s@);
    while end > 0 && s.get_char(end - 1) == '/'
        invariant
            n == s@.len(),
            end <= n,
            trim_trailing_slashes(s@.subrange(0, end as int)) == trim_trailing_slashes(s@),
        decreases end,
    {
        assert(s@.subrange(0, end as int).drop_last() =~= s@.subrange(0, end - 1));
        end = end - 1;
    }
    String::from_str(s.substring_char(0, end))
}

/// The request methods the service uses.
#[derive(Debug, Clone, Copy, PartialEq, Eq, Structural)]
pub enum Method {
    Get,
    Post,
}

/// An endpoint of the service.
#[derive(Debug, Clone)]
pub enum Endpoint {
    /// `GET /health`
    Health,
    /// `GET /version`
    Version,
    /// `POST /v1/convert/source`
    ConvertSource,
    /// `POST /v1/convert/source/async`
    ConvertSourceAsync,
    /// `POST /v1/convert/file`
    ConvertFile,
    /// `POST /v1/convert/file/async`
    ConvertFileAsync,
    /// `GET /v1/status/poll/{task_id}`, with `?wait=<seconds>` when a wait
    /// is given.
    PollStatus { task_id: String, wait_millis: Option<u64> },
    /// `GET /v1/result/{task_id}`
    TaskResult { task_id: String },
}

/// Decimal text of a number of seconds given in milliseconds: the whole
/// seconds, then a point and the fraction without trailing zeros when there
/// is one (`5000` is `5`, `2500` is `2.5`, `1005` is `1.005`).
pub open spec fn seconds_text(millis: nat) -> Seq<char> {
    decimal(millis / 1000) + fraction_text(millis % 1000)
}

/// The fraction of a second, from its milliseconds (below 1000).
pub open spec fn fraction_text(f: nat) -> Seq<char> {
    if f == 0 {
        Seq::empty()
    } else if f % 100 == 0 {
        seq!['.', digit_char(f / 100)]
    } else if f % 10 == 0 {
        seq!['.', digit_char(f / 100), digit_char((f / 10) % 10)]
    } else {
        seq!['.', digit_char(f / 100), digit_char((f / 10) % 10), digit_char(f % 10)]
    }
}

/// Writes one decimal digit.
fn digit_string(d: u64) -> (r: String)
    requires
        d < 10,
    ensures
        r@ == seq![digit_char(d as nat)],
{
    let r = decimal_string(d);
    assert(decimal(d as nat) == seq![digit_char(d as nat)]);
    r
}

/// Writes a number of seconds given in milliseconds.
pub fn seconds_string(millis: u64) -> (r: String)
    ensures
        r@ == seconds_text(millis as nat),
{
    let whole = decimal_string(millis / 1000);
    let f: u64 = millis % 1000;
    proof {
        reveal_strlit(".");
    }
    if f == 0 {
        assert(whole@ + fraction_text(f as nat) =~= whole@);
        whole
    } else if f % 100 == 0 {
        let r = whole.concat(".").concat(digit_string(f / 100).as_str());
        assert(r@ =~= seconds_text(millis as nat));
        r
    } else if f % 10 == 0 {
        let r = whole.concat(".").concat(digit_string(f / 100).as_str()).concat(
            digit_string((f / 10) % 10).as_str(),
        );
        assert(r@ =~= seconds_text(millis as nat));
        r
    } else {
        let r = whole.concat(".").concat(digit_string(f / 100).as_str()).concat(
            digit_string((f / 10) % 10).as_str(),
        ).concat(digit_string(f % 10).as_str());
        assert(r@ =~= seconds_text(millis as nat));
        r
    }
}

impl Endpoint {
    /// The endpoint's path, query included.
    pub open spec fn spec_path(&self) -> Seq<char> {
        match self {
            Endpoint::Health => "/health"@,
            Endpoint::Version => "/version"@,
            Endpoint::ConvertSource => "/v1/convert/source"@,
            Endpoint::ConvertSourceAsync => "/v1/convert/source/async"@,
            Endpoint::ConvertFile => "/v1/convert/file"@,
            Endpoint::ConvertFileAsync => "/v1/convert/file/async"@,
            Endpoint::PollStatus { task_id, wait_millis } => "/v1/status/poll/"@ + task_id@ + match wait_millis {
                Some(w) => "?wait="@ + seconds_text(*w as nat),
                None => Seq::empty(),
            },
            Endpoint::TaskResult { task_id } => "/v1/result/"@ + task_id@,
        }
    }

    /// The endpoint's method.
    pub open spec fn spec_method(&self) -> Method {
        match self {
            Endpoint::ConvertSource | Endpoint::ConvertSourceAsync | Endpoint::ConvertFile
            | Endpoint::ConvertFileAsync => Method::Post,
            _ => Method::Get,
        }
    }

    /// Whether the endpoint takes the credential: every one but the health
    /// and version checks.
    pub open spec fn spec_requires_auth(&self) -> bool {
        !(self is Health || self is Version)
    }

    /// The endpoint's path, query included.
    pub fn path(&self) -> (r: String)
        ensures
            r@ == self.spec_path(),
    {
        match self {
            Endpoint::Health => String::from_str("/health"),
            Endpoint::Version => String::from_str("/version"),
            Endpoint::ConvertSource => String::from_str("/v1/convert/source"),
            Endpoint::ConvertSourceAsync => String::from_str("/v1/convert/source/async"),
            Endpoint::ConvertFile => String::from_str("/v1/convert/file"),
            Endpoint::ConvertFileAsync => String::from_str("/v1/convert/file/async"),
            Endpoint::PollStatus { task_id, wait_millis } => {
                let p = String::from_str("/v1/status/poll/").concat(task_id.as_str());
                match wait_millis {
                    Some(w) => p.concat("?wait=").concat(seconds_string(*w).as_str()),
                    None => {
                        assert(p@ + Seq::<char>::empty() =~= p@);
                        p
                    }
                }
            }
            Endpoint::TaskResult { task_id } => String::from_str("/v1/result/").concat(task_id.as_str()),
        }
    }

    /// The endpoint's method.
    pub fn method(&self) -> (r: Method)
        ensures
            r == self.spec_method(),
    {
        match self {
            Endpoint::ConvertSource | Endpoint::ConvertSourceAsync | Endpoint::ConvertFile
            | Endpoint::ConvertFileAsync => Method::Post,
            _ => Method::Get,
        }
    }

    /// Whether the endpoint takes the credential.
    pub fn requires_auth(&self) -> (r: bool)
        ensures
            r == self.spec_requires_auth(),
    {
        match self {
            Endpoint::Health | Endpoint::Version => false,
            _ => true,
        }
    }
}

/// The value of the `Authorization` header for a credential.
pub open spec fn bearer_text(key: Seq<char>) -> Seq<char> {
    "Bearer "@ + key
}

/// A request ready to be sent: method, full URL and the `Authorization`
/// header's value, if one goes with it.
#[derive(Debug, Clone)]
pub struct HttpRequest {
    pub method: Method,
    pub url: String,
    pub authorization: Option<String>,
}

/// The client's configuration: the service's base URL, kept without
/// trailing slashes, and an optional bearer credential.
#[derive(Debug, Clone)]
pub struct DoclingClient {
    base_url: String,
    api_key: Option<String>,
}

impl DoclingClient {
    /// The base URL, without trailing slashes.
    pub closed spec fn spec_base_url(&self) -> Seq<char> {
        self.base_url@
    }

    /// The credential, if one was given.
    pub closed spec fn spec_api_key(&self) -> Option<Seq<char>> {
        match self.api_key {
            Some(k) => Some(k@),
            None => None,
        }
    }

    /// A client of the service at `base_url`, without a credential.
    pub fn new(base_url: &str) -> (r: Self)
        ensures
            r.spec_base_url() == trim_trailing_slashes(base_url@),
            r.spec_api_key() is None,
    {
        DoclingClient { base_url: trim_slashes(base_url), api_key: None }
    }

    /// A client of the service at `base_url` that sends `api_key` as a
    /// bearer credential to every endpoint that takes one.
    pub fn with_api_key(base_url: &str, api_key: &str) -> (r: Self)
        ensures
            r.spec_base_url() == trim_trailing_slashes(base_url@),
            r.spec_api_key() == Some(api_key@),
    {
        DoclingClient { base_url: trim_slashes(base_url), api_key: Some(String::from_str(api_key)) }
    }

    /// The base URL, without trailing slashes.
    pub fn base_url(&self) -> (r: &str)
        ensures
            r@ == self.spec_base_url(),
    {
        self.base_url.as_str()
    }

    /// The credential, if one was given.
    pub fn api_key(&self) -> (r: Option<&str>)
        ensures
            match r {
                Some(k) => self.spec_api_key() == Some(k@),
                None => self.spec_api_key() is None,
            },
    {
        match &self.api_key {
            Some(k) => Some(k.as_str()),
            None => None,
        }
    }

    /// The full URL of a path: the base URL followed by the path.
    pub fn url(&self, path: &str) -> (r: String)
        ensures
            r@ == self.spec_base_url() + path@,
    {
        self.base_url.clone().concat(path)
    }

    /// The `Authorization` header's value for a request to `endpoint`:
    /// `Bearer <key>` when a credential is configured and the endpoint takes
    /// one; never for the health and version checks.
    pub fn authorization(&self, endpoint: &Endpoint) -> (r: Option<String>)
        ensures
            match r {
                Some(v) => endpoint.spec_requires_auth() && (self.spec_api_key() matches Some(k) && v@ == bearer_text(k)),
                None => !endpoint.spec_requires_auth() || self.spec_api_key() is None,
            },
    {
        if !endpoint.requires_auth() {
            return None;
        }
        match &self.api_key {
            Some(k) => Some(String::from_str("Bearer ").concat(k.as_str())),
            None => None,
        }
    }

    /// The request for an endpoint: its method, its full URL and the
    /// credential when it goes with it.
    pub fn request(&self, endpoint: &Endpoint) -> (r: HttpRequest)
        ensures
            r.method == endpoint.spec_method(),
            r.url@ == self.spec_base_url() + endpoint.spec_path(),
            match r.authorization {
                Some(v) => endpoint.spec_requires_auth() && (self.spec_api_key() matches Some(k) && v@ == bearer_text(k)),
                None => !endpoint.spec_requires_auth() || self.spec_api_key() is None,
            },
    {
        let path = endpoint.path();
        HttpRequest {
            method: endpoint.method(),
            url: self.url(path.as_str()),
            authorization: self.authorization(endpoint),
        }
    }
}

/// Whether an HTTP status is in the success range, 200 to 299.
pub fn is_success_status(status_code: u16) -> (r: bool)
    ensures
        r == (200 <= status_code <= 299),
{
    200 <= status_code && status_code <= 299
}

/// The error for a response whose status is outside the success range: the
/// status code and the body's text, or the empty text when the body could
/// not be read.
pub fn api_error(status_code: u16, body: Option<String>) -> (r: DoclingError)
    ensures
        r matches DoclingError::Api { status_code: c, body: b } && c == status_code && b@ == match body {
            Some(t) => t@,
            None => Seq::empty(),
        },
{
    match body {
        Some(t) => DoclingError::Api { status_code, body: t },
        None => DoclingError::Api { status_code, body: String::new() },
    }
}

/// The MIME type of an uploaded file, from its extension.
pub open spec fn mime_type(ext: Option<Seq<char>>) -> Seq<char> {
    match ext {
        Some(e) => {
            if e == "pdf"@ {
                "application/pdf"@
            } else if e == "docx"@ {
                "application/vnd.openxmlformats-officedocument.wordprocessingml.document"@
            } else if e == "pptx"@ {
                "application/vnd.openxmlformats-officedocument.presentationml.presentation"@
            } else if e == "xlsx"@ {
                "application/vnd.openxmlformats-officedocument.spreadsheetml.sheet"@
            } else if e == "html"@ || e == "htm"@ {
                "text/html"@
            } else if e == "md"@ {
                "text/markdown"@
            } else if e == "csv"@ {
                "text/csv"@
            } else if e == "json"@ {
                "application/json"@
            } else if e == "xml"@ {
                "application/xml"@
            } else if e == "png"@ {
                "image/png"@
            } else if e == "jpg"@ || e == "jpeg"@ {
                "image/jpeg"@
            } else if e == "tiff"@ || e == "tif"@ {
                "image/tiff"@
            } else if e == "bmp"@ {
                "image/bmp"@
            } else if e == "webp"@ {
                "image/webp"@
            } else if e == "mp3"@ {
                "audio/mpeg"@
            } else if e == "wav"@ {
                "audio/wav"@
            } else if e == "vtt"@ {
                "text/vtt"@
            } else {
                "application/octet-stream"@
            }
        }
        None => "application/octet-stream"@,
    }
}

/// The MIME type of an uploaded file, from its extension; unknown or absent
/// extensions give `application/octet-stream`.
pub fn mime_for_extension(ext: Option<&str>) -> (r: &'static str)
    ensures
        r@ == mime_type(match ext {
            Some(e) => Some(e@),
            None => None,
        }),
{
    match ext {
        Some(e) => {
            if text_eq(e, "pdf") {
                "application/pdf"
            } else if text_eq(e, "docx") {
                "application/vnd.openxmlformats-officedocument.wordprocessingml.document"
            } else if text_eq(e, "pptx") {
                "application/vnd.openxmlformats-officedocument.presentationml.presentation"
            } else if text_eq(e, "xlsx") {
                "application/vnd.openxmlformats-officedocument.spreadsheetml.sheet"
            } else if text_eq(e, "html") || text_eq(e, "htm") {
                "text/html"
            } else if text_eq(e, "md") {
                "text/markdown"
            } else if text_eq(e, "csv") {
                "text/csv"
            } else if text_eq(e, "json") {
                "application/json"
            } else if text_eq(e, "xml") {
                "application/xml"
            } else if text_eq(e, "png") {
                "image/png"
            } else if text_eq(e, "jpg") || text_eq(e, "jpeg") {
                "image/jpeg"
            } else if text_eq(e, "tiff") || text_eq(e, "tif") {
                "image/tiff"
            } else if text_eq(e, "bmp") {
                "image/bmp"
            } else if text_eq(e, "webp") {
                "image/webp"
            } else if text_eq(e, "mp3") {
                "audio/mpeg"
            } else if text_eq(e, "wav") {
                "audio/wav"
            } else if text_eq(e, "vtt") {
                "text/vtt"
            } else {
                "application/octet-stream"
            }
        }
        None => "application/octet-stream",
    }
}

} // verus!
