//! What goes over the wire: the requests that the metadata service understands and
//! the reading of its replies. Sending is left to the caller.
use std::str::FromStr;
use vstd::prelude::*;
use vstd::utf8::{decode_utf8, valid_utf8};
use crate::error::{Error, ErrorKind, Failure, optional_result, text_result};
use crate::text::{chars_of, eq_ignore_ascii_case, same_ignoring_ascii_case};

verus! {

/// The environment variable that names another metadata host.
pub const METADATA_HOST_VAR: &'static str = "GCE_METADATA_HOST";

/// The documented address of the metadata server.
pub const METADATA_IP: &'static str = "169.254.169.254";

/// The host name under which the metadata server is known inside the cloud.
pub const METADATA_HOSTNAME: &'static str = "metadata.google.internal";

/// How this client names itself to the server.
pub const USER_AGENT: &'static str = "github.com/mechiru/gcemeta v0.2.0";

/// The header that every request carries and every genuine response echoes.
pub const FLAVOR_NAME: &'static str = "Metadata-Flavor";

/// The value of the identification header.
pub const FLAVOR_VALUE: &'static str = "Google";

/// The root under which all metadata paths live.
pub const METADATA_ROOT: &'static str = "/computeMetadata/v1/";

/// Seconds allowed for connecting to the server.
pub const CONNECT_TIMEOUT_SECS: u64 = 2;

/// Seconds for which an idle connection to the server is kept.
pub const KEEPALIVE_SECS: u64 = 30;

/// Seconds allowed for finding out whether the server is there at all.
pub const PROBE_TIMEOUT_SECS: u64 = 5;

// ---------------------------------------------------------------------------
// Headers, requests, replies
// ---------------------------------------------------------------------------

/// One header line.
#[derive(Clone, Debug)]
pub struct Header {
    pub name: String,
    pub value: String,
}

/// A header line as two texts.
pub struct HeaderView {
    pub name: Seq<char>,
    pub value: Seq<char>,
}

impl View for Header {
    type V = HeaderView;

    open spec fn view(&self) -> HeaderView {
        HeaderView { name: self.name@, value: self.value@ }
    }
}

/// The header lines of a list, as texts.
pub open spec fn header_views(headers: Seq<Header>) -> Seq<HeaderView> {
    headers.map_values(|h: Header| h@)
}

/// A GET request for the caller to send.
#[derive(Clone, Debug)]
pub struct Request {
    pub url: String,
    pub headers: Vec<Header>,
    pub connect_timeout_secs: u64,
}

/// A request as plain values.
pub struct RequestView {
    pub url: Seq<char>,
    pub headers: Seq<HeaderView>,
    pub connect_timeout_secs: u64,
}

impl View for Request {
    type V = RequestView;

    open spec fn view(&self) -> RequestView {
        RequestView {
            url: self.url@,
            headers: header_views(self.headers@),
            connect_timeout_secs: self.connect_timeout_secs,
        }
    }
}

/// A response that arrived.
#[derive(Clone, Debug)]
pub struct Response {
    pub status: u16,
    pub headers: Vec<Header>,
    pub body: Vec<u8>,
}

/// A response as plain values.
pub struct ResponseView {
    pub status: u16,
    pub headers: Seq<HeaderView>,
    pub body: Seq<u8>,
}

impl View for Response {
    type V = ResponseView;

    open spec fn view(&self) -> ResponseView {
        ResponseView {
            status: self.status,
            headers: header_views(self.headers@),
            body: self.body@,
        }
    }
}

/// What came of sending a request.
#[derive(Clone, Debug)]
pub enum Reply {
    /// No response arrived; the text says why.
    Failed(String),
    /// The server answered.
    Answered(Response),
}

/// A reply as plain values.
pub enum ReplyView {
    Failed(Seq<char>),
    Answered(ResponseView),
}

impl View for Reply {
    type V = ReplyView;

    open spec fn view(&self) -> ReplyView {
        match *self {
            Reply::Failed(detail) => ReplyView::Failed(detail@),
            Reply::Answered(response) => ReplyView::Answered(response@),
        }
    }
}

// ---------------------------------------------------------------------------
// The host
// ---------------------------------------------------------------------------

/// The authority (host, with a port if one is given) of `text` read as a URI, if
/// `text` is a URI and has one.
pub uninterp spec fn uri_authority(text: Seq<char>) -> Option<Seq<char>>;

/// Calls `Uri::from_str` of the `http` crate, as `hyper` hands it on, and copies out
/// the authority with `Uri::authority` and `Authority::as_str`. The parser reads
/// nothing but its argument, so what comes back is named by `uri_authority`: the
/// authority where the text is accepted as a URI and has one, nothing otherwise.
#[verifier::external_body]
pub(crate) fn authority_of(text: &str) -> (r: Option<String>)
    ensures
        match r {
            Some(authority) => uri_authority(text@) == Some(authority@),
            None => uri_authority(text@) is None,
        },
{
    match hyper::Uri::from_str(text) {
        Ok(uri) => uri.authority().map(|a| a.as_str().to_owned()),
        Err(_) => None,
    }
}

/// Where the metadata server is to be found, if not at its documented address.
#[derive(Clone, Debug)]
pub struct Env {
    metadata_host: Option<String>,
}

impl Env {
    /// The authority that takes the place of the documented address, if any.
    pub closed spec fn host(&self) -> Option<Seq<char>> {
        match self.metadata_host {
            Some(h) => Some(h@),
            None => None,
        }
    }

    /// No other host: the server is at its documented address.
    pub fn unset() -> (env: Env)
        ensures
            env.host() is None,
    {
        Env { metadata_host: None }
    }

    /// The environment in which requests go to `authority`, or to the documented
    /// address where it is `None`.
    pub fn from_authority(authority: Option<String>) -> (env: Env)
        ensures
            match authority {
                Some(a) => env.host() == Some(a@),
                None => env.host() is None,
            },
    {
        Env { metadata_host: authority }
    }

    /// Whether `value` can stand in the override variable: it is not set, or it is
    /// a URI with an authority.
    pub open spec fn admits(value: Option<&str>) -> bool {
        value matches Some(text) ==> uri_authority(text@) is Some
    }

    /// The host that a value of the override variable names.
    pub open spec fn named_by(value: Option<&str>) -> Option<Seq<char>> {
        match value {
            Some(text) => uri_authority(text@),
            None => None,
        }
    }

    /// Tells whether `value` can stand in the override variable.
    pub fn accepts(value: Option<&str>) -> (fit: bool)
        ensures
            fit == Env::admits(value),
    {
        match value {
            None => true,
            Some(text) => authority_of(text).is_some(),
        }
    }

    /// Reads the value of the override variable, `None` where it is not set.
    ///
    /// A value that is set must be a URI with an authority; its scheme and path are
    /// not used. Any other value is a mistake of configuration with which no
    /// program should start: test with `accepts`, or use `try_init`.
    pub fn init(value: Option<&str>) -> (env: Env)
        requires
            Env::admits(value),
        ensures
            env.host() == Env::named_by(value),
    {
        match value {
            None => Env::unset(),
            Some(text) => Env::from_authority(authority_of(text)),
        }
    }

    /// Reads the value of the override variable where it can stand there, and
    /// returns `None` where it cannot.
    pub fn try_init(value: Option<&str>) -> (r: Option<Env>)
        ensures
            match r {
                Some(env) => Env::admits(value) && env.host() == Env::named_by(value),
                None => !Env::admits(value),
            },
    {
        if Env::accepts(value) {
            Some(Env::init(value))
        } else {
            None
        }
    }

    /// Whether another metadata host was named. That alone shows that the process
    /// is meant to talk to a metadata server.
    pub fn is_set(&self) -> (set: bool)
        ensures
            set == self.host() is Some,
    {
        self.metadata_host.is_some()
    }

    /// The authority that takes the place of the documented address, if any.
    pub fn metadata_host(&self) -> (h: Option<&str>)
        ensures
            match h {
                Some(text) => self.host() == Some(text@),
                None => self.host() is None,
            },
    {
        match &self.metadata_host {
            Some(h) => Some(h.as_str()),
            None => None,
        }
    }
}

// ---------------------------------------------------------------------------
// Configuration and requests
// ---------------------------------------------------------------------------

/// What every request is made with.
#[derive(Clone, Debug)]
pub struct Config {
    pub scheme: String,
    pub metadata_ip: String,
    pub user_agent: String,
    pub flavor_name: String,
    pub flavor_value: String,
    pub connect_timeout_secs: u64,
    pub probe_timeout_secs: u64,
}

/// A configuration as plain values.
pub struct ConfigView {
    pub scheme: Seq<char>,
    pub metadata_ip: Seq<char>,
    pub user_agent: Seq<char>,
    pub flavor_name: Seq<char>,
    pub flavor_value: Seq<char>,
    pub connect_timeout_secs: u64,
    pub probe_timeout_secs: u64,
}

impl View for Config {
    type V = ConfigView;

    open spec fn view(&self) -> ConfigView {
        ConfigView {
            scheme: self.scheme@,
            metadata_ip: self.metadata_ip@,
            user_agent: self.user_agent@,
            flavor_name: self.flavor_name@,
            flavor_value: self.flavor_value@,
            connect_timeout_secs: self.connect_timeout_secs,
            probe_timeout_secs: self.probe_timeout_secs,
        }
    }
}

/// The configuration that the metadata service documents.
pub open spec fn standard_config() -> ConfigView {
    ConfigView {
        scheme: "http"@,
        metadata_ip: METADATA_IP@,
        user_agent: USER_AGENT@,
        flavor_name: FLAVOR_NAME@,
        flavor_value: FLAVOR_VALUE@,
        connect_timeout_secs: CONNECT_TIMEOUT_SECS,
        probe_timeout_secs: PROBE_TIMEOUT_SECS,
    }
}

impl ConfigView {
    /// The headers that identify a request to the server.
    pub open spec fn headers(self) -> Seq<HeaderView> {
        seq![
            HeaderView { name: self.flavor_name, value: self.flavor_value },
            HeaderView { name: "User-Agent"@, value: self.user_agent },
        ]
    }

    /// The request for `path` on `host`, or on the documented address.
    pub open spec fn request_to(self, host: Option<Seq<char>>, path: Seq<char>) -> RequestView {
        RequestView {
            url: self.scheme + "://"@ + (match host {
                Some(h) => h,
                None => self.metadata_ip,
            }) + path,
            headers: self.headers(),
            connect_timeout_secs: self.connect_timeout_secs,
        }
    }
}

impl Config {
    /// Whether this is the configuration that the metadata service documents.
    pub open spec fn is_standard(&self) -> bool {
        self@ == standard_config()
    }

    /// Builds the GET request for `path`, which starts with a slash, on the host that
    /// `env` names or else on the documented address. The request carries the
    /// identification header and the user agent.
    pub fn request(&self, env: &Env, path: &str) -> (q: Request)
        ensures
            q@ == self@.request_to(env.host(), path@),
    {
        let mut url = self.scheme.clone();
        url.append("://");
        match env.metadata_host() {
            Some(h) => url.append(h),
            None => url.append(self.metadata_ip.as_str()),
        }
        url.append(path);
        let mut headers: Vec<Header> = Vec::new();
        headers.push(Header { name: self.flavor_name.clone(), value: self.flavor_value.clone() });
        headers.push(Header { name: "User-Agent".to_owned(), value: self.user_agent.clone() });
        proof {
            assert(header_views(headers@) == self@.headers());
        }
        Request { url, headers, connect_timeout_secs: self.connect_timeout_secs }
    }

    /// Builds the request that probes for the server: the root of the documented
    /// address, whatever other host may have been named.
    pub fn probe(&self) -> (q: Request)
        ensures
            q@ == self@.request_to(None, "/"@),
    {
        let env = Env::unset();
        self.request(&env, "/")
    }
}

impl Default for Config {
    fn default() -> (c: Config)
        ensures
            c.is_standard(),
    {
        Config {
            scheme: "http".to_owned(),
            metadata_ip: METADATA_IP.to_owned(),
            user_agent: USER_AGENT.to_owned(),
            flavor_name: FLAVOR_NAME.to_owned(),
            flavor_value: FLAVOR_VALUE.to_owned(),
            connect_timeout_secs: CONNECT_TIMEOUT_SECS,
            probe_timeout_secs: PROBE_TIMEOUT_SECS,
        }
    }
}

/// The request for `path` on `host`, made with the documented configuration.
pub open spec fn standard_request(host: Option<Seq<char>>, path: Seq<char>) -> RequestView {
    standard_config().request_to(host, path)
}

/// The request for the metadata value at `suffix`, made with the documented
/// configuration: `http://<host>/computeMetadata/v1/<suffix>`.
pub open spec fn metadata_request(host: Option<Seq<char>>, suffix: Seq<char>) -> RequestView {
    standard_request(host, METADATA_ROOT@ + suffix)
}

/// The request that probes for the server, made with the documented configuration.
pub open spec fn probe_request() -> RequestView {
    standard_request(None, "/"@)
}

/// The path of the metadata value at `suffix`.
pub fn metadata_path(suffix: &str) -> (path: String)
    ensures
        path@ == METADATA_ROOT@ + suffix@,
{
    let mut path = METADATA_ROOT.to_owned();
    path.append(suffix);
    path
}

/// Builds the request for the metadata value at `suffix` with the documented
/// configuration.
pub fn request_for(env: &Env, suffix: &str) -> (q: Request)
    ensures
        q@ == metadata_request(env.host(), suffix@),
{
    let config = Config::default();
    let path = metadata_path(suffix);
    config.request(env, path.as_str())
}

/// Builds the probing request with the documented configuration.
pub fn probe_for() -> (q: Request)
    ensures
        q@ == probe_request(),
{
    Config::default().probe()
}

// ---------------------------------------------------------------------------
// Reading replies
// ---------------------------------------------------------------------------

/// Calls `String::from_utf8`, which returns the bytes as a string where they are
/// UTF-8 and an error where they are not.
#[verifier::external_body]
pub(crate) fn string_from_utf8(bytes: Vec<u8>) -> (r: Result<String, std::string::FromUtf8Error>)
    ensures
        match r {
            Ok(text) => valid_utf8(bytes@) && text@ == decode_utf8(bytes@),
            Err(_) => !valid_utf8(bytes@),
        },
{
    String::from_utf8(bytes)
}

/// The text that `bytes` stand for when every part of them that is not UTF-8 is
/// read as the replacement character U+FFFD.
pub uninterp spec fn lossy_text(bytes: Seq<u8>) -> Seq<char>;

/// Calls `String::from_utf8_lossy`, which reads bytes as UTF-8 and puts the
/// replacement character in place of what is not. The result depends on the bytes
/// alone and is named by `lossy_text`; bytes that are UTF-8 come out as the text
/// they encode.
#[verifier::external_body]
pub(crate) fn string_from_utf8_lossy(bytes: &[u8]) -> (text: String)
    ensures
        text@ == lossy_text(bytes@),
        valid_utf8(bytes@) ==> text@ == decode_utf8(bytes@),
{
    String::from_utf8_lossy(bytes).into_owned()
}

/// The value of the first header called `name`, whatever the case of its letters.
pub open spec fn header_of(headers: Seq<HeaderView>, name: Seq<char>) -> Option<Seq<char>>
    decreases headers.len(),
{
    if headers.len() == 0 {
        None
    } else if same_ignoring_ascii_case(headers.first().name, name) {
        Some(headers.first().value)
    } else {
        header_of(headers.drop_first(), name)
    }
}

/// Looks up the first header called `name`, whatever the case of its letters.
pub fn header_value<'a>(headers: &'a Vec<Header>, name: &str) -> (r: Option<&'a str>)
    ensures
        match r {
            Some(value) => header_of(header_views(headers@), name@) == Some(value@),
            None => header_of(header_views(headers@), name@) is None,
        },
{
    let mut i: usize = 0;
    let ghost all = header_views(headers@);
    proof {
        assert(all.skip(0) == all);
    }
    while i < headers.len()
        invariant
            i <= headers.len(),
            all == header_views(headers@),
            header_of(all, name@) == header_of(all.skip(i as int), name@),
        decreases headers.len() - i,
    {
        let ghost rest = all.skip(i as int);
        proof {
            assert(rest.first() == headers@[i as int]@);
            assert(rest.drop_first() == all.skip(i + 1));
        }
        if eq_ignore_ascii_case(headers[i].name.as_str(), name) {
            return Some(headers[i].value.as_str());
        }
        i += 1;
    }
    None
}

/// Tells whether two texts are the same.
pub fn same_text(a: &str, b: &str) -> (same: bool)
    ensures
        same == (a@ == b@),
{
    let x = chars_of(a);
    let y = chars_of(b);
    if x.len() != y.len() {
        return false;
    }
    let mut i: usize = 0;
    while i < x.len()
        invariant
            x@ == a@,
            y@ == b@,
            x.len() == y.len(),
            i <= x.len(),
            forall|j: int| 0 <= j < i ==> x@[j] == y@[j],
        decreases x.len() - i,
    {
        if x[i] != y[i] {
            return false;
        }
        i += 1;
    }
    proof {
        assert(x@ =~= y@);
    }
    true
}

/// The text that `bytes` stand for: the text that they encode where they are
/// UTF-8, and else that text with the replacement character for what is not.
pub open spec fn text_of(bytes: Seq<u8>) -> Seq<char> {
    if valid_utf8(bytes) {
        decode_utf8(bytes)
    } else {
        lossy_text(bytes)
    }
}

/// The text that a reply carries: the body of an answer with status 200, read as
/// UTF-8, with the replacement character for what is not. Any other status is an
/// error that holds the status, and a reply that is no answer is a request error.
pub open spec fn answer_text(reply: ReplyView) -> Result<Seq<char>, Failure> {
    match reply {
        ReplyView::Failed(detail) => Err(Failure::HttpRequest(detail)),
        ReplyView::Answered(response) => if response.status != 200 {
            Err(Failure::HttpResponse(response.status))
        } else {
            Ok(text_of(response.body))
        },
    }
}

/// Reads the text that a reply carries.
pub fn read_text(reply: Reply) -> (r: Result<String, Error>)
    ensures
        text_result(r) == answer_text(reply@),
{
    match reply {
        Reply::Failed(detail) => Err(Error::new(ErrorKind::HttpRequest(detail))),
        Reply::Answered(response) => {
            if response.status != 200 {
                Err(Error::new(ErrorKind::HttpResponse(response.status)))
            } else {
                Ok(string_from_utf8_lossy(response.body.as_slice()))
            }
        },
    }
}

/// A value that may be absent: status 404 stands for "no value", not for an error.
pub open spec fn absent_as_none(r: Result<Seq<char>, Failure>) -> Result<
    Option<Seq<char>>,
    Failure,
> {
    match r {
        Ok(text) => Ok(Some(text)),
        Err(Failure::HttpResponse(code)) if code == 404 => Ok(None),
        Err(failure) => Err(failure),
    }
}

/// Turns "not found" into "no value" and leaves everything else as it is.
pub fn optional(r: Result<String, Error>) -> (o: Result<Option<String>, Error>)
    ensures
        optional_result(o) == absent_as_none(text_result(r)),
{
    match r {
        Ok(text) => Ok(Some(text)),
        Err(e) => {
            let absent = match e.kind() {
                ErrorKind::HttpResponse(code) => *code == 404,
                _ => false,
            };
            if absent {
                Ok(None)
            } else {
                Err(e)
            }
        },
    }
}

} // verus!
