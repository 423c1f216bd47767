//! A client that keeps what it has learnt: the host to ask, and the values that
//! never change while the instance lives.
use std::str::FromStr;
use vstd::prelude::*;
use vstd::utf8::{decode_utf8, valid_utf8};
use crate::cache::{CacheEntry, State};
use crate::metadata::found;
use crate::detect::{awaited, detected, Signal};
use crate::fields::{
    named,
    EXTERNAL_IP,
    HOSTNAME,
    INSTANCE_ATTRIBUTES,
    INSTANCE_ID,
    INSTANCE_NAME,
    INSTANCE_TAGS,
    INTERNAL_IP,
    NUMERIC_PROJECT_ID,
    PROJECT_ATTRIBUTES,
    PROJECT_ID,
    ZONE,
};
use crate::json::{array_from_reader, json_stream_array};
use crate::query::{
    checked_text,
    email_query,
    email_text,
    external_ip_query,
    hostname_query,
    instance_attr_query,
    instance_attrs_query,
    instance_id_query,
    instance_name_query,
    instance_tags_query,
    internal_ip_query,
    list_query_outcome,
    numeric_project_id_query,
    project_attr_query,
    project_attrs_query,
    project_id_query,
    scopes_list,
    scopes_query,
    text_query_outcome,
    trimmed_at,
    zone_query,
    ListQuery,
    ListQueryView,
    TextQuery,
    TextQueryView,
};
use crate::text::{last_segment, lines, lines_of, split, texts, trim, trimmed};
use crate::wire::{
    metadata_path,
    standard_request,
    string_from_utf8,
    Config,
    Env,
    Reply,
    ReplyView,
    Request,
    Response,
    ResponseView,
    METADATA_ROOT,
};

verus! {

/// Represents errors that can occur during handling metadata service.
#[derive(Debug)]
pub enum Error {
    /// No response arrived; the text says why.
    Http(String),
    /// A path is not fit for a URI.
    Uri(hyper::http::uri::InvalidUri),
    /// The server answered with a status code other than 200.
    StatusCode(u16),
    /// The body of the response is not UTF-8.
    Encoding(std::string::FromUtf8Error),
    /// The body of the response is not the JSON that was expected.
    Json,
    /// The body of the response does not hold what the field should hold; the tag
    /// names the field.
    MetadataParse(&'static str),
}

/// What an [`Error`] says, as plain values.
pub enum Fault {
    Http(Seq<char>),
    Uri,
    StatusCode(u16),
    Encoding,
    Json,
    MetadataParse(Seq<char>),
}

impl View for Error {
    type V = Fault;

    open spec fn view(&self) -> Fault {
        match *self {
            Error::Http(detail) => Fault::Http(detail@),
            Error::Uri(_) => Fault::Uri,
            Error::StatusCode(code) => Fault::StatusCode(code),
            Error::Encoding(_) => Fault::Encoding,
            Error::Json => Fault::Json,
            Error::MetadataParse(tag) => Fault::MetadataParse(tag@),
        }
    }
}

/// A result that carries text, by the text and by what the error says.
pub open spec fn text_outcome(r: Result<String, Error>) -> Result<Seq<char>, Fault> {
    match r {
        Ok(text) => Ok(text@),
        Err(e) => Err(e@),
    }
}

/// A result that carries a list of texts, by the texts and by what the error says.
pub open spec fn list_outcome(r: Result<Vec<String>, Error>) -> Result<Seq<Seq<char>>, Fault> {
    match r {
        Ok(list) => Ok(texts(list@)),
        Err(e) => Err(e@),
    }
}

// ---------------------------------------------------------------------------
// Paths
// ---------------------------------------------------------------------------

/// The path and query that `text` denotes, as they go into a request: `text`
/// without a fragment, if `text` is fit for a URI.
pub uninterp spec fn path_and_query_text(text: Seq<char>) -> Option<Seq<char>>;

/// Calls `PathAndQuery::from_str` of the `http` crate, as `hyper` hands it on, and
/// copies the outcome out with `PathAndQuery::as_str`. The parser reads nothing
/// but its argument, so what comes back is named by `path_and_query_text`: the
/// path and query where the text is accepted, the parser's error otherwise.
#[verifier::external_body]
pub(crate) fn checked_path(text: &str) -> (r: Result<String, hyper::http::uri::InvalidUri>)
    ensures
        match r {
            Ok(path) => path_and_query_text(text@) == Some(path@),
            Err(_) => path_and_query_text(text@) is None,
        },
{
    hyper::http::uri::PathAndQuery::from_str(text).map(|p| p.as_str().to_owned())
}

/// The path of the metadata value at `suffix`, checked: a suffix that is not fit
/// for a URI is refused.
pub fn path(suffix: &str) -> (r: Result<String, Error>)
    ensures
        match path_and_query_text(METADATA_ROOT@ + suffix@) {
            Some(p) => text_outcome(r) == Ok::<Seq<char>, Fault>(p),
            None => text_outcome(r) == Err::<Seq<char>, Fault>(Fault::Uri),
        },
{
    let full = metadata_path(suffix);
    match checked_path(full.as_str()) {
        Ok(p) => Ok(p),
        Err(e) => Err(Error::Uri(e)),
    }
}

// ---------------------------------------------------------------------------
// Readings
// ---------------------------------------------------------------------------

/// The answer in a reply: the response, where there is one and its status is 200.
pub open spec fn answer_parts(reply: ReplyView) -> Result<ResponseView, Fault> {
    match reply {
        ReplyView::Failed(detail) => Err(Fault::Http(detail)),
        ReplyView::Answered(response) => if response.status == 200 {
            Ok(response)
        } else {
            Err(Fault::StatusCode(response.status))
        },
    }
}

/// The text in a reply: the body of the answer, decoded as UTF-8, and trimmed
/// where that is asked for.
pub open spec fn body_text(reply: ReplyView, trim: bool) -> Result<Seq<char>, Fault> {
    match answer_parts(reply) {
        Err(fault) => Err(fault),
        Ok(response) => if !valid_utf8(response.body) {
            Err(Fault::Encoding)
        } else if trim {
            Ok(trimmed(decode_utf8(response.body)))
        } else {
            Ok(decode_utf8(response.body))
        },
    }
}

/// The strings of the JSON array in a reply.
pub open spec fn body_array(reply: ReplyView) -> Result<Seq<Seq<char>>, Fault> {
    match answer_parts(reply) {
        Err(fault) => Err(fault),
        Ok(response) => match json_stream_array(response.body) {
            Some(list) => Ok(list),
            None => Err(Fault::Json),
        },
    }
}

/// The zone in a path: what stands behind the last slash, which may not be empty.
pub open spec fn zone_of(text: Seq<char>) -> Result<Seq<char>, Fault> {
    let zone = split(text, '/').last();
    if zone.len() > 0 {
        Ok(zone)
    } else {
        Err(Fault::MetadataParse("zone"@))
    }
}

/// The zone that a reply names: what stands behind the last slash of its trimmed
/// text. A reply that names no zone is a parse error with the tag `zone`.
pub open spec fn body_zone(reply: ReplyView) -> Result<Seq<char>, Fault> {
    match body_text(reply, true) {
        Ok(text) => zone_of(text),
        Err(fault) => Err(fault),
    }
}

/// The lines of a reply: each one trimmed, the empty ones left out.
pub open spec fn body_lines(reply: ReplyView) -> Result<Seq<Seq<char>>, Fault> {
    match body_text(reply, false) {
        Ok(text) => Ok(lines_of(text)),
        Err(fault) => Err(fault),
    }
}

/// Takes the answer out of a reply.
pub fn read_parts(reply: Reply) -> (r: Result<Response, Error>)
    ensures
        match r {
            Ok(response) => answer_parts(reply@) == Ok::<ResponseView, Fault>(response@),
            Err(e) => answer_parts(reply@) == Err::<ResponseView, Fault>(e@),
        },
{
    match reply {
        Reply::Failed(detail) => Err(Error::Http(detail)),
        Reply::Answered(response) => if response.status == 200 {
            Ok(response)
        } else {
            Err(Error::StatusCode(response.status))
        },
    }
}

/// Reads the text in a reply.
pub fn read_body(reply: Reply, trim_it: bool) -> (r: Result<String, Error>)
    ensures
        text_outcome(r) == body_text(reply@, trim_it),
{
    match read_parts(reply) {
        Err(e) => Err(e),
        Ok(response) => match string_from_utf8(response.body) {
            Err(e) => Err(Error::Encoding(e)),
            Ok(text) => if trim_it {
                Ok(trim(text.as_str()))
            } else {
                Ok(text)
            },
        },
    }
}

/// Turns the outcome of decoding into a result: the list as it is, and a failure
/// to decode into a JSON error.
pub fn array_outcome(decoded: Option<Vec<String>>) -> (r: Result<Vec<String>, Error>)
    ensures
        match decoded {
            Some(list) => r == Ok::<Vec<String>, Error>(list),
            None => r matches Err(Error::Json),
        },
{
    match decoded {
        Some(list) => Ok(list),
        None => Err(Error::Json),
    }
}

/// Reads the JSON array of strings in a reply.
pub fn read_array(reply: Reply) -> (r: Result<Vec<String>, Error>)
    ensures
        list_outcome(r) == body_array(reply@),
{
    match read_parts(reply) {
        Err(e) => Err(e),
        Ok(response) => array_outcome(array_from_reader(response.body.as_slice())),
    }
}

/// Reads the zone that a reply names.
pub fn read_zone(reply: Reply) -> (r: Result<String, Error>)
    ensures
        text_outcome(r) == body_zone(reply@),
{
    match read_body(reply, true) {
        Err(e) => Err(e),
        Ok(text) => {
            let zone = last_segment(text.as_str(), '/');
            if zone.as_str().is_empty() {
                Err(Error::MetadataParse("zone"))
            } else {
                Ok(zone)
            }
        },
    }
}

/// Reads the lines of a reply.
pub fn read_lines(reply: Reply) -> (r: Result<Vec<String>, Error>)
    ensures
        list_outcome(r) == body_lines(reply@),
{
    match read_body(reply, false) {
        Ok(text) => Ok(lines(text.as_str())),
        Err(e) => Err(e),
    }
}

// ---------------------------------------------------------------------------
// The client
// ---------------------------------------------------------------------------

/// The values that a client keeps.
#[derive(Debug)]
pub struct Cache {
    pub on_gce: CacheEntry<bool>,
    pub project_id: CacheEntry<String>,
    pub numeric_project_id: CacheEntry<String>,
    pub instance_id: CacheEntry<String>,
}

impl Default for Cache {
    fn default() -> (cache: Cache)
        ensures
            cache.on_gce@ is Empty,
            cache.project_id@ is Empty,
            cache.numeric_project_id@ is Empty,
            cache.instance_id@ is Empty,
    {
        Cache {
            on_gce: CacheEntry::new(),
            project_id: CacheEntry::new(),
            numeric_project_id: CacheEntry::new(),
            instance_id: CacheEntry::new(),
        }
    }
}

/// Whether `reply` is what `inner` returned for the request for `path` on `host`.
pub open spec fn asked<F: Fn(Request) -> Reply>(
    inner: F,
    host: Option<Seq<char>>,
    path: Seq<char>,
    reply: Reply,
) -> bool {
    exists|q: Request| q@ == standard_request(host, path) && #[trigger] call_ensures(inner, (q,), reply)
}

/// What a getter returns for a question: the answer in the reply that the server
/// gave to it.
pub open spec fn answered<F: Fn(Request) -> Reply>(
    inner: F,
    host: Option<Seq<char>>,
    q: TextQueryView,
    r: Result<Seq<char>, Fault>,
) -> bool {
    exists|reply: Reply| #[trigger] asked(inner, host, q.path, reply) && r == q.answer(reply@)
}

/// What a getter returns for a question whose answer is a list.
pub open spec fn listed<F: Fn(Request) -> Reply>(
    inner: F,
    host: Option<Seq<char>>,
    q: ListQueryView,
    r: Result<Seq<Seq<char>>, Fault>,
) -> bool {
    exists|reply: Reply| #[trigger] asked(inner, host, q.path, reply) && r == q.answer(reply@)
}

/// What a getter returns for a question that may have been refused: the fault
/// with which it was refused, else the answer in the reply that the server gave.
pub open spec fn told<F: Fn(Request) -> Reply>(
    inner: F,
    host: Option<Seq<char>>,
    q: Result<TextQueryView, Fault>,
    r: Result<Seq<char>, Fault>,
) -> bool {
    match q {
        Err(fault) => r == Err::<Seq<char>, Fault>(fault),
        Ok(q) => answered(inner, host, q, r),
    }
}

/// The same for a question whose answer is a list.
pub open spec fn told_list<F: Fn(Request) -> Reply>(
    inner: F,
    host: Option<Seq<char>>,
    q: Result<ListQueryView, Fault>,
    r: Result<Seq<Seq<char>>, Fault>,
) -> bool {
    match q {
        Err(fault) => r == Err::<Seq<Seq<char>>, Fault>(fault),
        Ok(q) => listed(inner, host, q, r),
    }
}

/// What a cached getter returns and leaves behind: the value that was there, or
/// the answer that the server gave, which is then kept.
pub open spec fn kept<F: Fn(Request) -> Reply>(
    before: State<String>,
    after: State<String>,
    inner: F,
    host: Option<Seq<char>>,
    q: TextQueryView,
    r: Result<String, Error>,
) -> bool {
    match before {
        State::Filled(value) => text_outcome(r) == Ok::<Seq<char>, Fault>(value@) && after
            == before,
        _ => {
            &&& answered(inner, host, q, text_outcome(r))
            &&& match r {
                Ok(value) => after == State::Filled(value),
                Err(_) => after == before,
            }
        },
    }
}

/// The way to the server: the transport, the host, and what requests are made
/// with.
struct Link<F: Fn(Request) -> Reply> {
    inner: F,
    env: Env,
    config: Config,
}

impl<F: Fn(Request) -> Reply> Link<F> {
    #[verifier::type_invariant]
    spec fn sound(self) -> bool {
        &&& forall|q: Request| call_requires(self.inner, (q,))
        &&& self.config.is_standard()
    }

    /// Sends the request for `path` and returns what came of it.
    fn send(&self, path: &str) -> (reply: Reply)
        ensures
            asked(self.inner, self.env.host(), path@, reply),
    {
        proof {
            use_type_invariant(self);
        }
        let q = self.config.request(&self.env, path);
        (self.inner)(q)
    }

    /// Puts a question to the server and reads the answer.
    fn text(&self, q: &TextQuery) -> (r: Result<String, Error>)
        ensures
            answered(self.inner, self.env.host(), q@, text_outcome(r)),
    {
        let reply = self.send(q.path.as_str());
        proof {
            assert(asked(self.inner, self.env.host(), q@.path, reply));
        }
        q.read(reply)
    }

    /// Returns the value that `entry` holds, or puts the question to the server
    /// and keeps the answer.
    fn keep(&self, entry: &mut CacheEntry<String>, q: &TextQuery) -> (r: Result<String, Error>)
        ensures
            kept(old(entry)@, final(entry)@, self.inner, self.env.host(), q@, r),
    {
        let known: Option<String> = match entry.get() {
            Some(value) => Some(value.clone()),
            None => None,
        };
        match known {
            Some(value) => Ok(value),
            None => match self.text(q) {
                Ok(value) => {
                    let kept = entry.fill(value);
                    Ok(kept.clone())
                },
                Err(e) => Err(e),
            },
        }
    }
}

/// A Client to access metadata service.
pub struct Client<F: Fn(Request) -> Reply> {
    link: Link<F>,
    cache: Cache,
}

impl<F: Fn(Request) -> Reply> Client<F> {
    /// The transport.
    pub closed spec fn transport(self) -> F {
        self.link.inner
    }

    /// The host that takes the place of the documented address, if any.
    pub closed spec fn host(self) -> Option<Seq<char>> {
        self.link.env.host()
    }

    /// What the client has kept.
    pub closed spec fn kept_values(self) -> Cache {
        self.cache
    }

    /// Whether this is a client that has learnt nothing yet, with this transport
    /// and this host.
    pub open spec fn fresh(self, inner: F, host: Option<Seq<char>>) -> bool {
        &&& self.transport() == inner
        &&& self.host() == host
        &&& self.kept_values().on_gce@ is Empty
        &&& self.kept_values().project_id@ is Empty
        &&& self.kept_values().numeric_project_id@ is Empty
        &&& self.kept_values().instance_id@ is Empty
    }

    /// Whether `other` differs from this client at most in what it has kept.
    pub open spec fn same_link(self, other: Self) -> bool {
        &&& self.transport() == other.transport()
        &&& self.host() == other.host()
    }

    /// Create a new client using the passed transport, which must take every
    /// request, and the value of the override variable, `None` where it is not set.
    ///
    /// A value that is set and names no host is a mistake of configuration with
    /// which no program should start: test with `Env::accepts`, or use `try_new`.
    pub fn new(inner: F, value: Option<&str>) -> (client: Self)
        requires
            forall|q: Request| call_requires(inner, (q,)),
            Env::admits(value),
        ensures
            client.fresh(inner, Env::named_by(value)),
    {
        Client::new_with(inner, Env::init(value))
    }

    /// Creates a new client where the value of the override variable can stand
    /// there, and returns `None` where it cannot.
    pub fn try_new(inner: F, value: Option<&str>) -> (r: Option<Self>)
        requires
            forall|q: Request| call_requires(inner, (q,)),
        ensures
            match r {
                Some(client) => Env::admits(value) && client.fresh(inner, Env::named_by(value)),
                None => !Env::admits(value),
            },
    {
        if Env::accepts(value) {
            Some(Client::new(inner, value))
        } else {
            None
        }
    }

    /// Create a new client using the passed transport, which must take every
    /// request, and the passed environment.
    pub fn new_with(inner: F, env: Env) -> (client: Self)
        requires
            forall|q: Request| call_requires(inner, (q,)),
        ensures
            client.fresh(inner, env.host()),
    {
        Client { link: Link { inner, env, config: Config::default() }, cache: Cache::default() }
    }

    /// Sends the request for `path` and returns the answer. Anything but an answer
    /// with status 200 is an error.
    pub fn get_parts(&self, path: &str) -> (r: Result<Response, Error>)
        ensures
            exists|reply: Reply| #[trigger]
                asked(self.transport(), self.host(), path@, reply) && (match r {
                    Ok(response) => answer_parts(reply@) == Ok::<ResponseView, Fault>(response@),
                    Err(e) => answer_parts(reply@) == Err::<ResponseView, Fault>(e@),
                }),
    {
        read_parts(self.send(path))
    }

    /// Sends the request for `path` and returns what came of it.
    pub fn send(&self, path: &str) -> (reply: Reply)
        ensures
            asked(self.transport(), self.host(), path@, reply),
    {
        self.link.send(path)
    }

    /// Puts a question to the server and reads the answer.
    pub fn text(&self, q: &TextQuery) -> (r: Result<String, Error>)
        ensures
            answered(self.transport(), self.host(), q@, text_outcome(r)),
    {
        self.link.text(q)
    }

    /// Puts a question to the server and reads the answer.
    pub fn list(&self, q: &ListQuery) -> (r: Result<Vec<String>, Error>)
        ensures
            listed(self.transport(), self.host(), q@, list_outcome(r)),
    {
        let reply = self.send(q.path.as_str());
        proof {
            assert(asked(self.transport(), self.host(), q@.path, reply));
        }
        q.read(reply)
    }

    /// Puts a question that may have been refused, and reads the answer.
    pub fn text_if(&self, q: Result<TextQuery, Error>) -> (r: Result<String, Error>)
        ensures
            told(self.transport(), self.host(), text_query_outcome(q), text_outcome(r)),
    {
        match q {
            Ok(q) => self.text(&q),
            Err(e) => Err(e),
        }
    }

    /// Puts a question for a list that may have been refused, and reads the answer.
    pub fn list_if(&self, q: Result<ListQuery, Error>) -> (r: Result<Vec<String>, Error>)
        ensures
            told_list(self.transport(), self.host(), list_query_outcome(q), list_outcome(r)),
    {
        match q {
            Ok(q) => self.list(&q),
            Err(e) => Err(e),
        }
    }

    /// Get value from the metadata service.
    pub fn get(&self, path: &str, trim: bool) -> (r: Result<String, Error>)
        ensures
            exists|reply: Reply| #[trigger]
                asked(self.transport(), self.host(), path@, reply) && text_outcome(r) == body_text(
                    reply@,
                    trim,
                ),
    {
        read_body(self.send(path), trim)
    }

    /// Get value from the metadata service, as a JSON array of strings.
    pub fn get_as(&self, path: &str) -> (r: Result<Vec<String>, Error>)
        ensures
            exists|reply: Reply| #[trigger]
                asked(self.transport(), self.host(), path@, reply) && list_outcome(r)
                    == body_array(reply@),
    {
        read_array(self.send(path))
    }

    /// Report whether this process is running on Google Compute Engine.
    ///
    /// The answer is found once and kept. `next` waits for the signals of the
    /// probes, as `test_on_gce` says; it is asked only where the answer is not known
    /// yet and the environment names no metadata host.
    pub fn on_gce<N>(&mut self, next: N) -> (r: Result<bool, Error>) where N: Fn(usize) -> Signal
        requires
            !(old(self).kept_values().on_gce@ is Filled) ==> awaited(
                old(self).host() is Some,
                next,
            ),
        ensures
            r matches Ok(on) && found(
                old(self).kept_values().on_gce@,
                final(self).kept_values().on_gce@,
                on,
            ) && (!(old(self).kept_values().on_gce@ is Filled) ==> detected(
                old(self).host() is Some,
                next,
                on,
            )),
            final(self).same_link(*old(self)),
            final(self).kept_values().project_id == old(self).kept_values().project_id,
            final(self).kept_values().numeric_project_id == old(
                self,
            ).kept_values().numeric_project_id,
            final(self).kept_values().instance_id == old(self).kept_values().instance_id,
    {
        Ok(crate::metadata::on_gce(&mut self.cache.on_gce, &self.link.env, next))
    }

    /// Get the current instance's project ID string.
    pub fn project_id(&mut self) -> (r: Result<String, Error>)
        ensures
            kept(
                old(self).kept_values().project_id@,
                final(self).kept_values().project_id@,
                old(self).transport(),
                old(self).host(),
                trimmed_at(METADATA_ROOT@ + PROJECT_ID@),
                r,
            ),
            final(self).same_link(*old(self)),
            final(self).kept_values().on_gce == old(self).kept_values().on_gce,
            final(self).kept_values().numeric_project_id == old(
                self,
            ).kept_values().numeric_project_id,
            final(self).kept_values().instance_id == old(self).kept_values().instance_id,
    {
        self.link.keep(&mut self.cache.project_id, &project_id_query())
    }

    /// Get the current instance's numeric project ID.
    pub fn numeric_project_id(&mut self) -> (r: Result<String, Error>)
        ensures
            kept(
                old(self).kept_values().numeric_project_id@,
                final(self).kept_values().numeric_project_id@,
                old(self).transport(),
                old(self).host(),
                trimmed_at(METADATA_ROOT@ + NUMERIC_PROJECT_ID@),
                r,
            ),
            final(self).same_link(*old(self)),
            final(self).kept_values().on_gce == old(self).kept_values().on_gce,
            final(self).kept_values().project_id == old(self).kept_values().project_id,
            final(self).kept_values().instance_id == old(self).kept_values().instance_id,
    {
        self.link.keep(&mut self.cache.numeric_project_id, &numeric_project_id_query())
    }

    /// Get the current VM's numeric instance ID.
    pub fn instance_id(&mut self) -> (r: Result<String, Error>)
        ensures
            kept(
                old(self).kept_values().instance_id@,
                final(self).kept_values().instance_id@,
                old(self).transport(),
                old(self).host(),
                trimmed_at(METADATA_ROOT@ + INSTANCE_ID@),
                r,
            ),
            final(self).same_link(*old(self)),
            final(self).kept_values().on_gce == old(self).kept_values().on_gce,
            final(self).kept_values().project_id == old(self).kept_values().project_id,
            final(self).kept_values().numeric_project_id == old(
                self,
            ).kept_values().numeric_project_id,
    {
        self.link.keep(&mut self.cache.instance_id, &instance_id_query())
    }

    /// Get the instance's primary internal IP address.
    pub fn internal_ip(&self) -> (r: Result<String, Error>)
        ensures
            exists|reply: Reply| #[trigger]
                asked(self.transport(), self.host(), METADATA_ROOT@ + INTERNAL_IP@, reply)
                    && text_outcome(r) == body_text(reply@, true),
    {
        self.text(&internal_ip_query())
    }

    /// Get the instance's primary external (public) IP address.
    pub fn external_ip(&self) -> (r: Result<String, Error>)
        ensures
            exists|reply: Reply| #[trigger]
                asked(self.transport(), self.host(), METADATA_ROOT@ + EXTERNAL_IP@, reply)
                    && text_outcome(r) == body_text(reply@, true),
    {
        self.text(&external_ip_query())
    }

    /// Get service account's email.
    pub fn email(&self, sa: Option<&str>) -> (r: Result<String, Error>)
        ensures
            told(self.transport(), self.host(), email_text(named(sa)), text_outcome(r)),
    {
        self.text_if(email_query(sa))
    }

    /// Get the instance's hostname.
    ///
    /// This will be of the form `<instance_id>.c.<project_id>.internal`.
    pub fn hostname(&self) -> (r: Result<String, Error>)
        ensures
            exists|reply: Reply| #[trigger]
                asked(self.transport(), self.host(), METADATA_ROOT@ + HOSTNAME@, reply)
                    && text_outcome(r) == body_text(reply@, true),
    {
        self.text(&hostname_query())
    }

    /// Get the list of user-defined instance tags, assigned when initially creating a GCE instance.
    pub fn instance_tags(&self) -> (r: Result<Vec<String>, Error>)
        ensures
            exists|reply: Reply| #[trigger]
                asked(self.transport(), self.host(), METADATA_ROOT@ + INSTANCE_TAGS@, reply)
                    && list_outcome(r) == body_array(reply@),
    {
        self.list(&instance_tags_query())
    }

    /// Get the current VM's instance ID string.
    pub fn instance_name(&self) -> (r: Result<String, Error>)
        ensures
            exists|reply: Reply| #[trigger]
                asked(self.transport(), self.host(), METADATA_ROOT@ + INSTANCE_NAME@, reply)
                    && text_outcome(r) == body_text(reply@, true),
    {
        self.text(&instance_name_query())
    }

    /// Get the current VM's zone, such as `us-central1-b`.
    ///
    /// The server names the zone as `projects/<id>/zones/<zone>`. An answer that
    /// ends in no zone is a parse error with the tag `zone`.
    pub fn zone(&self) -> (r: Result<String, Error>)
        ensures
            exists|reply: Reply| #[trigger]
                asked(self.transport(), self.host(), METADATA_ROOT@ + ZONE@, reply)
                    && text_outcome(r) == body_zone(reply@),
    {
        self.text(&zone_query())
    }

    /// Get the list of user-defined attributes, assigned when initially creating a GCE VM instance.
    pub fn instance_attrs(&self) -> (r: Result<Vec<String>, Error>)
        ensures
            exists|reply: Reply| #[trigger]
                asked(self.transport(), self.host(), METADATA_ROOT@ + INSTANCE_ATTRIBUTES@, reply)
                    && list_outcome(r) == body_lines(reply@),
    {
        self.list(&instance_attrs_query())
    }

    /// Get the list of user-defined attributes applying to the project as a whole, not just this VM.
    pub fn project_attrs(&self) -> (r: Result<Vec<String>, Error>)
        ensures
            exists|reply: Reply| #[trigger]
                asked(self.transport(), self.host(), METADATA_ROOT@ + PROJECT_ATTRIBUTES@, reply)
                    && list_outcome(r) == body_lines(reply@),
    {
        self.list(&project_attrs_query())
    }

    /// Get the value of the provided VM instance attribute.
    pub fn instance_attr(&self, attr: &str) -> (r: Result<String, Error>)
        ensures
            told(
                self.transport(),
                self.host(),
                checked_text(INSTANCE_ATTRIBUTES@ + attr@),
                text_outcome(r),
            ),
    {
        self.text_if(instance_attr_query(attr))
    }

    /// Get the value of the provided project attribute.
    pub fn project_attr(&self, attr: &str) -> (r: Result<String, Error>)
        ensures
            told(
                self.transport(),
                self.host(),
                checked_text(PROJECT_ATTRIBUTES@ + attr@),
                text_outcome(r),
            ),
    {
        self.text_if(project_attr_query(attr))
    }

    /// Get the service account scopes for the given account.
    pub fn scopes(&self, sa: Option<&str>) -> (r: Result<Vec<String>, Error>)
        ensures
            told_list(self.transport(), self.host(), scopes_list(named(sa)), list_outcome(r)),
    {
        self.list_if(scopes_query(sa))
    }
}

} // verus!
