//! The getters, one for each field of the metadata service.
//!
//! Each getter takes the host to ask, as `Env`, and the transport, as a function
//! that sends one request and returns what came of it. A getter sends exactly one
//! request; the cached ones send none where the value is there.
use vstd::prelude::*;
use crate::cache::{CacheEntry, Claim, State};
use crate::detect::{awaited, detected, test_on_gce, Signal};
use crate::error::{list_result, optional_result, text_result, Error, ErrorKind, Failure};
use crate::fields::{
    account,
    account_path,
    instance_attribute_path,
    instance_name_text,
    json_list,
    line_list,
    named,
    optional_text,
    project_attribute_path,
    read_instance_name,
    read_json_array,
    read_lines,
    read_optional,
    read_trimmed,
    read_zone,
    trimmed_text,
    zone_text,
    EXTERNAL_IP,
    HOSTNAME,
    INSTANCE_ATTRIBUTES,
    INSTANCE_ID,
    INSTANCE_TAGS,
    INTERNAL_IP,
    NUMERIC_PROJECT_ID,
    PROJECT_ATTRIBUTES,
    PROJECT_ID,
    SERVICE_ACCOUNTS,
    ZONE,
};
use crate::wire::{answer_text, metadata_request, read_text, request_for, Env, Reply, Request};

verus! {

/// Whether `fetch` can be called with the request for `suffix` on `host`.
pub open spec fn reachable<F: FnOnce(Request) -> Reply>(
    fetch: F,
    host: Option<Seq<char>>,
    suffix: Seq<char>,
) -> bool {
    forall|q: Request| q@ == metadata_request(host, suffix) ==> #[trigger] call_requires(fetch, (q,))
}

/// Whether `reply` is what `fetch` returned for the request for `suffix` on `host`.
pub open spec fn fetched<F: FnOnce(Request) -> Reply>(
    fetch: F,
    host: Option<Seq<char>>,
    suffix: Seq<char>,
    reply: Reply,
) -> bool {
    exists|q: Request| q@ == metadata_request(host, suffix) && #[trigger] call_ensures(fetch, (q,), reply)
}

/// Sends the request for `suffix` and returns what came of it.
pub fn ask<F>(env: &Env, suffix: &str, fetch: F) -> (reply: Reply) where
    F: FnOnce(Request) -> Reply,

    requires
        reachable(fetch, env.host(), suffix@),
    ensures
        fetched(fetch, env.host(), suffix@, reply),
{
    let q = request_for(env, suffix);
    fetch(q)
}

/// Gets the text at `suffix`.
pub fn get_meta<F>(env: &Env, suffix: &str, fetch: F) -> (r: Result<String, Error>) where
    F: FnOnce(Request) -> Reply,

    requires
        reachable(fetch, env.host(), suffix@),
    ensures
        exists|reply: Reply| #[trigger]
            fetched(fetch, env.host(), suffix@, reply) && text_result(r) == answer_text(reply@),
{
    read_text(ask(env, suffix, fetch))
}

/// Get value from the metadata service.
///
/// The suffix is appended to `http://<host>/computeMetadata/v1/`, where the host
/// is the one that `env` names, or `169.254.169.254`. A value that the server does
/// not know is `None`.
pub fn get<F>(env: &Env, suffix: &str, fetch: F) -> (r: Result<Option<String>, Error>) where
    F: FnOnce(Request) -> Reply,

    requires
        reachable(fetch, env.host(), suffix@),
    ensures
        exists|reply: Reply| #[trigger]
            fetched(fetch, env.host(), suffix@, reply) && optional_result(r) == optional_text(
                reply@,
            ),
{
    read_optional(ask(env, suffix, fetch))
}

/// Gets the text at `suffix`, trimmed.
pub fn get_trimmed<F>(env: &Env, suffix: &str, fetch: F) -> (r: Result<String, Error>) where
    F: FnOnce(Request) -> Reply,

    requires
        reachable(fetch, env.host(), suffix@),
    ensures
        exists|reply: Reply| #[trigger]
            fetched(fetch, env.host(), suffix@, reply) && text_result(r) == trimmed_text(reply@),
{
    read_trimmed(ask(env, suffix, fetch))
}

/// Gets the lines at `suffix`.
pub fn get_lines<F>(env: &Env, suffix: &str, fetch: F) -> (r: Result<Vec<String>, Error>) where
    F: FnOnce(Request) -> Reply,

    requires
        reachable(fetch, env.host(), suffix@),
    ensures
        exists|reply: Reply| #[trigger]
            fetched(fetch, env.host(), suffix@, reply) && list_result(r) == line_list(reply@),
{
    read_lines(ask(env, suffix, fetch))
}

/// What a cached getter returns and leaves behind: the value that was there; or
/// `Uninitialized` for an entry whose computation never ended; or, for an empty
/// entry, the trimmed text that `fetch` brought, which is then kept.
pub open spec fn cached<F: FnOnce(Request) -> Reply>(
    before: State<String>,
    after: State<String>,
    host: Option<Seq<char>>,
    suffix: Seq<char>,
    fetch: F,
    r: Result<String, Error>,
) -> bool {
    match before {
        State::Filled(value) => text_result(r) == Ok::<Seq<char>, Failure>(value@) && after
            == before,
        State::InFlight => text_result(r) == Err::<Seq<char>, Failure>(Failure::Uninitialized)
            && after == before,
        State::Empty => {
            &&& exists|reply: Reply| #[trigger]
                fetched(fetch, host, suffix, reply) && text_result(r) == trimmed_text(reply@)
            &&& match r {
                Ok(value) => after == State::Filled(value),
                Err(_) => after is Empty,
            }
        },
    }
}

/// Gets the trimmed text at `suffix` through `entry`: from the entry where it is
/// filled, else from the server, filling the entry where that succeeds.
pub fn get_cached<F>(entry: &mut CacheEntry<String>, env: &Env, suffix: &str, fetch: F) -> (r:
    Result<String, Error>) where F: FnOnce(Request) -> Reply
    requires
        old(entry)@ is Empty ==> reachable(fetch, env.host(), suffix@),
    ensures
        cached(old(entry)@, final(entry)@, env.host(), suffix@, fetch, r),
{
    let known: Option<Result<String, Error>> = match entry.claim() {
        Claim::Hit(value) => Some(Ok(value.clone())),
        Claim::Wait => Some(Err(Error::new(ErrorKind::Uninitialized))),
        Claim::Compute => None,
    };
    match known {
        Some(r) => r,
        None => {
            let outcome = get_trimmed(env, suffix, fetch);
            match entry.settle(outcome) {
                Ok(value) => Ok(value.clone()),
                Err(e) => Err(e),
            }
        },
    }
}

/// Get the current instance's project ID string.
pub fn project_id<F>(entry: &mut CacheEntry<String>, env: &Env, fetch: F) -> (r: Result<
    String,
    Error,
>) where F: FnOnce(Request) -> Reply
    requires
        old(entry)@ is Empty ==> reachable(fetch, env.host(), PROJECT_ID@),
    ensures
        cached(old(entry)@, final(entry)@, env.host(), PROJECT_ID@, fetch, r),
{
    get_cached(entry, env, PROJECT_ID, fetch)
}

/// Get the current instance's numeric project ID.
pub fn numeric_project_id<F>(entry: &mut CacheEntry<String>, env: &Env, fetch: F) -> (r: Result<
    String,
    Error,
>) where F: FnOnce(Request) -> Reply
    requires
        old(entry)@ is Empty ==> reachable(fetch, env.host(), NUMERIC_PROJECT_ID@),
    ensures
        cached(old(entry)@, final(entry)@, env.host(), NUMERIC_PROJECT_ID@, fetch, r),
{
    get_cached(entry, env, NUMERIC_PROJECT_ID, fetch)
}

/// Get the current VM's numeric instance ID.
pub fn instance_id<F>(entry: &mut CacheEntry<String>, env: &Env, fetch: F) -> (r: Result<
    String,
    Error,
>) where F: FnOnce(Request) -> Reply
    requires
        old(entry)@ is Empty ==> reachable(fetch, env.host(), INSTANCE_ID@),
    ensures
        cached(old(entry)@, final(entry)@, env.host(), INSTANCE_ID@, fetch, r),
{
    get_cached(entry, env, INSTANCE_ID, fetch)
}

/// What one call of `on_gce` makes of the flag: it leaves the answer there, and
/// the answer is the one that was there, if one was.
pub open spec fn found(before: State<bool>, after: State<bool>, on: bool) -> bool {
    &&& after == State::Filled(on)
    &&& before matches State::Filled(known) ==> on == known
}

/// Callers of `on_gce` who take their turns one after another, as callers do who
/// wait for one another at a lock, all get the answer that the first one got; and
/// every caller but the first finds the flag filled, so that the probes are sent
/// for the first alone.
pub proof fn lemma_on_gce_in_turn(flags: Seq<State<bool>>, ons: Seq<bool>, j: int)
    requires
        flags.len() == ons.len() + 1,
        forall|k: int| 0 <= k < ons.len() ==> found(flags[k], #[trigger] flags[k + 1], ons[k]),
        0 <= j < ons.len(),
    ensures
        ons[j] == ons[0],
        flags[j + 1] == State::Filled(ons[0]),
        j > 0 ==> flags[j] is Filled,
    decreases j,
{
    assert(found(flags[j], flags[j + 1], ons[j]));
    if j > 0 {
        lemma_on_gce_in_turn(flags, ons, j - 1);
    }
}

/// Report whether this process is running on Google Compute Engine.
///
/// The answer is found once and kept in `flag`. `next` waits for the signals of
/// the probes, as `test_on_gce` says; it is asked only where the answer is not
/// known yet and the environment names no metadata host.
pub fn on_gce<N>(flag: &mut CacheEntry<bool>, env: &Env, next: N) -> (on: bool) where
    N: Fn(usize) -> Signal,

    requires
        !(old(flag)@ is Filled) ==> awaited(env.host() is Some, next),
    ensures
        found(old(flag)@, final(flag)@, on),
        !(old(flag)@ is Filled) ==> detected(env.host() is Some, next, on),
{
    let known: Option<bool> = match flag.get() {
        Some(on) => Some(*on),
        None => None,
    };
    match known {
        Some(on) => on,
        None => {
            let on = test_on_gce(env.is_set(), next);
            *flag.fill(on)
        },
    }
}

/// Get the instance's primary internal IP address.
pub fn internal_ip<F>(env: &Env, fetch: F) -> (r: Result<String, Error>) where
    F: FnOnce(Request) -> Reply,

    requires
        reachable(fetch, env.host(), INTERNAL_IP@),
    ensures
        exists|reply: Reply| #[trigger]
            fetched(fetch, env.host(), INTERNAL_IP@, reply) && text_result(r) == trimmed_text(
                reply@,
            ),
{
    get_trimmed(env, INTERNAL_IP, fetch)
}

/// Get the instance's primary external (public) IP address.
pub fn external_ip<F>(env: &Env, fetch: F) -> (r: Result<String, Error>) where
    F: FnOnce(Request) -> Reply,

    requires
        reachable(fetch, env.host(), EXTERNAL_IP@),
    ensures
        exists|reply: Reply| #[trigger]
            fetched(fetch, env.host(), EXTERNAL_IP@, reply) && text_result(r) == trimmed_text(
                reply@,
            ),
{
    get_trimmed(env, EXTERNAL_IP, fetch)
}

/// Get the instance's hostname.
///
/// This will be of the form `<instance_id>.c.<project_id>.internal`.
pub fn hostname<F>(env: &Env, fetch: F) -> (r: Result<String, Error>) where
    F: FnOnce(Request) -> Reply,

    requires
        reachable(fetch, env.host(), HOSTNAME@),
    ensures
        exists|reply: Reply| #[trigger]
            fetched(fetch, env.host(), HOSTNAME@, reply) && text_result(r) == trimmed_text(reply@),
{
    get_trimmed(env, HOSTNAME, fetch)
}

/// Get the list of user-defined instance tags, assigned when initially creating a GCE instance.
pub fn instance_tags<F>(env: &Env, fetch: F) -> (r: Result<Vec<String>, Error>) where
    F: FnOnce(Request) -> Reply,

    requires
        reachable(fetch, env.host(), INSTANCE_TAGS@),
    ensures
        exists|reply: Reply| #[trigger]
            fetched(fetch, env.host(), INSTANCE_TAGS@, reply) && list_result(r) == json_list(
                reply@,
            ),
{
    read_json_array(ask(env, INSTANCE_TAGS, fetch))
}

/// Get the current VM's instance ID string.
pub fn instance_name<F>(env: &Env, fetch: F) -> (r: Result<String, Error>) where
    F: FnOnce(Request) -> Reply,

    requires
        reachable(fetch, env.host(), HOSTNAME@),
    ensures
        exists|reply: Reply| #[trigger]
            fetched(fetch, env.host(), HOSTNAME@, reply) && text_result(r) == instance_name_text(
                reply@,
            ),
{
    read_instance_name(ask(env, HOSTNAME, fetch))
}

/// Get the current VM's zone, such as `us-central1-b`.
pub fn zone<F>(env: &Env, fetch: F) -> (r: Result<String, Error>) where
    F: FnOnce(Request) -> Reply,

    requires
        reachable(fetch, env.host(), ZONE@),
    ensures
        exists|reply: Reply| #[trigger]
            fetched(fetch, env.host(), ZONE@, reply) && text_result(r) == zone_text(reply@),
{
    read_zone(ask(env, ZONE, fetch))
}

/// Get the list of user-defined attributes, assigned when initially creating a GCE VM instance.
pub fn instance_attributes<F>(env: &Env, fetch: F) -> (r: Result<Vec<String>, Error>) where
    F: FnOnce(Request) -> Reply,

    requires
        reachable(fetch, env.host(), INSTANCE_ATTRIBUTES@),
    ensures
        exists|reply: Reply| #[trigger]
            fetched(fetch, env.host(), INSTANCE_ATTRIBUTES@, reply) && list_result(r) == line_list(
                reply@,
            ),
{
    get_lines(env, INSTANCE_ATTRIBUTES, fetch)
}

/// Get the list of user-defined attributes applying to the project as a whole, not just this VM.
pub fn project_attributes<F>(env: &Env, fetch: F) -> (r: Result<Vec<String>, Error>) where
    F: FnOnce(Request) -> Reply,

    requires
        reachable(fetch, env.host(), PROJECT_ATTRIBUTES@),
    ensures
        exists|reply: Reply| #[trigger]
            fetched(fetch, env.host(), PROJECT_ATTRIBUTES@, reply) && list_result(r) == line_list(
                reply@,
            ),
{
    get_lines(env, PROJECT_ATTRIBUTES, fetch)
}

/// Get the value of the provided VM instance attribute.
pub fn instance_attribute_value<F>(env: &Env, attr: &str, fetch: F) -> (r: Result<
    Option<String>,
    Error,
>) where F: FnOnce(Request) -> Reply
    requires
        reachable(fetch, env.host(), INSTANCE_ATTRIBUTES@ + attr@),
    ensures
        exists|reply: Reply| #[trigger]
            fetched(fetch, env.host(), INSTANCE_ATTRIBUTES@ + attr@, reply) && optional_result(r)
                == optional_text(reply@),
{
    let path = instance_attribute_path(attr);
    get(env, path.as_str(), fetch)
}

/// Get the value of the provided project attribute.
pub fn project_attribute_value<F>(env: &Env, attr: &str, fetch: F) -> (r: Result<
    Option<String>,
    Error,
>) where F: FnOnce(Request) -> Reply
    requires
        reachable(fetch, env.host(), PROJECT_ATTRIBUTES@ + attr@),
    ensures
        exists|reply: Reply| #[trigger]
            fetched(fetch, env.host(), PROJECT_ATTRIBUTES@ + attr@, reply) && optional_result(r)
                == optional_text(reply@),
{
    let path = project_attribute_path(attr);
    get(env, path.as_str(), fetch)
}

/// Where the scopes of a service account live.
pub open spec fn scopes_suffix(service_account: Option<Seq<char>>) -> Seq<char> {
    SERVICE_ACCOUNTS@ + account(service_account) + "/"@ + "scopes"@
}

/// Get the service account scopes for the given account.
///
/// The account may be `None` or `Some("default")` to use the instance's main account.
pub fn scopes<F>(env: &Env, service_account: Option<&str>, fetch: F) -> (r: Result<
    Vec<String>,
    Error,
>) where F: FnOnce(Request) -> Reply
    requires
        reachable(fetch, env.host(), scopes_suffix(named(service_account))),
    ensures
        exists|reply: Reply| #[trigger]
            fetched(fetch, env.host(), scopes_suffix(named(service_account)), reply)
                && list_result(r) == line_list(reply@),
{
    let path = account_path(service_account, "scopes");
    get_lines(env, path.as_str(), fetch)
}

} // verus!
