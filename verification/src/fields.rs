//! The fields of the metadata service: where each one lives and how its value is
//! read from the reply.
use vstd::prelude::*;
use crate::error::{list_result, optional_result, text_result, Error, Failure};
use crate::json::{array_or_parse_error, json_array, json_text_array};
use crate::text::{
    instance_name_in,
    lines,
    lines_of,
    parse_instance_name,
    parse_zone,
    trim,
    trimmed,
    zone_in,
};
use crate::wire::{absent_as_none, answer_text, optional, read_text, Reply, ReplyView};

verus! {

/// The project ID string.
pub const PROJECT_ID: &'static str = "project/project-id";

/// The numeric project ID.
pub const NUMERIC_PROJECT_ID: &'static str = "project/numeric-project-id";

/// The numeric ID of the instance.
pub const INSTANCE_ID: &'static str = "instance/id";

/// The primary internal address of the instance.
pub const INTERNAL_IP: &'static str = "instance/network-interfaces/0/ip";

/// The primary external address of the instance.
pub const EXTERNAL_IP: &'static str = "instance/network-interfaces/0/access-configs/0/external-ip";

/// The host name of the instance.
pub const HOSTNAME: &'static str = "instance/hostname";

/// The tags of the instance, as a JSON array.
pub const INSTANCE_TAGS: &'static str = "instance/tags";

/// The name of the instance.
pub const INSTANCE_NAME: &'static str = "instance/name";

/// The zone of the instance, as a path.
pub const ZONE: &'static str = "instance/zone";

/// The directory of the attributes of the instance.
pub const INSTANCE_ATTRIBUTES: &'static str = "instance/attributes/";

/// The directory of the attributes of the project.
pub const PROJECT_ATTRIBUTES: &'static str = "project/attributes/";

/// The directory of the service accounts of the instance.
pub const SERVICE_ACCOUNTS: &'static str = "instance/service-accounts/";

/// The service account that is taken where none is named.
pub const DEFAULT_ACCOUNT: &'static str = "default";

/// The account to ask about: the one that is named, else the default one.
pub open spec fn account(service_account: Option<Seq<char>>) -> Seq<char> {
    match service_account {
        Some(name) => name,
        None => DEFAULT_ACCOUNT@,
    }
}

/// By its text, the account that may be named.
pub open spec fn named(service_account: Option<&str>) -> Option<Seq<char>> {
    match service_account {
        Some(name) => Some(name@),
        None => None,
    }
}

/// Where one attribute of the instance lives.
pub fn instance_attribute_path(attr: &str) -> (path: String)
    ensures
        path@ == INSTANCE_ATTRIBUTES@ + attr@,
{
    let mut path = INSTANCE_ATTRIBUTES.to_owned();
    path.append(attr);
    path
}

/// Where one attribute of the project lives.
pub fn project_attribute_path(attr: &str) -> (path: String)
    ensures
        path@ == PROJECT_ATTRIBUTES@ + attr@,
{
    let mut path = PROJECT_ATTRIBUTES.to_owned();
    path.append(attr);
    path
}

/// Where a field of a service account lives. `field` is `scopes` or `email`.
pub fn account_path(service_account: Option<&str>, field: &str) -> (path: String)
    ensures
        path@ == SERVICE_ACCOUNTS@ + account(named(service_account)) + "/"@ + field@,
{
    let mut path = SERVICE_ACCOUNTS.to_owned();
    match service_account {
        Some(name) => path.append(name),
        None => path.append(DEFAULT_ACCOUNT),
    }
    path.append("/");
    path.append(field);
    path
}

// ---------------------------------------------------------------------------
// Readings
// ---------------------------------------------------------------------------

/// The text of a reply, trimmed.
pub open spec fn trimmed_text(reply: ReplyView) -> Result<Seq<char>, Failure> {
    match answer_text(reply) {
        Ok(text) => Ok(trimmed(text)),
        Err(failure) => Err(failure),
    }
}

/// The text of a reply, or nothing where the server knows no such value.
pub open spec fn optional_text(reply: ReplyView) -> Result<Option<Seq<char>>, Failure> {
    absent_as_none(answer_text(reply))
}

/// The lines of a reply, each trimmed, without the empty ones.
pub open spec fn line_list(reply: ReplyView) -> Result<Seq<Seq<char>>, Failure> {
    match answer_text(reply) {
        Ok(text) => Ok(lines_of(text)),
        Err(failure) => Err(failure),
    }
}

/// The strings of the JSON array that a reply holds.
pub open spec fn json_list(reply: ReplyView) -> Result<Seq<Seq<char>>, Failure> {
    match answer_text(reply) {
        Ok(text) => array_or_parse_error(json_text_array(text)),
        Err(failure) => Err(failure),
    }
}

/// The zone that a reply names.
pub open spec fn zone_text(reply: ReplyView) -> Result<Seq<char>, Failure> {
    match trimmed_text(reply) {
        Ok(text) => zone_in(text),
        Err(failure) => Err(failure),
    }
}

/// The instance name in the host name that a reply holds.
pub open spec fn instance_name_text(reply: ReplyView) -> Result<Seq<char>, Failure> {
    match trimmed_text(reply) {
        Ok(text) => instance_name_in(text),
        Err(failure) => Err(failure),
    }
}

/// Reads a reply as trimmed text.
pub fn read_trimmed(reply: Reply) -> (r: Result<String, Error>)
    ensures
        text_result(r) == trimmed_text(reply@),
{
    match read_text(reply) {
        Ok(text) => Ok(trim(text.as_str())),
        Err(e) => Err(e),
    }
}

/// Reads a reply as text that may be absent.
pub fn read_optional(reply: Reply) -> (r: Result<Option<String>, Error>)
    ensures
        optional_result(r) == optional_text(reply@),
{
    optional(read_text(reply))
}

/// Reads a reply as a list of lines.
pub fn read_lines(reply: Reply) -> (r: Result<Vec<String>, Error>)
    ensures
        list_result(r) == line_list(reply@),
{
    match read_text(reply) {
        Ok(text) => Ok(lines(text.as_str())),
        Err(e) => Err(e),
    }
}

/// Reads a reply as a JSON array of strings.
pub fn read_json_array(reply: Reply) -> (r: Result<Vec<String>, Error>)
    ensures
        list_result(r) == json_list(reply@),
{
    match read_text(reply) {
        Ok(text) => json_array(text.as_str()),
        Err(e) => Err(e),
    }
}

/// Reads the zone out of a reply.
pub fn read_zone(reply: Reply) -> (r: Result<String, Error>)
    ensures
        text_result(r) == zone_text(reply@),
{
    match read_trimmed(reply) {
        Ok(text) => parse_zone(text.as_str()),
        Err(e) => Err(e),
    }
}

/// Reads the instance name out of a reply that holds the host name.
pub fn read_instance_name(reply: Reply) -> (r: Result<String, Error>)
    ensures
        text_result(r) == instance_name_text(reply@),
{
    match read_trimmed(reply) {
        Ok(text) => parse_instance_name(text.as_str()),
        Err(e) => Err(e),
    }
}

} // verus!
