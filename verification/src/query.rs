//! The questions that a client puts to the server: for each field, where to ask
//! and how to read the reply.
use vstd::prelude::*;
use crate::client::{
    body_array,
    body_lines,
    body_text,
    body_zone,
    list_outcome,
    path,
    path_and_query_text,
    read_array,
    read_body,
    read_lines,
    read_zone,
    text_outcome,
    Error,
    Fault,
};
use crate::fields::{
    account,
    account_path,
    instance_attribute_path,
    named,
    project_attribute_path,
    EXTERNAL_IP,
    HOSTNAME,
    INSTANCE_ATTRIBUTES,
    INSTANCE_ID,
    INSTANCE_NAME,
    INSTANCE_TAGS,
    INTERNAL_IP,
    NUMERIC_PROJECT_ID,
    PROJECT_ATTRIBUTES,
    PROJECT_ID,
    SERVICE_ACCOUNTS,
    ZONE,
};
use crate::wire::{metadata_path, Reply, ReplyView, METADATA_ROOT};

verus! {

/// How the text in a reply is read.
#[derive(Clone, Copy, Debug, PartialEq, Eq, Structural)]
pub enum TextForm {
    /// The text is taken as it stands.
    AsItStands,
    /// The text is trimmed.
    Trimmed,
    /// The text is a path of which the last segment, the zone, is wanted.
    Zone,
}

/// A question whose answer is one text.
#[derive(Clone, Debug)]
pub struct TextQuery {
    /// The path to ask for.
    pub path: String,
    /// How the reply is read.
    pub form: TextForm,
}

/// A question as plain values.
pub struct TextQueryView {
    pub path: Seq<char>,
    pub form: TextForm,
}

impl View for TextQuery {
    type V = TextQueryView;

    open spec fn view(&self) -> TextQueryView {
        TextQueryView { path: self.path@, form: self.form }
    }
}

impl TextQueryView {
    /// The answer that a reply holds.
    pub open spec fn answer(self, reply: ReplyView) -> Result<Seq<char>, Fault> {
        match self.form {
            TextForm::AsItStands => body_text(reply, false),
            TextForm::Trimmed => body_text(reply, true),
            TextForm::Zone => body_zone(reply),
        }
    }
}

/// The question for the trimmed text at `path`.
pub open spec fn trimmed_at(path: Seq<char>) -> TextQueryView {
    TextQueryView { path, form: TextForm::Trimmed }
}

/// The question for the text at `path` as it stands.
pub open spec fn plain_at(path: Seq<char>) -> TextQueryView {
    TextQueryView { path, form: TextForm::AsItStands }
}

/// The question for the zone that the text at `path` names.
pub open spec fn zone_at(path: Seq<char>) -> TextQueryView {
    TextQueryView { path, form: TextForm::Zone }
}

impl TextQuery {
    /// Reads the answer out of a reply.
    pub fn read(&self, reply: Reply) -> (r: Result<String, Error>)
        ensures
            text_outcome(r) == self@.answer(reply@),
    {
        match self.form {
            TextForm::AsItStands => read_body(reply, false),
            TextForm::Trimmed => read_body(reply, true),
            TextForm::Zone => read_zone(reply),
        }
    }
}

/// How the list in a reply is written.
#[derive(Clone, Copy, Debug, PartialEq, Eq, Structural)]
pub enum ListForm {
    /// One item on each line; the lines are trimmed and the empty ones left out.
    Lines,
    /// A JSON array of strings.
    Array,
}

/// A question whose answer is a list of texts.
#[derive(Clone, Debug)]
pub struct ListQuery {
    /// The path to ask for.
    pub path: String,
    /// How the list is written.
    pub form: ListForm,
}

/// A question as plain values.
pub struct ListQueryView {
    pub path: Seq<char>,
    pub form: ListForm,
}

impl View for ListQuery {
    type V = ListQueryView;

    open spec fn view(&self) -> ListQueryView {
        ListQueryView { path: self.path@, form: self.form }
    }
}

impl ListQueryView {
    /// The answer that a reply holds.
    pub open spec fn answer(self, reply: ReplyView) -> Result<Seq<Seq<char>>, Fault> {
        match self.form {
            ListForm::Lines => body_lines(reply),
            ListForm::Array => body_array(reply),
        }
    }
}

/// The question for the lines at `path`.
pub open spec fn lines_at(path: Seq<char>) -> ListQueryView {
    ListQueryView { path, form: ListForm::Lines }
}

/// The question for the JSON array at `path`.
pub open spec fn array_at(path: Seq<char>) -> ListQueryView {
    ListQueryView { path, form: ListForm::Array }
}

impl ListQuery {
    /// Reads the answer out of a reply.
    pub fn read(&self, reply: Reply) -> (r: Result<Vec<String>, Error>)
        ensures
            list_outcome(r) == self@.answer(reply@),
    {
        match self.form {
            ListForm::Lines => read_lines(reply),
            ListForm::Array => read_array(reply),
        }
    }
}

/// Where a field of a service account lives.
pub open spec fn account_suffix(service_account: Option<Seq<char>>, field: Seq<char>) -> Seq<char> {
    SERVICE_ACCOUNTS@ + account(service_account) + "/"@ + field
}

/// The path at a place that the caller named, checked: a URI error where the
/// place is not fit for a URI.
pub open spec fn checked_at(suffix: Seq<char>) -> Result<Seq<char>, Fault> {
    match path_and_query_text(METADATA_ROOT@ + suffix) {
        Some(p) => Ok(p),
        None => Err(Fault::Uri),
    }
}

/// What becomes of the question for the text, as it stands, at a place that the
/// caller named.
pub open spec fn checked_text(suffix: Seq<char>) -> Result<TextQueryView, Fault> {
    match checked_at(suffix) {
        Ok(p) => Ok(plain_at(p)),
        Err(fault) => Err(fault),
    }
}

/// A question for text, by its plain values and by what the error says.
pub open spec fn text_query_outcome(r: Result<TextQuery, Error>) -> Result<TextQueryView, Fault> {
    match r {
        Ok(q) => Ok(q@),
        Err(e) => Err(e@),
    }
}

/// A question for a list, by its plain values and by what the error says.
pub open spec fn list_query_outcome(r: Result<ListQuery, Error>) -> Result<ListQueryView, Fault> {
    match r {
        Ok(q) => Ok(q@),
        Err(e) => Err(e@),
    }
}

/// The question for the trimmed text of a field that has a fixed place.
pub fn field_query(suffix: &str) -> (q: TextQuery)
    ensures
        q@ == trimmed_at(METADATA_ROOT@ + suffix@),
{
    TextQuery { path: metadata_path(suffix), form: TextForm::Trimmed }
}

/// The project ID string.
pub fn project_id_query() -> (q: TextQuery)
    ensures
        q@ == trimmed_at(METADATA_ROOT@ + PROJECT_ID@),
{
    field_query(PROJECT_ID)
}

/// The numeric project ID.
pub fn numeric_project_id_query() -> (q: TextQuery)
    ensures
        q@ == trimmed_at(METADATA_ROOT@ + NUMERIC_PROJECT_ID@),
{
    field_query(NUMERIC_PROJECT_ID)
}

/// The numeric ID of the instance.
pub fn instance_id_query() -> (q: TextQuery)
    ensures
        q@ == trimmed_at(METADATA_ROOT@ + INSTANCE_ID@),
{
    field_query(INSTANCE_ID)
}

/// The primary internal address of the instance.
pub fn internal_ip_query() -> (q: TextQuery)
    ensures
        q@ == trimmed_at(METADATA_ROOT@ + INTERNAL_IP@),
{
    field_query(INTERNAL_IP)
}

/// The primary external address of the instance.
pub fn external_ip_query() -> (q: TextQuery)
    ensures
        q@ == trimmed_at(METADATA_ROOT@ + EXTERNAL_IP@),
{
    field_query(EXTERNAL_IP)
}

/// The host name of the instance.
pub fn hostname_query() -> (q: TextQuery)
    ensures
        q@ == trimmed_at(METADATA_ROOT@ + HOSTNAME@),
{
    field_query(HOSTNAME)
}

/// The name of the instance.
pub fn instance_name_query() -> (q: TextQuery)
    ensures
        q@ == trimmed_at(METADATA_ROOT@ + INSTANCE_NAME@),
{
    field_query(INSTANCE_NAME)
}

/// The zone of the instance.
pub fn zone_query() -> (q: TextQuery)
    ensures
        q@ == zone_at(METADATA_ROOT@ + ZONE@),
{
    TextQuery { path: metadata_path(ZONE), form: TextForm::Zone }
}

/// The value of one attribute of the instance, as it stands.
pub fn instance_attr_query(attr: &str) -> (r: Result<TextQuery, Error>)
    ensures
        text_query_outcome(r) == checked_text(INSTANCE_ATTRIBUTES@ + attr@),
{
    let suffix = instance_attribute_path(attr);
    match path(suffix.as_str()) {
        Ok(p) => Ok(TextQuery { path: p, form: TextForm::AsItStands }),
        Err(e) => Err(e),
    }
}

/// The value of one attribute of the project, as it stands.
pub fn project_attr_query(attr: &str) -> (r: Result<TextQuery, Error>)
    ensures
        text_query_outcome(r) == checked_text(PROJECT_ATTRIBUTES@ + attr@),
{
    let suffix = project_attribute_path(attr);
    match path(suffix.as_str()) {
        Ok(p) => Ok(TextQuery { path: p, form: TextForm::AsItStands }),
        Err(e) => Err(e),
    }
}

/// The path of a field of a service account: the default account has a fixed
/// place, the place of a named one is checked.
pub open spec fn account_at(sa: Option<Seq<char>>, field: Seq<char>) -> Result<Seq<char>, Fault> {
    match sa {
        None => Ok(METADATA_ROOT@ + account_suffix(None, field)),
        Some(name) => checked_at(account_suffix(Some(name), field)),
    }
}

/// Finds the path of a field of a service account.
pub fn account_place(sa: Option<&str>, field: &str) -> (r: Result<String, Error>)
    ensures
        text_outcome(r) == account_at(named(sa), field@),
{
    let suffix = account_path(sa, field);
    proof {
        assert(suffix@ == account_suffix(named(sa), field@));
    }
    match sa {
        None => Ok(metadata_path(suffix.as_str())),
        Some(_) => path(suffix.as_str()),
    }
}

/// What becomes of the question for the e-mail address of a service account.
pub open spec fn email_text(sa: Option<Seq<char>>) -> Result<TextQueryView, Fault> {
    match account_at(sa, "email"@) {
        Ok(p) => Ok(trimmed_at(p)),
        Err(fault) => Err(fault),
    }
}

/// The e-mail address of a service account.
pub fn email_query(sa: Option<&str>) -> (r: Result<TextQuery, Error>)
    ensures
        text_query_outcome(r) == email_text(named(sa)),
{
    match account_place(sa, "email") {
        Ok(p) => Ok(TextQuery { path: p, form: TextForm::Trimmed }),
        Err(e) => Err(e),
    }
}

/// The tags of the instance.
pub fn instance_tags_query() -> (q: ListQuery)
    ensures
        q@ == array_at(METADATA_ROOT@ + INSTANCE_TAGS@),
{
    ListQuery { path: metadata_path(INSTANCE_TAGS), form: ListForm::Array }
}

/// The names of the attributes of the instance.
pub fn instance_attrs_query() -> (q: ListQuery)
    ensures
        q@ == lines_at(METADATA_ROOT@ + INSTANCE_ATTRIBUTES@),
{
    ListQuery { path: metadata_path(INSTANCE_ATTRIBUTES), form: ListForm::Lines }
}

/// The names of the attributes of the project.
pub fn project_attrs_query() -> (q: ListQuery)
    ensures
        q@ == lines_at(METADATA_ROOT@ + PROJECT_ATTRIBUTES@),
{
    ListQuery { path: metadata_path(PROJECT_ATTRIBUTES), form: ListForm::Lines }
}

/// What becomes of the question for the scopes of a service account.
pub open spec fn scopes_list(sa: Option<Seq<char>>) -> Result<ListQueryView, Fault> {
    match account_at(sa, "scopes"@) {
        Ok(p) => Ok(lines_at(p)),
        Err(fault) => Err(fault),
    }
}

/// The scopes of a service account.
pub fn scopes_query(sa: Option<&str>) -> (r: Result<ListQuery, Error>)
    ensures
        list_query_outcome(r) == scopes_list(named(sa)),
{
    match account_place(sa, "scopes") {
        Ok(p) => Ok(ListQuery { path: p, form: ListForm::Lines }),
        Err(e) => Err(e),
    }
}

} // verus!
