use gcemeta::client::Error;
use gcemeta::query::{
    account_place, email_query, external_ip_query, field_query, hostname_query,
    instance_attr_query, instance_attrs_query, instance_id_query, instance_name_query,
    instance_tags_query, internal_ip_query, numeric_project_id_query, project_attr_query,
    project_attrs_query, project_id_query, scopes_query, zone_query, ListForm, ListQuery,
    TextForm, TextQuery,
};
use gcemeta::wire::{Reply, Response};

fn ok(body: &str) -> Reply {
    Reply::Answered(Response { status: 200, headers: Vec::new(), body: body.as_bytes().to_vec() })
}

fn is_trimmed_field(q: &TextQuery, suffix: &str) -> bool {
    q.path == format!("/computeMetadata/v1/{}", suffix) && q.form == TextForm::Trimmed
}

#[test]
fn fixed_fields_ask_for_trimmed_text() {
    assert!(is_trimmed_field(&project_id_query(), "project/project-id"));
    assert!(is_trimmed_field(&numeric_project_id_query(), "project/numeric-project-id"));
    assert!(is_trimmed_field(&instance_id_query(), "instance/id"));
    assert!(is_trimmed_field(&internal_ip_query(), "instance/network-interfaces/0/ip"));
    assert!(is_trimmed_field(
        &external_ip_query(),
        "instance/network-interfaces/0/access-configs/0/external-ip"
    ));
    assert!(is_trimmed_field(&hostname_query(), "instance/hostname"));
    assert!(is_trimmed_field(&instance_name_query(), "instance/name"));
    assert!(is_trimmed_field(&field_query("a/b"), "a/b"));
}

#[test]
fn zone_asks_for_the_last_segment() {
    let q = zone_query();
    assert_eq!(q.path, "/computeMetadata/v1/instance/zone");
    assert_eq!(q.form, TextForm::Zone);
    assert_eq!(q.read(ok("projects/1/zones/z\n")).unwrap(), "z");
    assert!(matches!(q.read(ok("projects/1/zones/\n")), Err(Error::MetadataParse("zone"))));
    assert!(matches!(q.read(ok("")), Err(Error::MetadataParse("zone"))));
}

#[test]
fn attributes_are_asked_for_as_they_stand() {
    let q = instance_attr_query("key").unwrap();
    assert_eq!(q.path, "/computeMetadata/v1/instance/attributes/key");
    assert_eq!(q.form, TextForm::AsItStands);
    let q = project_attr_query("key").unwrap();
    assert_eq!(q.path, "/computeMetadata/v1/project/attributes/key");
    assert_eq!(q.form, TextForm::AsItStands);
    assert_eq!(q.read(ok(" v ")).unwrap(), " v ");
}

#[test]
fn named_places_are_checked() {
    assert!(matches!(instance_attr_query("a b"), Err(Error::Uri(_))));
    assert!(matches!(project_attr_query("a b"), Err(Error::Uri(_))));
    assert!(matches!(email_query(Some("a b")), Err(Error::Uri(_))));
    assert!(matches!(scopes_query(Some("a b")), Err(Error::Uri(_))));
    assert!(matches!(account_place(Some("a b"), "email"), Err(Error::Uri(_))));
    assert_eq!(
        account_place(Some("a#b"), "email").unwrap(),
        "/computeMetadata/v1/instance/service-accounts/a"
    );
    assert_eq!(
        account_place(None, "email").unwrap(),
        "/computeMetadata/v1/instance/service-accounts/default/email"
    );
}

#[test]
fn email_of_accounts() {
    let q = email_query(None).unwrap();
    assert_eq!(q.path, "/computeMetadata/v1/instance/service-accounts/default/email");
    assert_eq!(q.form, TextForm::Trimmed);
    let q = email_query(Some("me@x")).unwrap();
    assert_eq!(q.path, "/computeMetadata/v1/instance/service-accounts/me@x/email");
    assert_eq!(q.form, TextForm::Trimmed);
}

#[test]
fn scopes_of_accounts() {
    let q = scopes_query(None).unwrap();
    assert_eq!(q.path, "/computeMetadata/v1/instance/service-accounts/default/scopes");
    assert_eq!(q.form, ListForm::Lines);
    let q = scopes_query(Some("me@x")).unwrap();
    assert_eq!(q.path, "/computeMetadata/v1/instance/service-accounts/me@x/scopes");
    assert_eq!(q.form, ListForm::Lines);
}

#[test]
fn lists_have_their_forms() {
    let q = instance_tags_query();
    assert_eq!(q.path, "/computeMetadata/v1/instance/tags");
    assert_eq!(q.form, ListForm::Array);
    let q = instance_attrs_query();
    assert_eq!(q.path, "/computeMetadata/v1/instance/attributes/");
    assert_eq!(q.form, ListForm::Lines);
    let q = project_attrs_query();
    assert_eq!(q.path, "/computeMetadata/v1/project/attributes/");
    assert_eq!(q.form, ListForm::Lines);
}

#[test]
fn list_forms_read_differently() {
    let body = "\n [\"a\"] \n";
    let lines = ListQuery { path: "/x".to_owned(), form: ListForm::Lines };
    assert_eq!(lines.read(ok(body)).unwrap(), vec!["[\"a\"]"]);
    let array = ListQuery { path: "/x".to_owned(), form: ListForm::Array };
    assert_eq!(array.read(ok(body)).unwrap(), vec!["a"]);
}

#[test]
fn text_query_reads_as_asked() {
    let plain = TextQuery { path: "/x".to_owned(), form: TextForm::AsItStands };
    assert_eq!(plain.read(ok(" a/b ")).unwrap(), " a/b ");
    let trimmed = TextQuery { path: "/x".to_owned(), form: TextForm::Trimmed };
    assert_eq!(trimmed.read(ok(" a/b ")).unwrap(), "a/b");
    let zone = TextQuery { path: "/x".to_owned(), form: TextForm::Zone };
    assert_eq!(zone.read(ok(" a/b ")).unwrap(), "b");
}
