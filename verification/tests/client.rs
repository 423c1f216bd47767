use std::cell::{Cell, RefCell};

use gcemeta::cache::State;
use gcemeta::client::{
    array_outcome, path, read_array, read_body, read_lines, read_parts, read_zone, Cache, Client,
    Error,
};
use gcemeta::detect::Signal;
use gcemeta::wire::{Env, Reply, Request, Response};

fn ok(body: &str) -> Reply {
    Reply::Answered(Response { status: 200, headers: Vec::new(), body: body.as_bytes().to_vec() })
}

fn status(code: u16) -> Reply {
    Reply::Answered(Response { status: code, headers: Vec::new(), body: Vec::new() })
}

const ROOT: &str = "http://169.254.169.254/computeMetadata/v1/";

/// A client whose server knows one URL.
fn client_for<'a>(url: String, body: &'a str) -> Client<impl Fn(Request) -> Reply + 'a> {
    Client::new_with(
        move |q: Request| {
            assert_eq!(q.url, url);
            ok(body)
        },
        Env::unset(),
    )
}

#[test]
fn client_sends_identified_requests() {
    let c = Client::new_with(
        |q: Request| {
            assert_eq!(q.url, "http://example.com:8080/computeMetadata/v1/instance/hostname");
            assert_eq!(q.headers.len(), 2);
            assert_eq!(q.headers[0].name, "Metadata-Flavor");
            assert_eq!(q.headers[0].value, "Google");
            assert_eq!(q.headers[1].name, "User-Agent");
            assert_eq!(q.connect_timeout_secs, 2);
            ok("h\n")
        },
        Env::init(Some("http://example.com:8080")),
    );
    assert_eq!(c.hostname().unwrap(), "h");
}

#[test]
fn client_get_trims_on_request() {
    let c = client_for("http://169.254.169.254/x".to_owned(), " v \n");
    assert_eq!(c.get("/x", true).unwrap(), "v");
    assert_eq!(c.get("/x", false).unwrap(), " v \n");
}

#[test]
fn client_get_parts_returns_the_answer() {
    let c = client_for("http://169.254.169.254/x".to_owned(), "body");
    let parts = c.get_parts("/x").unwrap();
    assert_eq!(parts.status, 200);
    assert_eq!(parts.body, b"body".to_vec());
}

#[test]
fn client_reports_the_status() {
    let c = Client::new_with(|_q: Request| status(404), Env::unset());
    assert!(matches!(c.internal_ip(), Err(Error::StatusCode(404))));
    assert!(matches!(c.get_parts("/x"), Err(Error::StatusCode(404))));
    assert!(matches!(c.instance_tags(), Err(Error::StatusCode(404))));
}

#[test]
fn client_reports_a_failed_request() {
    let c = Client::new_with(|_q: Request| Reply::Failed("refused".to_owned()), Env::unset());
    match c.external_ip() {
        Err(Error::Http(detail)) => assert_eq!(detail, "refused"),
        _ => unreachable!(),
    }
}

#[test]
fn client_reports_a_body_that_is_not_utf8() {
    let c = Client::new_with(
        |_q: Request| {
            Reply::Answered(Response { status: 200, headers: Vec::new(), body: vec![0xc3, 0x28] })
        },
        Env::unset(),
    );
    assert!(matches!(c.hostname(), Err(Error::Encoding(_))));
}

#[test]
fn client_internal_ip() {
    let c = client_for(format!("{}instance/network-interfaces/0/ip", ROOT), "10.0.0.2\n");
    assert_eq!(c.internal_ip().unwrap(), "10.0.0.2");
}

#[test]
fn client_external_ip() {
    let c = client_for(
        format!("{}instance/network-interfaces/0/access-configs/0/external-ip", ROOT),
        "34.1.2.3\n",
    );
    assert_eq!(c.external_ip().unwrap(), "34.1.2.3");
}

#[test]
fn client_instance_name_has_a_field_of_its_own() {
    let c = client_for(format!("{}instance/name", ROOT), "vm-1\n");
    assert_eq!(c.instance_name().unwrap(), "vm-1");
}

#[test]
fn client_instance_tags() {
    let c = client_for(format!("{}instance/tags", ROOT), r#"["a", "b"]"#);
    assert_eq!(c.instance_tags().unwrap(), vec!["a", "b"]);
}

#[test]
fn client_instance_tags_that_are_no_array() {
    let c = client_for(format!("{}instance/tags", ROOT), "a\nb");
    assert!(matches!(c.instance_tags(), Err(Error::Json)));
}

#[test]
fn client_zone_is_the_last_segment() {
    let c = client_for(format!("{}instance/zone", ROOT), "projects/123/zones/us-central1-b\n");
    assert_eq!(c.zone().unwrap(), "us-central1-b");
}

#[test]
fn client_zone_may_not_be_empty() {
    let c = client_for(format!("{}instance/zone", ROOT), "projects/123/zones/");
    assert!(matches!(c.zone(), Err(Error::MetadataParse("zone"))));
    let c = client_for(format!("{}instance/zone", ROOT), "");
    assert!(matches!(c.zone(), Err(Error::MetadataParse("zone"))));
    let c = client_for(format!("{}instance/zone", ROOT), " \n");
    assert!(matches!(c.zone(), Err(Error::MetadataParse("zone"))));
}

#[test]
fn client_attrs_are_trimmed_lines() {
    let c = client_for(format!("{}instance/attributes/", ROOT), "a\n\n b \n");
    assert_eq!(c.instance_attrs().unwrap(), vec!["a", "b"]);
    let c = client_for(format!("{}project/attributes/", ROOT), "x\r\n\n\ty\n\n");
    assert_eq!(c.project_attrs().unwrap(), vec!["x", "y"]);
    let c = client_for(format!("{}project/attributes/", ROOT), "\n \n");
    assert_eq!(c.project_attrs().unwrap(), Vec::<String>::new());
}

#[test]
fn client_attr_is_not_trimmed() {
    let c = client_for(format!("{}instance/attributes/key", ROOT), " value\n");
    assert_eq!(c.instance_attr("key").unwrap(), " value\n");
    let c = client_for(format!("{}project/attributes/key", ROOT), " value\n");
    assert_eq!(c.project_attr("key").unwrap(), " value\n");
}

#[test]
fn client_attr_refuses_a_name_unfit_for_a_uri() {
    let c = Client::new_with(|_q: Request| -> Reply { unreachable!() }, Env::unset());
    assert!(matches!(c.instance_attr("a b"), Err(Error::Uri(_))));
    assert!(matches!(c.project_attr("a\nb"), Err(Error::Uri(_))));
    assert!(matches!(c.email(Some("a b")), Err(Error::Uri(_))));
    assert!(matches!(c.scopes(Some("a b")), Err(Error::Uri(_))));
}

#[test]
fn client_attr_sends_no_fragment() {
    let c = client_for(format!("{}instance/attributes/key", ROOT), "v");
    assert_eq!(c.instance_attr("key#rest").unwrap(), "v");
}

#[test]
fn path_is_checked() {
    assert_eq!(path("instance/id").unwrap(), "/computeMetadata/v1/instance/id");
    assert_eq!(path("a?b=c#d").unwrap(), "/computeMetadata/v1/a?b=c");
    assert!(matches!(path("a b"), Err(Error::Uri(_))));
}

#[test]
fn client_email() {
    let c = client_for(format!("{}instance/service-accounts/default/email", ROOT), "d@x\n");
    assert_eq!(c.email(None).unwrap(), "d@x");
    let c = client_for(format!("{}instance/service-accounts/me@x/email", ROOT), "me@x\n");
    assert_eq!(c.email(Some("me@x")).unwrap(), "me@x");
}

#[test]
fn client_scopes() {
    let c = client_for(format!("{}instance/service-accounts/default/scopes", ROOT), "a\nb\n");
    assert_eq!(c.scopes(None).unwrap(), vec!["a", "b"]);
    let c = client_for(format!("{}instance/service-accounts/me@x/scopes", ROOT), "\n a\n\nb \n");
    assert_eq!(c.scopes(Some("me@x")).unwrap(), vec!["a", "b"]);
}

#[test]
fn client_project_id_is_fetched_once() {
    let calls = Cell::new(0);
    let mut c = Client::new_with(
        |q: Request| {
            calls.set(calls.get() + 1);
            assert_eq!(q.url, format!("{}project/project-id", ROOT));
            ok("my-project\n")
        },
        Env::unset(),
    );
    assert_eq!(c.project_id().unwrap(), "my-project");
    assert_eq!(c.project_id().unwrap(), "my-project");
    assert_eq!(calls.get(), 1);
}

#[test]
fn client_project_id_is_fetched_again_after_a_failure() {
    let replies = RefCell::new(vec![ok("my-project"), status(503)]);
    let mut c = Client::new_with(|_q: Request| replies.borrow_mut().pop().unwrap(), Env::unset());
    assert!(matches!(c.project_id(), Err(Error::StatusCode(503))));
    assert_eq!(c.project_id().unwrap(), "my-project");
    assert_eq!(c.project_id().unwrap(), "my-project");
    assert!(replies.borrow().is_empty());
}

#[test]
fn client_keeps_each_value_apart() {
    let mut c = Client::new_with(
        |q: Request| {
            if q.url.ends_with("/project/project-id") {
                ok("p")
            } else if q.url.ends_with("/project/numeric-project-id") {
                ok("1")
            } else if q.url.ends_with("/instance/id") {
                ok("42")
            } else {
                status(404)
            }
        },
        Env::unset(),
    );
    assert_eq!(c.instance_id().unwrap(), "42");
    assert_eq!(c.numeric_project_id().unwrap(), "1");
    assert_eq!(c.project_id().unwrap(), "p");
    assert_eq!(c.instance_id().unwrap(), "42");
    assert_eq!(c.numeric_project_id().unwrap(), "1");
}

#[test]
fn client_on_gce_trusts_the_environment() {
    let mut c = Client::new_with(
        |_q: Request| -> Reply { unreachable!() },
        Env::init(Some("localhost:8080")),
    );
    assert!(c.on_gce(|_: usize| -> Signal { unreachable!() }).unwrap());
}

#[test]
fn client_on_gce_runs_the_race_once() {
    let calls = Cell::new(0);
    let next = |_: usize| {
        calls.set(calls.get() + 1);
        Signal::Probe(calls.get() == 2)
    };
    let mut c = Client::new_with(|_q: Request| -> Reply { unreachable!() }, Env::unset());
    assert!(c.on_gce(&next).unwrap());
    assert!(c.on_gce(&next).unwrap());
    assert_eq!(calls.get(), 2);
}

#[test]
fn client_on_gce_keeps_a_negative_answer() {
    let mut c = Client::new_with(|_q: Request| -> Reply { unreachable!() }, Env::unset());
    assert!(!c.on_gce(|_: usize| Signal::Timeout).unwrap());
    assert!(!c.on_gce(|_: usize| -> Signal { unreachable!() }).unwrap());
}

#[test]
fn default_cache_is_empty() {
    let cache = Cache::default();
    assert!(matches!(cache.on_gce.state(), State::Empty));
    assert!(matches!(cache.project_id.state(), State::Empty));
    assert!(matches!(cache.numeric_project_id.state(), State::Empty));
    assert!(matches!(cache.instance_id.state(), State::Empty));
}

#[test]
fn readers_take_replies() {
    assert_eq!(read_parts(ok("b")).unwrap().body, b"b".to_vec());
    assert!(matches!(read_parts(status(500)), Err(Error::StatusCode(500))));
    assert_eq!(read_body(ok(" b "), true).unwrap(), "b");
    assert_eq!(read_body(ok(" b "), false).unwrap(), " b ");
    assert_eq!(read_array(ok("[\"x\"]")).unwrap(), vec!["x"]);
    assert!(matches!(read_array(ok("[1]")), Err(Error::Json)));
    assert_eq!(read_lines(ok("\na\n\n b \n")).unwrap(), vec!["a", "b"]);
    assert_eq!(read_zone(ok("a/b\n")).unwrap(), "b");
    assert!(matches!(read_zone(ok("a/\n")), Err(Error::MetadataParse("zone"))));
}

#[test]
fn client_new_reads_the_override() {
    let c = Client::new(
        |q: Request| {
            assert_eq!(q.url, "http://meta.example:81/computeMetadata/v1/instance/hostname");
            ok("h")
        },
        Some("http://meta.example:81/ignored"),
    );
    assert_eq!(c.hostname().unwrap(), "h");
    let c = Client::new(
        |q: Request| {
            assert_eq!(q.url, format!("{}instance/hostname", ROOT));
            ok("h")
        },
        None,
    );
    assert_eq!(c.hostname().unwrap(), "h");
}

#[test]
fn client_try_new_refuses_a_bad_override() {
    assert!(Client::try_new(|_q: Request| status(200), Some("no host here")).is_none());
    assert!(Client::try_new(|_q: Request| status(200), Some("")).is_none());
    let c = Client::try_new(
        |q: Request| {
            assert_eq!(q.url, "http://meta.example/computeMetadata/v1/instance/hostname");
            ok("h")
        },
        Some("meta.example"),
    )
    .unwrap();
    assert_eq!(c.hostname().unwrap(), "h");
    assert!(Client::try_new(|_q: Request| status(200), None).is_some());
}

#[test]
fn array_outcome_maps_failure_to_json_error() {
    assert_eq!(array_outcome(Some(vec!["a".to_owned()])).unwrap(), vec!["a"]);
    assert!(matches!(array_outcome(None), Err(Error::Json)));
}

#[test]
fn read_body_decodes_utf8() {
    let reply = Reply::Answered(Response {
        status: 200,
        headers: Vec::new(),
        body: vec![0xc3, 0xa9, 0x21, 0x0a],
    });
    assert_eq!(read_body(reply, true).unwrap(), "é!");
}
