use gcemeta::error::{decimal_string, Error, ErrorKind};
use gcemeta::json::json_array;
use gcemeta::wire::{
    header_value, optional, probe_for, read_text, request_for, same_text, Config, Env, Header,
    Reply, Request, Response,
};

fn answer(status: u16, body: &str) -> Reply {
    Reply::Answered(Response { status, headers: Vec::new(), body: body.as_bytes().to_vec() })
}

fn header<'a>(q: &'a Request, name: &str) -> Option<&'a str> {
    header_value(&q.headers, name)
}

#[test]
fn request_goes_to_the_documented_address() {
    let q = request_for(&Env::unset(), "project/project-id");
    assert_eq!(q.url, "http://169.254.169.254/computeMetadata/v1/project/project-id");
}

#[test]
fn request_goes_to_the_named_host() {
    let env = Env::init(Some("localhost:8080"));
    let q = request_for(&env, "instance/id");
    assert_eq!(q.url, "http://localhost:8080/computeMetadata/v1/instance/id");
}

#[test]
fn request_carries_identification() {
    let q = request_for(&Env::unset(), "instance/id");
    assert_eq!(q.headers.len(), 2);
    assert_eq!(header(&q, "Metadata-Flavor"), Some("Google"));
    assert_eq!(header(&q, "user-agent"), Some("github.com/mechiru/gcemeta v0.2.0"));
    assert_eq!(q.connect_timeout_secs, 2);
}

#[test]
fn probe_asks_the_root_of_the_documented_address() {
    let q = probe_for();
    assert_eq!(q.url, "http://169.254.169.254/");
    assert_eq!(header(&q, "Metadata-Flavor"), Some("Google"));
    assert_eq!(q.connect_timeout_secs, 2);
}

#[test]
fn default_config_is_the_documented_one() {
    let c = Config::default();
    assert_eq!(c.scheme, "http");
    assert_eq!(c.metadata_ip, "169.254.169.254");
    assert_eq!(c.flavor_name, "Metadata-Flavor");
    assert_eq!(c.flavor_value, "Google");
    assert_eq!(c.connect_timeout_secs, 2);
    assert_eq!(c.probe_timeout_secs, 5);
}

#[test]
fn env_without_value_is_unset() {
    let env = Env::init(None);
    assert!(!env.is_set());
    assert_eq!(env.metadata_host(), None);
}

#[test]
fn env_takes_the_authority_of_a_uri() {
    let env = Env::init(Some("http://example.com:8080/some/path"));
    assert!(env.is_set());
    assert_eq!(env.metadata_host(), Some("example.com:8080"));
}

#[test]
fn env_takes_a_bare_host() {
    let env = Env::init(Some("metadata.example"));
    assert_eq!(env.metadata_host(), Some("metadata.example"));
}

#[test]
fn env_refuses_what_is_no_uri() {
    assert!(!Env::accepts(Some("")));
    assert!(!Env::accepts(Some("not a host")));
    assert!(Env::try_init(Some("")).is_none());
    assert!(Env::try_init(Some("not a host")).is_none());
}

#[test]
fn env_refuses_a_uri_without_authority() {
    assert!(!Env::accepts(Some("/only/a/path")));
    assert!(Env::try_init(Some("/only/a/path")).is_none());
}

#[test]
fn read_text_of_success() {
    assert_eq!(read_text(answer(200, "<PROJECT_ID>")).unwrap(), "<PROJECT_ID>");
    assert_eq!(read_text(answer(200, " x \n")).unwrap(), " x \n");
}

#[test]
fn read_text_decodes_utf8() {
    let reply = Reply::Answered(Response {
        status: 200,
        headers: Vec::new(),
        body: vec![0xc3, 0xa9, 0x21],
    });
    assert_eq!(read_text(reply).unwrap(), "é!");
}

#[test]
fn read_text_replaces_what_is_not_utf8() {
    let reply =
        Reply::Answered(Response { status: 200, headers: Vec::new(), body: vec![0x61, 0xff, 0x62] });
    assert_eq!(read_text(reply).unwrap(), "a\u{fffd}b");
}

#[test]
fn read_text_reports_the_status() {
    for status in [404u16, 500, 301, 201, 0] {
        match read_text(answer(status, "body")).map_err(|e| e.into_kind()) {
            Err(ErrorKind::HttpResponse(code)) => assert_eq!(code, status),
            _ => unreachable!(),
        }
    }
}

#[test]
fn read_text_reports_a_failed_request() {
    match read_text(Reply::Failed("connection refused".to_owned())).map_err(|e| e.into_kind()) {
        Err(ErrorKind::HttpRequest(detail)) => assert_eq!(detail, "connection refused"),
        _ => unreachable!(),
    }
}

#[test]
fn optional_maps_not_found_to_none() {
    assert_eq!(optional(read_text(answer(404, ""))).unwrap(), None);
    assert_eq!(optional(read_text(answer(200, "v"))).unwrap(), Some("v".to_owned()));
}

#[test]
fn optional_keeps_other_errors() {
    match optional(read_text(answer(500, ""))).map_err(|e| e.into_kind()) {
        Err(ErrorKind::HttpResponse(500)) => {}
        _ => unreachable!(),
    }
    match optional(Err(Error::new(ErrorKind::Uninitialized))).map_err(|e| e.into_kind()) {
        Err(ErrorKind::Uninitialized) => {}
        _ => unreachable!(),
    }
}

#[test]
fn header_value_takes_the_first_of_its_name() {
    let headers = vec![
        Header { name: "content-type".to_owned(), value: "text/plain".to_owned() },
        Header { name: "x-a".to_owned(), value: "1".to_owned() },
        Header { name: "X-A".to_owned(), value: "2".to_owned() },
    ];
    assert_eq!(header_value(&headers, "X-a"), Some("1"));
    assert_eq!(header_value(&headers, "Content-Type"), Some("text/plain"));
    assert_eq!(header_value(&headers, "x-b"), None);
}

#[test]
fn same_text_compares_texts() {
    assert!(same_text("Google", "Google"));
    assert!(!same_text("Google", "google"));
    assert!(!same_text("Google", "Googl"));
    assert!(same_text("", ""));
}

#[test]
fn json_array_decodes_strings() {
    assert_eq!(json_array(r#"["a","b c","é"]"#).unwrap(), vec!["a", "b c", "é"]);
    assert_eq!(json_array(" [ ] ").unwrap(), Vec::<String>::new());
}

#[test]
fn json_array_refuses_anything_else() {
    for text in ["", "{}", "[1]", "[\"a\"", "\"a\"", "[\"a\"] x", "null"] {
        match json_array(text).map_err(|e| e.into_kind()) {
            Err(ErrorKind::MetadataParse("json array")) => {}
            _ => unreachable!(),
        }
    }
}

#[test]
fn errors_describe_themselves() {
    assert_eq!(
        Error::new(ErrorKind::Uninitialized).message(),
        "error occurred in a initialization call from the other thread"
    );
    assert_eq!(
        Error::new(ErrorKind::HttpRequest("timed out".to_owned())).message(),
        "http request error: timed out"
    );
    assert_eq!(
        Error::new(ErrorKind::HttpResponse(503)).message(),
        "http response status code error: 503"
    );
    assert_eq!(
        Error::new(ErrorKind::MetadataParse("zone")).message(),
        "metadata parse error: zone"
    );
}

#[test]
fn error_hands_out_its_kind() {
    let e = Error::from(ErrorKind::HttpResponse(404));
    assert!(matches!(e.kind(), ErrorKind::HttpResponse(404)));
    assert!(matches!(e.into_kind(), ErrorKind::HttpResponse(404)));
}

#[test]
fn decimal_string_writes_numbers() {
    assert_eq!(decimal_string(0), "0");
    assert_eq!(decimal_string(7), "7");
    assert_eq!(decimal_string(10), "10");
    assert_eq!(decimal_string(404), "404");
    assert_eq!(decimal_string(65535), "65535");
}

#[test]
fn env_accepts_what_names_a_host() {
    assert!(Env::accepts(None));
    assert!(Env::accepts(Some("localhost:8080")));
    assert!(Env::accepts(Some("http://example.com/")));
    let env = Env::try_init(Some("http://example.com:81/x")).unwrap();
    assert_eq!(env.metadata_host(), Some("example.com:81"));
    assert!(!Env::try_init(None).unwrap().is_set());
}
