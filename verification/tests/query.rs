use gitlab_projects::args::Args;
use gitlab_projects::error::QueryError;
use gitlab_projects::project::{parse_projects, read_number, read_project, read_projects, read_text};
use gitlab_projects::request::{get_project, read_response, search_url, Request, GITLAB_URL};
use gitlab_projects::token::{token_header, TOKEN_HEADER};
use std::cell::RefCell;
use std::collections::HashMap;

/// Answers every GET with one body, and remembers the addresses asked.
struct Canned {
    body: String,
    asked: RefCell<Vec<String>>,
}

impl Canned {
    fn new(body: &str) -> Canned {
        Canned { body: body.to_string(), asked: RefCell::new(Vec::new()) }
    }
}

impl Request for Canned {
    fn get(&self, url: String) -> Result<String, QueryError> {
        self.asked.borrow_mut().push(url);
        Ok(self.body.clone())
    }

    fn post(&self, url: String, _body: &HashMap<String, String>) -> Result<String, QueryError> {
        self.asked.borrow_mut().push(url);
        Ok(self.body.clone())
    }
}

/// Fails every request.
struct Down;

impl Request for Down {
    fn get(&self, _url: String) -> Result<String, QueryError> {
        Err(QueryError::Transport("connection refused".to_string()))
    }

    fn post(&self, _url: String, _body: &HashMap<String, String>) -> Result<String, QueryError> {
        Err(QueryError::Transport("connection refused".to_string()))
    }
}

const TWO_PROJECTS: &str = r#"[
  {"id": 7, "name": "Demo", "path": "demo", "path_with_namespace": "team/demo",
   "description": null, "star_count": 3, "tag_list": ["a", "b"], "owner": {"id": 1}},
  {"id": 4294967295, "name": "Demo Two", "path": "demo-two", "path_with_namespace": "team/sub/demo-two"}
]"#;

fn value(text: &str) -> serde_json::Value {
    serde_json::from_str(text).unwrap()
}

#[test]
fn two_projects_end_to_end() {
    let transport = Canned::new(TWO_PROJECTS);
    let projects = get_project(&transport, &"demo".to_string()).unwrap();
    assert_eq!(projects.len(), 2);
    assert_eq!(projects[0].id, 7);
    assert_eq!(projects[0].name, "Demo");
    assert_eq!(projects[0].path, "demo");
    assert_eq!(projects[0].path_with_namespace, "team/demo");
    assert_eq!(projects[1].id, 4294967295);
    assert_eq!(projects[1].name, "Demo Two");
    assert_eq!(projects[1].path, "demo-two");
    assert_eq!(projects[1].path_with_namespace, "team/sub/demo-two");
}

#[test]
fn search_asks_one_get_for_the_search_address() {
    let transport = Canned::new("[]");
    get_project(&transport, &"demo".to_string()).unwrap();
    let asked = transport.asked.borrow();
    assert_eq!(asked.len(), 1);
    assert_eq!(
        asked[0],
        "https://gitlab.com/api/v4/projects/?search=demo&visibility=private&simple=true"
    );
}

#[test]
fn empty_list_is_no_error() {
    let projects = parse_projects("[]").unwrap();
    assert!(projects.is_empty());
    let transport = Canned::new("[]");
    assert!(get_project(&transport, &"nothing".to_string()).unwrap().is_empty());
}

#[test]
fn text_that_is_no_json_is_refused() {
    let error = parse_projects("not json").unwrap_err();
    assert!(error.is_deserialization());
    assert!(matches!(error, QueryError::Deserialization(_)));
    let transport = Canned::new("not json");
    assert!(get_project(&transport, &"demo".to_string()).unwrap_err().is_deserialization());
}

#[test]
fn empty_body_is_refused() {
    assert!(parse_projects("").unwrap_err().is_deserialization());
    assert!(parse_projects("   ").unwrap_err().is_deserialization());
}

#[test]
fn text_after_the_document_is_refused() {
    assert!(parse_projects("[] []").unwrap_err().is_deserialization());
    assert!(parse_projects("[").unwrap_err().is_deserialization());
}

#[test]
fn record_without_required_members_is_refused() {
    let error = parse_projects(r#"[{"id":1,"name":"x"}]"#).unwrap_err();
    assert!(error.is_deserialization());
}

#[test]
fn each_member_is_required() {
    let bodies = [
        r#"[{"name":"n","path":"p","path_with_namespace":"g/p"}]"#,
        r#"[{"id":1,"path":"p","path_with_namespace":"g/p"}]"#,
        r#"[{"id":1,"name":"n","path_with_namespace":"g/p"}]"#,
        r#"[{"id":1,"name":"n","path":"p"}]"#,
    ];
    for body in bodies {
        assert!(parse_projects(body).unwrap_err().is_deserialization());
    }
    let whole = r#"[{"id":1,"name":"n","path":"p","path_with_namespace":"g/p"}]"#;
    assert_eq!(parse_projects(whole).unwrap().len(), 1);
}

#[test]
fn member_of_wrong_type_is_refused() {
    let bodies = [
        r#"[{"id":"1","name":"n","path":"p","path_with_namespace":"g/p"}]"#,
        r#"[{"id":null,"name":"n","path":"p","path_with_namespace":"g/p"}]"#,
        r#"[{"id":1,"name":2,"path":"p","path_with_namespace":"g/p"}]"#,
        r#"[{"id":1,"name":"n","path":["p"],"path_with_namespace":"g/p"}]"#,
        r#"[{"id":1,"name":"n","path":"p","path_with_namespace":{"a":"b"}}]"#,
        r#"[{"id":1,"name":"n","path":"p","path_with_namespace":true}]"#,
    ];
    for body in bodies {
        assert!(parse_projects(body).unwrap_err().is_deserialization());
    }
}

#[test]
fn number_must_be_an_unsigned_integer_of_32_bits() {
    let record = |id: &str| {
        format!(r#"[{{"id":{},"name":"n","path":"p","path_with_namespace":"g/p"}}]"#, id)
    };
    assert_eq!(parse_projects(&record("0")).unwrap()[0].id, 0);
    assert_eq!(parse_projects(&record("4294967295")).unwrap()[0].id, u32::MAX);
    assert!(parse_projects(&record("4294967296")).unwrap_err().is_deserialization());
    assert!(parse_projects(&record("18446744073709551616")).unwrap_err().is_deserialization());
    assert!(parse_projects(&record("-1")).unwrap_err().is_deserialization());
    assert!(parse_projects(&record("1.0")).unwrap_err().is_deserialization());
    assert!(parse_projects(&record("1e2")).unwrap_err().is_deserialization());
}

#[test]
fn document_must_be_a_list_of_objects() {
    let one = r#"{"id":1,"name":"n","path":"p","path_with_namespace":"g/p"}"#;
    assert!(parse_projects(one).unwrap_err().is_deserialization());
    assert!(parse_projects("null").unwrap_err().is_deserialization());
    assert!(parse_projects("3").unwrap_err().is_deserialization());
    assert!(parse_projects(r#""[]""#).unwrap_err().is_deserialization());
    assert!(parse_projects("[1]").unwrap_err().is_deserialization());
    assert!(parse_projects("[null]").unwrap_err().is_deserialization());
    assert!(parse_projects(r#"[[1,"n","p","g/p"]]"#).unwrap_err().is_deserialization());
}

#[test]
fn one_bad_record_refuses_the_list() {
    let body = r#"[
        {"id":1,"name":"n","path":"p","path_with_namespace":"g/p"},
        {"id":2,"name":"m"}
    ]"#;
    assert!(parse_projects(body).unwrap_err().is_deserialization());
}

#[test]
fn records_keep_the_order_of_the_document() {
    let body = r#"[
        {"id":3,"name":"c","path":"pc","path_with_namespace":"g/pc"},
        {"id":1,"name":"a","path":"pa","path_with_namespace":"g/pa"},
        {"id":2,"name":"b","path":"pb","path_with_namespace":"g/pb"}
    ]"#;
    let projects = parse_projects(body).unwrap();
    let ids: Vec<u32> = projects.iter().map(|p| p.id).collect();
    assert_eq!(ids, vec![3, 1, 2]);
    let names: Vec<&str> = projects.iter().map(|p| p.name.as_str()).collect();
    assert_eq!(names, vec!["c", "a", "b"]);
}

#[test]
fn text_members_keep_every_character() {
    let body = r#"[{"id":9,"name":"Café \"x\" \n","path":"","path_with_namespace":"ü/ß"}]"#;
    let projects = parse_projects(body).unwrap();
    assert_eq!(projects[0].name, "Café \"x\" \n");
    assert_eq!(projects[0].path, "");
    assert_eq!(projects[0].path_with_namespace, "ü/ß");
}

#[test]
fn repeated_member_counts_once_with_its_last_value() {
    let body = r#"[{"id":1,"id":2,"name":"n","path":"p","path_with_namespace":"g/p"}]"#;
    let projects = parse_projects(body).unwrap();
    assert_eq!(projects.len(), 1);
    assert_eq!(projects[0].id, 2);
}

#[test]
fn url_for_demo() {
    assert_eq!(
        search_url("demo"),
        "https://gitlab.com/api/v4/projects/?search=demo&visibility=private&simple=true"
    );
}

#[test]
fn url_starts_with_the_service_address() {
    assert_eq!(GITLAB_URL, "https://gitlab.com/api/v4/projects");
    let url = search_url("x");
    assert_eq!(&url[..GITLAB_URL.len()], GITLAB_URL);
    assert_eq!(url.len(), 43 + 1 + 31);
}

#[test]
fn url_keeps_the_term_unescaped() {
    assert_eq!(
        search_url("my project"),
        "https://gitlab.com/api/v4/projects/?search=my project&visibility=private&simple=true"
    );
    assert_eq!(
        search_url("a&b=c#d?é"),
        "https://gitlab.com/api/v4/projects/?search=a&b=c#d?é&visibility=private&simple=true"
    );
}

#[test]
fn url_for_empty_term() {
    assert_eq!(
        search_url(""),
        "https://gitlab.com/api/v4/projects/?search=&visibility=private&simple=true"
    );
}

#[test]
fn transport_failure_is_handed_on_unchanged() {
    let error = get_project(&Down, &"demo".to_string()).unwrap_err();
    assert!(error.is_transport());
    assert!(!error.is_deserialization());
    assert!(!error.is_header_encoding());
    assert_eq!(error.message(), "connection refused");
}

#[test]
fn read_response_on_each_kind_of_response() {
    let projects = read_response(Ok(TWO_PROJECTS.to_string())).unwrap();
    assert_eq!(projects.len(), 2);
    assert!(read_response(Ok("{".to_string())).unwrap_err().is_deserialization());
    let handed = read_response(Err(QueryError::HeaderEncoding("bad token".to_string())));
    let error = handed.unwrap_err();
    assert!(error.is_header_encoding());
    assert_eq!(error.message(), "bad token");
}

#[test]
fn post_is_part_of_a_transport() {
    let transport = Canned::new("ok");
    let mut body = HashMap::new();
    body.insert("name".to_string(), "demo".to_string());
    assert_eq!(transport.post("https://example.invalid/".to_string(), &body).unwrap(), "ok");
    assert!(Down.post(String::new(), &body).unwrap_err().is_transport());
}

#[test]
fn read_number_on_values() {
    assert_eq!(read_number(&value("12")), Some(12));
    assert_eq!(read_number(&value("4294967295")), Some(u32::MAX));
    assert_eq!(read_number(&value("4294967296")), None);
    assert_eq!(read_number(&value("-3")), None);
    assert_eq!(read_number(&value("2.5")), None);
    assert_eq!(read_number(&value("\"12\"")), None);
    assert_eq!(read_number(&value("[12]")), None);
}

#[test]
fn read_text_on_values() {
    assert_eq!(read_text(&value("\"abc\"")), Some("abc".to_string()));
    assert_eq!(read_text(&value("\"\"")), Some(String::new()));
    assert_eq!(read_text(&value("12")), None);
    assert_eq!(read_text(&value("null")), None);
    assert_eq!(read_text(&value("{\"a\":\"b\"}")), None);
}

#[test]
fn read_project_on_values() {
    let project =
        read_project(&value(r#"{"path_with_namespace":"g/p","path":"p","name":"n","id":5,"x":1}"#))
            .unwrap();
    assert_eq!(project.id, 5);
    assert_eq!(project.name, "n");
    assert_eq!(project.path, "p");
    assert_eq!(project.path_with_namespace, "g/p");
    assert!(read_project(&value(r#"{"id":5,"name":"n","path":"p"}"#)).is_none());
    assert!(read_project(&value(r#"{"ID":5,"name":"n","path":"p","path_with_namespace":"g/p"}"#))
        .is_none());
    assert!(read_project(&value("[]")).is_none());
    assert!(read_project(&value("\"id\"")).is_none());
}

#[test]
fn read_projects_on_values() {
    assert!(read_projects(&value("[]")).unwrap().is_empty());
    assert_eq!(read_projects(&value(TWO_PROJECTS)).unwrap().len(), 2);
    assert!(read_projects(&value("{}")).unwrap_err().is_deserialization());
    assert!(read_projects(&value("[{}]")).unwrap_err().is_deserialization());
}

#[test]
fn error_says_what_it_is() {
    let transport = QueryError::Transport("t".to_string());
    let header = QueryError::HeaderEncoding("h".to_string());
    let body = QueryError::Deserialization("d".to_string());
    assert!(transport.is_transport() && !transport.is_header_encoding());
    assert!(header.is_header_encoding() && !header.is_deserialization());
    assert!(body.is_deserialization() && !body.is_transport());
    assert_eq!(transport.message(), "t");
    assert_eq!(header.message(), "h");
    assert_eq!(body.message(), "d");
}

#[test]
fn args_hold_name_and_token() {
    let args = Args { project_name: "demo".to_string(), private_token: "s3cr3t".to_string() };
    let copy = args.clone();
    assert_eq!(copy.project_name, "demo");
    assert_eq!(copy.private_token, "s3cr3t");
}

#[test]
fn token_header_holds_the_token() {
    assert_eq!(TOKEN_HEADER, "PRIVATE-TOKEN");
    let value = token_header(&"glpat-AbC_123-xyz".to_string()).unwrap();
    assert_eq!(value.as_bytes(), b"glpat-AbC_123-xyz");
    let empty = token_header(&String::new()).unwrap();
    assert_eq!(empty.as_bytes(), b"");
}

#[test]
fn token_header_takes_tab_space_and_bytes_beyond_ascii() {
    let value = token_header(&"a\tb c~".to_string()).unwrap();
    assert_eq!(value.as_bytes(), b"a\tb c~");
    let value = token_header(&"clé".to_string()).unwrap();
    assert_eq!(value.as_bytes(), "clé".as_bytes());
}

#[test]
fn token_with_control_character_is_refused() {
    for token in ["line\nbreak", "nul\0", "\r", "del\u{7f}", "bell\u{7}", "\u{1f}"] {
        let error = token_header(&token.to_string()).unwrap_err();
        assert!(error.is_header_encoding());
        assert!(!error.is_transport());
    }
}
