use notion_cli_rs::page::{
    DateProperty, DateValue, MultiSelectProperty, NamedOption, Page, PageProperties,
    QueryResponse, RichText, RichTextProperty, SelectProperty, StatusProperty, TextContent,
    TitleProperty,
};
use notion_cli_rs::request::parse_tag_list;
use notion_cli_rs::response::{
    add_task_response, add_task_tags_response, delete_task_response, list_tasks_response,
    set_task_description_response, set_task_due_date_response, set_task_priority_response,
    update_task_status_response,
};
use notion_cli_rs::{Config, HttpMethod, NotionClient, TaskError, TaskPriority, TaskStatus};

fn client() -> NotionClient {
    let config = Config {
        notion_token: "test-token".to_string(),
        database_id: "database-id".to_string(),
    };
    NotionClient::new_with_base_url(config, "http://mock".to_string()).unwrap()
}

fn rich(text: &str) -> Vec<RichText> {
    vec![RichText { text: Some(TextContent { content: Some(text.to_string()) }) }]
}

fn bare_page(id: Option<&str>, title: Option<&str>) -> Page {
    Page {
        id: id.map(|s| s.to_string()),
        url: id.map(|s| format!("https://notion.so/{}", s)),
        properties: Some(PageProperties {
            name: title.map(|t| TitleProperty { title: Some(rich(t)) }),
            status: None,
            priority: None,
            due_date: None,
            tags: None,
            description: None,
        }),
    }
}

fn named(n: &str) -> NamedOption {
    NamedOption { name: Some(n.to_string()) }
}

fn json(s: &str) -> serde_json::Value {
    serde_json::from_str(s).unwrap()
}

#[test]
fn status_names_round_trip() {
    for s in [TaskStatus::NotStarted, TaskStatus::InProgress, TaskStatus::Done] {
        assert_eq!(TaskStatus::from_str(&s.to_string()).unwrap(), s);
    }
}

#[test]
fn status_parsing_ignores_case() {
    assert_eq!(TaskStatus::from_str("DONE").unwrap(), TaskStatus::Done);
    assert_eq!(TaskStatus::from_str("In Progress").unwrap(), TaskStatus::InProgress);
    assert_eq!(TaskStatus::from_str("nOT sTARTED").unwrap(), TaskStatus::NotStarted);
}

#[test]
fn unknown_status_is_refused_when_set() {
    assert!(matches!(TaskStatus::from_str("started"), Err(TaskError::InvalidEnumValue(_))));
    assert!(matches!(TaskStatus::from_str(""), Err(TaskError::InvalidEnumValue(_))));
    assert!(matches!(TaskStatus::from_str(" done"), Err(TaskError::InvalidEnumValue(_))));
}

#[test]
fn unknown_status_from_service_is_not_started() {
    assert_eq!(TaskStatus::from_remote(&Some("Blocked".to_string())), TaskStatus::NotStarted);
    assert_eq!(TaskStatus::from_remote(&None), TaskStatus::NotStarted);
    assert_eq!(TaskStatus::from_remote(&Some("Done".to_string())), TaskStatus::Done);
}

#[test]
fn priority_names_round_trip() {
    for p in [TaskPriority::High, TaskPriority::Medium, TaskPriority::Low] {
        assert_eq!(TaskPriority::from_str(&p.to_string()).unwrap(), p);
    }
    assert_eq!(TaskPriority::from_str("MEDIUM").unwrap(), TaskPriority::Medium);
}

#[test]
fn unknown_priority_handling() {
    assert!(matches!(TaskPriority::from_str("urgent"), Err(TaskError::InvalidEnumValue(_))));
    assert_eq!(TaskPriority::from_remote(&Some("Urgent".to_string())), None);
    assert_eq!(TaskPriority::from_remote(&None), None);
    assert_eq!(TaskPriority::from_remote(&Some("low".to_string())), Some(TaskPriority::Low));
}

#[test]
fn tag_list_is_split_and_trimmed() {
    assert_eq!(parse_tag_list("a, b ,c"), vec!["a", "b", "c"]);
    assert_eq!(parse_tag_list("x,x"), vec!["x", "x"]);
    assert_eq!(parse_tag_list("solo"), vec!["solo"]);
    assert_eq!(parse_tag_list(""), vec![""]);
    assert_eq!(parse_tag_list(" a ,,b"), vec!["a", "", "b"]);
}

#[test]
fn tags_request_replaces_the_set() {
    let c = client();
    let tags = parse_tag_list("a, b ,c");
    let r = c.add_task_tags_request("task-id", &tags);
    assert_eq!(r.method, HttpMethod::Patch);
    assert_eq!(r.url, "http://mock/v1/pages/task-id");
    assert_eq!(
        r.body,
        r#"{"properties":{"Tags":{"multi_select":[{"name":"a"},{"name":"b"},{"name":"c"}]}}}"#
    );
    let empty = c.add_task_tags_request("t", &Vec::new());
    assert_eq!(empty.body, r#"{"properties":{"Tags":{"multi_select":[]}}}"#);
}

#[test]
fn create_request_body() {
    let c = client();
    let r = c.add_task_request("Buy milk");
    assert_eq!(r.method, HttpMethod::Post);
    assert_eq!(r.url, "http://mock/v1/pages");
    assert_eq!(
        r.body,
        r#"{"parent":{"database_id":"database-id"},"properties":{"Name":{"title":[{"type":"text","text":{"content":"Buy milk","link":null}}]},"Status":{"status":{"name":"Not started"}}}}"#
    );
}

#[test]
fn request_text_is_escaped() {
    let c = client();
    let r = c.add_task_request("Say \"hi\"\n");
    let v = json(&r.body);
    assert_eq!(v["properties"]["Name"]["title"][0]["text"]["content"], "Say \"hi\"\n");
    assert!(r.body.contains(r#""Say \"hi\"\n""#));
}

#[test]
fn list_request() {
    let c = client();
    let r = c.list_tasks_request();
    assert_eq!(r.method, HttpMethod::Post);
    assert_eq!(r.url, "http://mock/v1/databases/database-id/query");
    assert_eq!(r.body, "{}");
}

#[test]
fn update_request_bodies() {
    let c = client();
    let s = c.update_task_status_request("t1", TaskStatus::InProgress);
    assert_eq!(s.method, HttpMethod::Patch);
    assert_eq!(s.url, "http://mock/v1/pages/t1");
    assert_eq!(s.body, r#"{"properties":{"Status":{"status":{"name":"In progress"}}}}"#);
    let p = c.set_task_priority_request("t1", TaskPriority::High);
    assert_eq!(p.body, r#"{"properties":{"Priority":{"select":{"name":"High"}}}}"#);
    let d = c.set_task_due_date_request("t1", "2024-01-20");
    assert_eq!(d.body, r#"{"properties":{"Due Date":{"date":{"start":"2024-01-20"}}}}"#);
    let e = c.set_task_description_request("t1", "Test description");
    assert_eq!(
        e.body,
        r#"{"properties":{"Description":{"rich_text":[{"type":"text","text":{"content":"Test description","link":null}}]}}}"#
    );
}

#[test]
fn client_headers_and_token_check() {
    let c = client();
    assert_eq!(c.authorization(), "Bearer test-token");
    let bad = Config { notion_token: "line\nbreak".to_string(), database_id: "d".to_string() };
    assert!(matches!(NotionClient::new(bad), Err(TaskError::InvalidToken)));
    let tab = Config { notion_token: "a\tb".to_string(), database_id: "d".to_string() };
    assert!(NotionClient::new(tab).is_ok());
}

#[test]
fn create_maps_echo() {
    let page = bare_page(Some("X"), Some("Echoed"));
    let t = add_task_response("Buy milk", 200, &String::new(), &Some(page)).unwrap();
    assert_eq!(t.id, "X");
    assert_eq!(t.title, "Buy milk");
    assert_eq!(t.status, TaskStatus::NotStarted);
    assert_eq!(t.url, Some("https://notion.so/X".to_string()));
    assert_eq!(t.priority, None);
    assert_eq!(t.due_date, None);
    assert!(t.tags.is_empty());
    assert_eq!(t.description, None);
}

#[test]
fn create_without_id_is_schema_error() {
    let page = bare_page(None, Some("t"));
    let r = add_task_response("t", 200, &String::new(), &Some(page));
    assert!(matches!(r, Err(TaskError::RemoteSchema(_))));
    let r2 = add_task_response("t", 200, &"oops".to_string(), &None);
    assert!(matches!(r2, Err(TaskError::RemoteSchema(_))));
    let empty = bare_page(Some(""), Some("t"));
    let r3 = add_task_response("t", 201, &String::new(), &Some(empty));
    assert!(matches!(r3, Err(TaskError::RemoteSchema(_))));
}

#[test]
fn create_rejected() {
    let r = add_task_response("t", 400, &"bad request".to_string(), &None);
    assert_eq!(
        r,
        Err(TaskError::RemoteRequest { status: 400, body: "bad request".to_string() })
    );
}

#[test]
fn list_with_missing_properties() {
    let mut full = bare_page(Some("task-id-2"), Some("Task 2"));
    full.properties = Some(PageProperties {
        name: Some(TitleProperty { title: Some(rich("Task 2")) }),
        status: Some(StatusProperty { status: Some(named("In progress")) }),
        priority: Some(SelectProperty { select: Some(named("High")) }),
        due_date: Some(DateProperty { date: Some(DateValue { start: Some("2024-01-20".to_string()) }) }),
        tags: Some(MultiSelectProperty {
            multi_select: Some(vec![named("work"), NamedOption { name: None }, named("urgent")]),
        }),
        description: Some(RichTextProperty { rich_text: Some(rich("Details")) }),
    });
    let q = QueryResponse {
        results: Some(vec![bare_page(Some("task-id-1"), Some("Task 1")), bare_page(None, None), full]),
    };
    let tasks = list_tasks_response(200, &String::new(), &Some(q)).unwrap();
    assert_eq!(tasks.len(), 2);
    assert_eq!(tasks[0].id, "task-id-1");
    assert_eq!(tasks[0].title, "Task 1");
    assert_eq!(tasks[0].status, TaskStatus::NotStarted);
    assert_eq!(tasks[0].priority, None);
    assert_eq!(tasks[0].due_date, None);
    assert!(tasks[0].tags.is_empty());
    assert_eq!(tasks[0].description, None);
    assert_eq!(tasks[1].id, "task-id-2");
    assert_eq!(tasks[1].status, TaskStatus::InProgress);
    assert_eq!(tasks[1].priority, Some(TaskPriority::High));
    assert_eq!(tasks[1].due_date, Some("2024-01-20".to_string()));
    assert_eq!(tasks[1].tags, vec!["work", "urgent"]);
    assert_eq!(tasks[1].description, Some("Details".to_string()));
}

#[test]
fn list_unknown_names_use_defaults() {
    let mut p = bare_page(Some("a"), Some("A"));
    if let Some(ps) = p.properties.as_mut() {
        ps.status = Some(StatusProperty { status: Some(named("Archived")) });
        ps.priority = Some(SelectProperty { select: Some(named("Critical")) });
    }
    let tasks = list_tasks_response(200, &String::new(), &Some(QueryResponse { results: Some(vec![p]) })).unwrap();
    assert_eq!(tasks[0].status, TaskStatus::NotStarted);
    assert_eq!(tasks[0].priority, None);
}

#[test]
fn list_errors() {
    let r = list_tasks_response(200, &String::new(), &Some(QueryResponse { results: None }));
    assert!(matches!(r, Err(TaskError::RemoteSchema(_))));
    let r2 = list_tasks_response(503, &"down".to_string(), &None);
    assert_eq!(r2, Err(TaskError::RemoteRequest { status: 503, body: "down".to_string() }));
    let r3 = list_tasks_response(200, &String::new(), &Some(QueryResponse { results: Some(vec![]) }));
    assert_eq!(r3, Ok(vec![]));
}

#[test]
fn setters_propagate_not_found() {
    let body = "{\"object\":\"error\",\"status\":404}".to_string();
    let page = Some(bare_page(Some("t"), Some("T")));
    let want = Err(TaskError::RemoteRequest { status: 404, body: body.clone() });
    assert_eq!(update_task_status_response(404, &body, &page, TaskStatus::Done), want);
    assert_eq!(set_task_priority_response(404, &body, &page, TaskPriority::Low), want);
    assert_eq!(set_task_due_date_response(404, &body, &page, "2024-01-20"), want);
    assert_eq!(set_task_description_response(404, &body, &page, "d"), want);
    assert_eq!(add_task_tags_response(404, &body, &page, vec!["a".to_string()]), want);
    assert_eq!(
        delete_task_response(404, &body),
        Err(TaskError::RemoteRequest { status: 404, body: body.clone() })
    );
}

#[test]
fn setters_return_only_the_field_set() {
    let page = Some(bare_page(Some("task-id"), Some("Test task")));
    let s = update_task_status_response(200, &String::new(), &page, TaskStatus::Done).unwrap();
    assert_eq!((s.id.as_str(), s.title.as_str(), s.status), ("task-id", "Test task", TaskStatus::Done));
    assert_eq!(s.priority, None);
    let p = set_task_priority_response(200, &String::new(), &page, TaskPriority::High).unwrap();
    assert_eq!(p.priority, Some(TaskPriority::High));
    assert_eq!(p.status, TaskStatus::NotStarted);
    let d = set_task_due_date_response(200, &String::new(), &page, "2024-01-20").unwrap();
    assert_eq!(d.due_date, Some("2024-01-20".to_string()));
    assert_eq!(d.description, None);
    let e = set_task_description_response(200, &String::new(), &page, "Test description").unwrap();
    assert_eq!(e.description, Some("Test description".to_string()));
    let t = add_task_tags_response(200, &String::new(), &page, parse_tag_list("work, urgent")).unwrap();
    assert_eq!(t.tags, vec!["work", "urgent"]);
    assert_eq!(t.url, Some("https://notion.so/task-id".to_string()));
    let untitled = Some(bare_page(Some("u"), None));
    let u = update_task_status_response(200, &String::new(), &untitled, TaskStatus::Done).unwrap();
    assert_eq!(u.title, "");
}

#[test]
fn delete_request_and_outcome() {
    let c = client();
    let r = c.delete_task_request("task-id");
    assert_eq!(r.method, HttpMethod::Patch);
    assert_eq!(r.url, "http://mock/v1/pages/task-id");
    assert_eq!(r.body, r#"{"archived":true}"#);
    assert_eq!(delete_task_response(200, &"not json at all".to_string()), Ok(()));
    assert_eq!(delete_task_response(204, &String::new()), Ok(()));
    assert!(delete_task_response(199, &String::new()).is_err());
    assert!(delete_task_response(300, &String::new()).is_err());
}

#[test]
fn production_client_address() {
    let config = Config { notion_token: "k".to_string(), database_id: "db".to_string() };
    let c = NotionClient::new(config).unwrap();
    assert_eq!(c.list_tasks_request().url, "https://api.notion.com/v1/databases/db/query");
}
