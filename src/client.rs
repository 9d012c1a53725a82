//! The client configuration and the request of each task operation.

use vstd::prelude::*;
use crate::request::{
    archive_body, create_body, default_api_url, description_value, due_date_value, priority_value,
    property_body, push_tag_objects, query_body, quote_text, status_value, string_views, tags_value,
    ApiRequest, Config, HttpMethod,
};
use crate::task::{TaskError, TaskPriority, TaskStatus};
use crate::text::{header_value_ok, is_header_value};

verus! {

/// Value of the authorization header for `token`.
pub open spec fn bearer(token: Seq<char>) -> Seq<char> {
    "Bearer "@ + token
}

/// Address of the page `id` under the service at `base`.
pub open spec fn page_url(base: Seq<char>, id: Seq<char>) -> Seq<char> {
    base + "/v1/pages/"@ + id
}

/// Address that creates pages under the service at `base`.
pub open spec fn pages_url(base: Seq<char>) -> Seq<char> {
    base + "/v1/pages"@
}

/// Address that queries database `db` under the service at `base`.
pub open spec fn query_url(base: Seq<char>, db: Seq<char>) -> Seq<char> {
    base + "/v1/databases/"@ + db + "/query"@
}

/// Configuration of the task operations: credentials, database and
/// service address. It holds no connection and no state between calls.
#[derive(Debug, Clone)]
pub struct NotionClient {
    config: Config,
    api_url: String,
}

/// Builds `{"properties":{<name>:<value>}}`.
fn property_request_body(name: &str, value: &String) -> (r: String)
    ensures
        r@ == property_body(name@, value@),
{
    let mut b = String::from_str("{\"properties\":{");
    let q = quote_text(name);
    b.append(q.as_str());
    b.append(":");
    b.append(value.as_str());
    b.append("}}");
    b
}

impl NotionClient {
    /// Token of the caller.
    pub closed spec fn token(&self) -> Seq<char> {
        self.config.notion_token@
    }

    /// Identifier of the task database.
    pub closed spec fn database_id(&self) -> Seq<char> {
        self.config.database_id@
    }

    /// Address of the service.
    pub closed spec fn base_url(&self) -> Seq<char> {
        self.api_url@
    }

    /// A client of the production service.
    pub fn new(config: Config) -> (r: Result<NotionClient, TaskError>)
        ensures
            r is Ok <==> header_value_ok(bearer(config.notion_token@)),
            r matches Ok(c) ==> c.token() == config.notion_token@ && c.database_id()
                == config.database_id@ && c.base_url() == default_api_url(),
            r matches Err(e) ==> e is InvalidToken,
    {
        NotionClient::new_with_base_url(config, String::from_str("https://api.notion.com"))
    }

    /// A client of the service at `base_url`.
    pub fn new_with_base_url(config: Config, base_url: String) -> (r: Result<
        NotionClient,
        TaskError,
    >)
        ensures
            r is Ok <==> header_value_ok(bearer(config.notion_token@)),
            r matches Ok(c) ==> c.token() == config.notion_token@ && c.database_id()
                == config.database_id@ && c.base_url() == base_url@,
            r matches Err(e) ==> e is InvalidToken,
    {
        let mut h = String::from_str("Bearer ");
        h.append(config.notion_token.as_str());
        if is_header_value(h.as_str()) {
            Ok(NotionClient { config, api_url: base_url })
        } else {
            Err(TaskError::InvalidToken)
        }
    }

    /// Value of the authorization header.
    pub fn authorization(&self) -> (r: String)
        ensures
            r@ == bearer(self.token()),
    {
        let mut h = String::from_str("Bearer ");
        h.append(self.config.notion_token.as_str());
        h
    }

    /// Address of the page `task_id`.
    fn page_address(&self, task_id: &str) -> (r: String)
        ensures
            r@ == page_url(self.base_url(), task_id@),
    {
        let mut u = self.api_url.clone();
        u.append("/v1/pages/");
        u.append(task_id);
        u
    }

    /// Request that creates a task titled `title`, not started.
    pub fn add_task_request(&self, title: &str) -> (r: ApiRequest)
        ensures
            r.method == HttpMethod::Post,
            r.url@ == pages_url(self.base_url()),
            r.body@ == create_body(self.database_id(), title@),
    {
        let mut u = self.api_url.clone();
        u.append("/v1/pages");
        let mut b = String::from_str("{\"parent\":{\"database_id\":");
        let db = quote_text(self.config.database_id.as_str());
        b.append(db.as_str());
        b.append("},\"properties\":{\"Name\":{\"title\":[{\"type\":\"text\",\"text\":{\"content\":");
        let t = quote_text(title);
        b.append(t.as_str());
        b.append(",\"link\":null}}]},\"Status\":{\"status\":{\"name\":");
        let s = TaskStatus::NotStarted.to_string();
        let qs = quote_text(s.as_str());
        b.append(qs.as_str());
        b.append("}}}}");
        ApiRequest { method: HttpMethod::Post, url: u, body: b }
    }

    /// Request that lists every task of the database, with no filter.
    pub fn list_tasks_request(&self) -> (r: ApiRequest)
        ensures
            r.method == HttpMethod::Post,
            r.url@ == query_url(self.base_url(), self.database_id()),
            r.body@ == query_body(),
    {
        let mut u = self.api_url.clone();
        u.append("/v1/databases/");
        u.append(self.config.database_id.as_str());
        u.append("/query");
        ApiRequest { method: HttpMethod::Post, url: u, body: String::from_str("{}") }
    }

    /// Request that sets the status of task `task_id`.
    pub fn update_task_status_request(&self, task_id: &str, status: TaskStatus) -> (r:
        ApiRequest)
        ensures
            r.method == HttpMethod::Patch,
            r.url@ == page_url(self.base_url(), task_id@),
            r.body@ == property_body("Status"@, status_value(status)),
    {
        let mut v = String::from_str("{\"status\":{\"name\":");
        let n = status.to_string();
        let q = quote_text(n.as_str());
        v.append(q.as_str());
        v.append("}}");
        let body = property_request_body("Status", &v);
        ApiRequest { method: HttpMethod::Patch, url: self.page_address(task_id), body }
    }

    /// Request that sets the priority of task `task_id`.
    pub fn set_task_priority_request(&self, task_id: &str, priority: TaskPriority) -> (r:
        ApiRequest)
        ensures
            r.method == HttpMethod::Patch,
            r.url@ == page_url(self.base_url(), task_id@),
            r.body@ == property_body("Priority"@, priority_value(priority)),
    {
        let mut v = String::from_str("{\"select\":{\"name\":");
        let n = priority.to_string();
        let q = quote_text(n.as_str());
        v.append(q.as_str());
        v.append("}}");
        let body = property_request_body("Priority", &v);
        ApiRequest { method: HttpMethod::Patch, url: self.page_address(task_id), body }
    }

    /// Request that sets the due date of task `task_id`.
    pub fn set_task_due_date_request(&self, task_id: &str, due_date: &str) -> (r: ApiRequest)
        ensures
            r.method == HttpMethod::Patch,
            r.url@ == page_url(self.base_url(), task_id@),
            r.body@ == property_body("Due Date"@, due_date_value(due_date@)),
    {
        let mut v = String::from_str("{\"date\":{\"start\":");
        let q = quote_text(due_date);
        v.append(q.as_str());
        v.append("}}");
        let body = property_request_body("Due Date", &v);
        ApiRequest { method: HttpMethod::Patch, url: self.page_address(task_id), body }
    }

    /// Request that sets the description of task `task_id`.
    pub fn set_task_description_request(&self, task_id: &str, description: &str) -> (r:
        ApiRequest)
        ensures
            r.method == HttpMethod::Patch,
            r.url@ == page_url(self.base_url(), task_id@),
            r.body@ == property_body("Description"@, description_value(description@)),
    {
        let mut v = String::from_str("{\"rich_text\":[{\"type\":\"text\",\"text\":{\"content\":");
        let q = quote_text(description);
        v.append(q.as_str());
        v.append(",\"link\":null}}]}");
        let body = property_request_body("Description", &v);
        ApiRequest { method: HttpMethod::Patch, url: self.page_address(task_id), body }
    }

    /// Request that replaces the tags of task `task_id` with `tags`, in order.
    pub fn add_task_tags_request(&self, task_id: &str, tags: &Vec<String>) -> (r: ApiRequest)
        ensures
            r.method == HttpMethod::Patch,
            r.url@ == page_url(self.base_url(), task_id@),
            r.body@ == property_body("Tags"@, tags_value(string_views(tags@))),
    {
        let mut v = String::from_str("{\"multi_select\":[");
        push_tag_objects(&mut v, tags);
        v.append("]}");
        let body = property_request_body("Tags", &v);
        ApiRequest { method: HttpMethod::Patch, url: self.page_address(task_id), body }
    }

    /// Request that archives task `task_id`.
    pub fn delete_task_request(&self, task_id: &str) -> (r: ApiRequest)
        ensures
            r.method == HttpMethod::Patch,
            r.url@ == page_url(self.base_url(), task_id@),
            r.body@ == archive_body(),
    {
        ApiRequest {
            method: HttpMethod::Patch,
            url: self.page_address(task_id),
            body: String::from_str("{\"archived\":true}"),
        }
    }
}

} // verus!
