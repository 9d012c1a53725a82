//! Requests to the service: target address, method and JSON body of each
//! task operation.

use vstd::prelude::*;
use crate::task::{status_name, priority_name, TaskPriority, TaskStatus};
use crate::text::{comma_pieces, split_commas, trim, trimmed};

verus! {

/// What `serde_json::to_string` returns for a string: its JSON string literal.
pub uninterp spec fn json_quoted(s: Seq<char>) -> Seq<char>;

/// Relies on `serde_json::to_string` on a `str`, which writes it as one JSON
/// string literal and cannot fail for it.
#[verifier::external_body]
pub(crate) fn quote_text(s: &str) -> (r: String)
    ensures
        r@ == json_quoted(s@),
{
    match serde_json::to_string(s) {
        Ok(q) => q,
        Err(_) => String::new(),
    }
}

/// Address of the production service.
pub open spec fn default_api_url() -> Seq<char> {
    "https://api.notion.com"@
}

/// The service API version that every request names.
pub const NOTION_VERSION: &'static str = "2022-06-28";

/// Media type of every request body.
pub const CONTENT_TYPE: &'static str = "application/json";

/// The two values that identify the caller and the task database.
#[derive(Debug, Clone)]
pub struct Config {
    pub notion_token: String,
    pub database_id: String,
}

/// HTTP methods that the operations use.
#[derive(Debug, Clone, Copy, PartialEq, Eq, Structural)]
pub enum HttpMethod {
    Post,
    Patch,
}

/// One request to send: method, full address and JSON body.
#[derive(Debug, Clone)]
pub struct ApiRequest {
    pub method: HttpMethod,
    pub url: String,
    pub body: String,
}

/// Body that creates a task titled `title` in database `db`, not started.
pub open spec fn create_body(db: Seq<char>, title: Seq<char>) -> Seq<char> {
    "{\"parent\":{\"database_id\":"@ + json_quoted(db)
        + "},\"properties\":{\"Name\":{\"title\":[{\"type\":\"text\",\"text\":{\"content\":"@
        + json_quoted(title) + ",\"link\":null}}]},\"Status\":{\"status\":{\"name\":"@
        + json_quoted(status_name(TaskStatus::NotStarted)) + "}}}}"@
}

/// Body of a query with no filter.
pub open spec fn query_body() -> Seq<char> {
    "{}"@
}

/// Body that sets one property: `{"properties":{<name>:<value>}}`.
pub open spec fn property_body(name: Seq<char>, value: Seq<char>) -> Seq<char> {
    "{\"properties\":{"@ + json_quoted(name) + ":"@ + value + "}}"@
}

/// Value that sets the status.
pub open spec fn status_value(s: TaskStatus) -> Seq<char> {
    "{\"status\":{\"name\":"@ + json_quoted(status_name(s)) + "}}"@
}

/// Value that sets the priority.
pub open spec fn priority_value(p: TaskPriority) -> Seq<char> {
    "{\"select\":{\"name\":"@ + json_quoted(priority_name(p)) + "}}"@
}

/// Value that sets the due date.
pub open spec fn due_date_value(d: Seq<char>) -> Seq<char> {
    "{\"date\":{\"start\":"@ + json_quoted(d) + "}}"@
}

/// Value that sets the description.
pub open spec fn description_value(d: Seq<char>) -> Seq<char> {
    "{\"rich_text\":[{\"type\":\"text\",\"text\":{\"content\":"@ + json_quoted(d)
        + ",\"link\":null}}]}"@
}

/// One tag object of a multi-select value.
pub open spec fn tag_object(t: Seq<char>) -> Seq<char> {
    "{\"name\":"@ + json_quoted(t) + "}"@
}

/// The tag objects of `tags`, in order, separated by commas.
pub open spec fn tag_objects(tags: Seq<Seq<char>>) -> Seq<char>
    decreases tags.len(),
{
    if tags.len() == 0 {
        Seq::empty()
    } else if tags.len() == 1 {
        tag_object(tags[0])
    } else {
        tag_objects(tags.drop_last()) + ","@ + tag_object(tags.last())
    }
}

/// Value that replaces the tags with `tags`.
pub open spec fn tags_value(tags: Seq<Seq<char>>) -> Seq<char> {
    "{\"multi_select\":["@ + tag_objects(tags) + "]}"@
}

/// Body that archives a task.
pub open spec fn archive_body() -> Seq<char> {
    "{\"archived\":true}"@
}

/// The tags that a comma-separated list names: each piece trimmed, in order.
pub open spec fn tag_list(s: Seq<char>) -> Seq<Seq<char>> {
    comma_pieces(s).map_values(|p: Seq<char>| trimmed(p))
}

/// Views of a vector of strings.
pub open spec fn string_views(v: Seq<String>) -> Seq<Seq<char>> {
    v.map_values(|s: String| s@)
}

/// Splits a comma-separated tag list and trims each tag; order and
/// repeated tags are kept.
pub fn parse_tag_list(tags: &str) -> (r: Vec<String>)
    ensures
        string_views(r@) == tag_list(tags@),
{
    let pieces = split_commas(tags);
    let mut out: Vec<String> = Vec::new();
    let mut i: usize = 0;
    while i < pieces.len()
        invariant
            i <= pieces@.len(),
            pieces@.map_values(|p: String| p@) == comma_pieces(tags@),
            out@.len() == i,
            forall|j: int| 0 <= j < i ==> (#[trigger] out@[j])@ == trimmed(pieces@[j]@),
        decreases pieces@.len() - i,
    {
        let t = trim(pieces[i].as_str());
        out.push(t);
        i = i + 1;
    }
    proof {
        assert(string_views(out@) =~= tag_list(tags@)) by {
            assert forall|j: int| 0 <= j < out@.len() implies string_views(out@)[j]
                == tag_list(tags@)[j] by {
                assert(pieces@.map_values(|p: String| p@)[j] == pieces@[j]@);
            }
        }
    }
    out
}

/// Writes the tag objects of `tags` onto `b`.
pub(crate) fn push_tag_objects(b: &mut String, tags: &Vec<String>)
    ensures
        final(b)@ == old(b)@ + tag_objects(string_views(tags@)),
{
    let ghost start = b@;
    let mut i: usize = 0;
    while i < tags.len()
        invariant
            i <= tags@.len(),
            b@ == start + tag_objects(string_views(tags@.take(i as int))),
        decreases tags@.len() - i,
    {
        proof {
            assert(string_views(tags@.take(i + 1)).drop_last()
                =~= string_views(tags@.take(i as int)));
            assert(string_views(tags@.take(i + 1)).last() == tags@[i as int]@);
        }
        if i > 0 {
            b.append(",");
        }
        b.append("{\"name\":");
        let q = quote_text(tags[i].as_str());
        b.append(q.as_str());
        b.append("}");
        proof {
            if i == 0 {
                assert(string_views(tags@.take(1)) =~= seq![tags@[0]@]);
                assert(start + Seq::<char>::empty() =~= start);
            }
            assert(b@ =~= start + tag_objects(string_views(tags@.take(i + 1))));
        }
        i = i + 1;
    }
    proof {
        assert(tags@.take(tags@.len() as int) =~= tags@);
    }
}

} // verus!
