//! Answers of the service turned into task records or errors.
//!
//! Each function takes the HTTP status, the body text, and the body decoded
//! into the typed page model (`None` where it did not decode).

use vstd::prelude::*;
use crate::page::{
    copy_opt, description_text, due_date_text, has_id, opt_view, priority_text, status_text,
    tag_texts, title_text, Page, QueryResponse,
};
use crate::request::string_views;
use crate::task::{
    priority_of_remote, status_of_remote, Task, TaskError, TaskPriority, TaskStatus, TaskView,
};

verus! {

/// The HTTP status reports success.
pub open spec fn is_success(status: u16) -> bool {
    200 <= status <= 299
}

/// `e` is the error of a rejected request with this status and body.
pub open spec fn is_rejection(e: TaskError, status: u16, body: Seq<char>) -> bool {
    e matches TaskError::RemoteRequest { status: s, body: b } && s == status && b@ == body
}

/// Views of a sequence of tasks.
pub open spec fn task_views(v: Seq<Task>) -> Seq<TaskView> {
    v.map_values(|t: Task| t@)
}

/// The record that a listed page gives: every field read from the page.
pub open spec fn listed_view(p: Page) -> TaskView {
    TaskView {
        id: p.id->Some_0@,
        title: match title_text(p) {
            Some(t) => t,
            None => Seq::empty(),
        },
        status: status_of_remote(status_text(p)),
        url: opt_view(p.url),
        priority: priority_of_remote(priority_text(p)),
        due_date: due_date_text(p),
        tags: tag_texts(p),
        description: description_text(p),
    }
}

/// The records of the listed pages that have an identifier, in order.
pub open spec fn listed_views(pages: Seq<Page>) -> Seq<TaskView>
    decreases pages.len(),
{
    if pages.len() == 0 {
        Seq::empty()
    } else {
        let front = listed_views(pages.drop_last());
        if has_id(pages.last()) {
            front.push(listed_view(pages.last()))
        } else {
            front
        }
    }
}

/// The record that a page echoed by an update gives: identifier, title and
/// address from the echo, nothing else set.
pub open spec fn echoed_view(p: Page) -> TaskView {
    TaskView {
        id: p.id->Some_0@,
        title: match title_text(p) {
            Some(t) => t,
            None => Seq::empty(),
        },
        status: TaskStatus::NotStarted,
        url: opt_view(p.url),
        priority: None,
        due_date: None,
        tags: Seq::empty(),
        description: None,
    }
}

/// The record that creating a task titled `title` gives.
pub open spec fn created_view(title: Seq<char>, p: Page) -> TaskView {
    TaskView { title, ..echoed_view(p) }
}

/// Outcome of an update answered with `status` and `page`, where `set`
/// gives the record on success.
pub open spec fn update_outcome(
    status: u16,
    body: Seq<char>,
    page: Option<Page>,
    r: Result<Task, TaskError>,
    set: TaskView,
) -> bool {
    if !is_success(status) {
        r is Err && is_rejection(r->Err_0, status, body)
    } else if page is None || !has_id(page->Some_0) {
        r is Err && r->Err_0 is RemoteSchema
    } else {
        r is Ok && r->Ok_0@ == set
    }
}

/// An update answered with a failure status fails with that status and the
/// body text, whatever the body holds and whatever field it set.
pub proof fn lemma_update_rejection(
    status: u16,
    body: Seq<char>,
    page: Option<Page>,
    r: Result<Task, TaskError>,
    set: TaskView,
)
    requires
        !is_success(status),
        update_outcome(status, body, page, r, set),
    ensures
        r matches Err(TaskError::RemoteRequest { status: s, body: b }) && s == status && b@ == body,
{
}

/// Fails with the rejection unless `status` reports success.
pub fn check_status(status: u16, body: &String) -> (r: Result<(), TaskError>)
    ensures
        is_success(status) ==> r is Ok,
        !is_success(status) ==> r is Err && is_rejection(r->Err_0, status, body@),
{
    if 200 <= status && status <= 299 {
        Ok(())
    } else {
        Err(TaskError::RemoteRequest { status, body: body.clone() })
    }
}

/// The record of a listed page that has an identifier.
pub fn listed_task(p: &Page) -> (r: Task)
    requires
        has_id(*p),
    ensures
        r@ == listed_view(*p),
{
    let id = match &p.id {
        Some(i) => i.clone(),
        None => String::new(),
    };
    let title = match p.title_text() {
        Some(t) => t,
        None => String::new(),
    };
    Task {
        id,
        title,
        status: TaskStatus::from_remote(&p.status_text()),
        url: copy_opt(&p.url),
        priority: TaskPriority::from_remote(&p.priority_text()),
        due_date: p.due_date_text(),
        tags: p.tag_texts(),
        description: p.description_text(),
    }
}

/// The records of the listed pages that have an identifier, in order.
pub fn listed_tasks(pages: &Vec<Page>) -> (r: Vec<Task>)
    ensures
        task_views(r@) == listed_views(pages@),
{
    let mut out: Vec<Task> = Vec::new();
    let mut i: usize = 0;
    while i < pages.len()
        invariant
            i <= pages@.len(),
            task_views(out@) == listed_views(pages@.take(i as int)),
        decreases pages@.len() - i,
    {
        proof {
            assert(pages@.take(i + 1).drop_last() =~= pages@.take(i as int));
            assert(pages@.take(i + 1).last() == pages@[i as int]);
        }
        let has = match &pages[i].id {
            Some(id) => id.unicode_len() > 0,
            None => false,
        };
        if has {
            let t = listed_task(&pages[i]);
            let ghost before = out@;
            out.push(t);
            proof {
                assert(task_views(out@) =~= task_views(before).push(t@));
            }
        }
        i = i + 1;
    }
    proof {
        assert(pages@.take(pages@.len() as int) =~= pages@);
    }
    out
}

/// Outcome of the query that lists tasks: the rejection for a failure
/// status; a schema error where the body has no result list; else the
/// records of the results that have an identifier, in the service's order.
pub fn list_tasks_response(status: u16, body: &String, decoded: &Option<QueryResponse>) -> (r:
    Result<Vec<Task>, TaskError>)
    ensures
        !is_success(status) ==> r is Err && is_rejection(r->Err_0, status, body@),
        is_success(status) ==> match decoded {
            Some(q) => match q.results {
                Some(v) => r is Ok && task_views(r->Ok_0@) == listed_views(v@),
                None => r is Err && r->Err_0 is RemoteSchema,
            },
            None => r is Err && r->Err_0 is RemoteSchema,
        },
{
    check_status(status, body)?;
    match decoded {
        Some(q) => match &q.results {
            Some(v) => Ok(listed_tasks(v)),
            None => Err(TaskError::RemoteSchema(String::from_str("the answer has no results"))),
        },
        None => Err(TaskError::RemoteSchema(String::from_str("the answer is not a page list"))),
    }
}

/// The record of an echoed page: identifier, title and address, nothing else.
fn echoed_task(status: u16, body: &String, page: &Option<Page>) -> (r: Result<Task, TaskError>)
    ensures
        update_outcome(status, body@, *page, r, echoed_view(page->Some_0)),
{
    check_status(status, body)?;
    match page {
        Some(p) => {
            let has = match &p.id {
                Some(id) => id.unicode_len() > 0,
                None => false,
            };
            if has {
                let id = match &p.id {
                    Some(i) => i.clone(),
                    None => String::new(),
                };
                let title = match p.title_text() {
                    Some(t) => t,
                    None => String::new(),
                };
                let t = Task {
                    id,
                    title,
                    status: TaskStatus::NotStarted,
                    url: copy_opt(&p.url),
                    priority: None,
                    due_date: None,
                    tags: Vec::new(),
                    description: None,
                };
                proof {
                    assert(t@.tags =~= Seq::<Seq<char>>::empty());
                }
                Ok(t)
            } else {
                Err(TaskError::RemoteSchema(String::from_str("the page has no id")))
            }
        },
        None => Err(TaskError::RemoteSchema(String::from_str("the answer is not a page"))),
    }
}

/// Outcome of creating a task titled `title`: the rejection for a failure
/// status; a schema error where the answer is no page with an identifier;
/// else a record of that identifier and address, the given title, not
/// started, with nothing else set.
pub fn add_task_response(title: &str, status: u16, body: &String, decoded: &Option<Page>) -> (r:
    Result<Task, TaskError>)
    ensures
        update_outcome(status, body@, *decoded, r, created_view(title@, decoded->Some_0)),
{
    let mut t = echoed_task(status, body, decoded)?;
    t.title = title.to_owned();
    Ok(t)
}

/// Outcome of setting the status to `new_status`: the echoed record with
/// that status.
pub fn update_task_status_response(
    status: u16,
    body: &String,
    decoded: &Option<Page>,
    new_status: TaskStatus,
) -> (r: Result<Task, TaskError>)
    ensures
        update_outcome(
            status,
            body@,
            *decoded,
            r,
            (TaskView { status: new_status, ..echoed_view(decoded->Some_0) }),
        ),
{
    let mut t = echoed_task(status, body, decoded)?;
    t.status = new_status;
    Ok(t)
}

/// Outcome of setting the priority to `priority`: the echoed record with
/// that priority.
pub fn set_task_priority_response(
    status: u16,
    body: &String,
    decoded: &Option<Page>,
    priority: TaskPriority,
) -> (r: Result<Task, TaskError>)
    ensures
        update_outcome(
            status,
            body@,
            *decoded,
            r,
            (TaskView { priority: Some(priority), ..echoed_view(decoded->Some_0) }),
        ),
{
    let mut t = echoed_task(status, body, decoded)?;
    t.priority = Some(priority);
    Ok(t)
}

/// Outcome of setting the due date to `due_date`: the echoed record with
/// that due date.
pub fn set_task_due_date_response(
    status: u16,
    body: &String,
    decoded: &Option<Page>,
    due_date: &str,
) -> (r: Result<Task, TaskError>)
    ensures
        update_outcome(
            status,
            body@,
            *decoded,
            r,
            (TaskView { due_date: Some(due_date@), ..echoed_view(decoded->Some_0) }),
        ),
{
    let mut t = echoed_task(status, body, decoded)?;
    t.due_date = Some(due_date.to_owned());
    Ok(t)
}

/// Outcome of setting the description to `description`: the echoed record
/// with that description.
pub fn set_task_description_response(
    status: u16,
    body: &String,
    decoded: &Option<Page>,
    description: &str,
) -> (r: Result<Task, TaskError>)
    ensures
        update_outcome(
            status,
            body@,
            *decoded,
            r,
            (TaskView { description: Some(description@), ..echoed_view(decoded->Some_0) }),
        ),
{
    let mut t = echoed_task(status, body, decoded)?;
    t.description = Some(description.to_owned());
    Ok(t)
}

/// Outcome of replacing the tags with `tags`: the echoed record with
/// exactly those tags, in order.
pub fn add_task_tags_response(
    status: u16,
    body: &String,
    decoded: &Option<Page>,
    tags: Vec<String>,
) -> (r: Result<Task, TaskError>)
    ensures
        update_outcome(
            status,
            body@,
            *decoded,
            r,
            (TaskView { tags: string_views(tags@), ..echoed_view(decoded->Some_0) }),
        ),
{
    let mut t = echoed_task(status, body, decoded)?;
    t.tags = tags;
    Ok(t)
}

/// Outcome of archiving a task: success exactly for a success status,
/// whatever the body holds.
pub fn delete_task_response(status: u16, body: &String) -> (r: Result<(), TaskError>)
    ensures
        is_success(status) <==> r is Ok,
        !is_success(status) ==> is_rejection(r->Err_0, status, body@),
{
    check_status(status, body)
}

} // verus!
