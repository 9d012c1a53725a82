//! Selection of listed tasks by status, priority and tag.

use vstd::prelude::*;
use crate::page::copy_opt;
use crate::request::string_views;
use crate::response::task_views;
use crate::task::{Task, TaskPriority, TaskStatus, TaskView};
use crate::text::{lower_of, lowercase};

verus! {

/// `needle` occurs in `hay` as a contiguous piece.
pub open spec fn has_infix(hay: Seq<char>, needle: Seq<char>) -> bool {
    exists|i: int|
        0 <= i && i + needle.len() <= hay.len() && #[trigger] hay.subrange(i, i + needle.len())
            == needle
}

/// Some tag holds the query, both lower-cased.
pub open spec fn tag_matches(tags: Seq<Seq<char>>, query: Seq<char>) -> bool {
    exists|j: int| 0 <= j < tags.len() && has_infix(lower_of(#[trigger] tags[j]), lower_of(query))
}

/// Which listed tasks to keep; an absent criterion keeps every task.
#[derive(Debug, Clone)]
pub struct TaskFilter {
    pub status: Option<TaskStatus>,
    pub priority: Option<TaskPriority>,
    pub tag: Option<String>,
}

/// The filter keeps the task.
pub open spec fn selects(f: TaskFilter, t: TaskView) -> bool {
    &&& (f.status matches Some(s) ==> t.status == s)
    &&& (f.priority matches Some(p) ==> t.priority == Some(p))
    &&& (f.tag matches Some(q) ==> tag_matches(t.tags, q@))
}

/// Whether `needle` occurs in `hay`.
pub fn contains_text(hay: &str, needle: &str) -> (r: bool)
    ensures
        r == has_infix(hay@, needle@),
{
    let n = hay.unicode_len();
    let m = needle.unicode_len();
    if m > n {
        return false;
    }
    let mut i: usize = 0;
    while i <= n - m
        invariant
            n == hay@.len(),
            m == needle@.len(),
            m <= n,
            forall|k: int| 0 <= k < i ==> #[trigger] hay@.subrange(k, k + m) != needle@,
        decreases n - m + 1 - i,
    {
        let mut j: usize = 0;
        let mut same = true;
        while j < m
            invariant
                n == hay@.len(),
                m == needle@.len(),
                i + m <= n,
                j <= m,
                same ==> forall|l: int| 0 <= l < j ==> hay@[i + l] == needle@[l],
                !same ==> hay@.subrange(i as int, i + m) != needle@,
            decreases m - j,
        {
            if hay.get_char(i + j) != needle.get_char(j) {
                same = false;
                proof {
                    assert(hay@.subrange(i as int, i + m)[j as int] != needle@[j as int]);
                }
            }
            j = j + 1;
        }
        if same {
            proof {
                assert(hay@.subrange(i as int, i + m) =~= needle@);
            }
            return true;
        }
        if i == n - m {
            proof {
                assert forall|k: int| 0 <= k && k + m <= n implies #[trigger] hay@.subrange(
                    k,
                    k + m,
                ) != needle@ by {
                    assert(k <= i);
                }
            }
            return false;
        }
        i = i + 1;
    }
    proof {
        assert forall|k: int| 0 <= k && k + m <= n implies #[trigger] hay@.subrange(k, k + m)
            != needle@ by {
            assert(k < i);
        }
    }
    false
}

/// Whether some tag, lower-cased, holds the lower-cased query.
fn any_tag_matches(tags: &Vec<String>, query: &str) -> (r: bool)
    ensures
        r == tag_matches(string_views(tags@), query@),
{
    let q = lowercase(query);
    let mut j: usize = 0;
    while j < tags.len()
        invariant
            j <= tags@.len(),
            q@ == lower_of(query@),
            forall|k: int| 0 <= k < j ==> !has_infix(lower_of(#[trigger] tags@[k]@), q@),
        decreases tags@.len() - j,
    {
        let t = lowercase(tags[j].as_str());
        if contains_text(t.as_str(), q.as_str()) {
            proof {
                assert(string_views(tags@)[j as int] == tags@[j as int]@);
            }
            return true;
        }
        j = j + 1;
    }
    proof {
        assert forall|k: int| 0 <= k < tags@.len() implies !has_infix(
            lower_of(#[trigger] string_views(tags@)[k]),
            lower_of(query@),
        ) by {
            assert(string_views(tags@)[k] == tags@[k]@);
        }
    }
    false
}

/// A copy of a list of strings.
fn copy_strings(v: &Vec<String>) -> (r: Vec<String>)
    ensures
        string_views(r@) == string_views(v@),
{
    let mut out: Vec<String> = Vec::new();
    let mut i: usize = 0;
    while i < v.len()
        invariant
            i <= v@.len(),
            out@.len() == i,
            forall|k: int| 0 <= k < i ==> (#[trigger] out@[k])@ == v@[k]@,
        decreases v@.len() - i,
    {
        out.push(v[i].clone());
        i = i + 1;
    }
    proof {
        assert(string_views(out@) =~= string_views(v@));
    }
    out
}

/// A copy of a task.
pub fn copy_task(t: &Task) -> (r: Task)
    ensures
        r@ == t@,
{
    Task {
        id: t.id.clone(),
        title: t.title.clone(),
        status: t.status,
        url: copy_opt(&t.url),
        priority: t.priority,
        due_date: copy_opt(&t.due_date),
        tags: copy_strings(&t.tags),
        description: copy_opt(&t.description),
    }
}

impl TaskFilter {
    /// Whether the filter keeps `t`.
    pub fn selects(&self, t: &Task) -> (r: bool)
        ensures
            r == selects(*self, t@),
    {
        let status_ok = match self.status {
            Some(s) => t.status == s,
            None => true,
        };
        let priority_ok = match self.priority {
            Some(p) => match t.priority {
                Some(tp) => tp == p,
                None => false,
            },
            None => true,
        };
        let tag_ok = match &self.tag {
            Some(q) => any_tag_matches(&t.tags, q.as_str()),
            None => true,
        };
        status_ok && priority_ok && tag_ok
    }

    /// The tasks that the filter keeps, in their order.
    pub fn apply(&self, tasks: &Vec<Task>) -> (r: Vec<Task>)
        ensures
            task_views(r@) == task_views(tasks@).filter(|t: TaskView| selects(*self, t)),
    {
        let mut out: Vec<Task> = Vec::new();
        let mut i: usize = 0;
        while i < tasks.len()
            invariant
                i <= tasks@.len(),
                task_views(out@) == task_views(tasks@.take(i as int)).filter(
                    |t: TaskView| selects(*self, t),
                ),
            decreases tasks@.len() - i,
        {
            proof {
                reveal(Seq::filter);
                assert(task_views(tasks@.take(i + 1)).drop_last() =~= task_views(
                    tasks@.take(i as int),
                ));
                assert(task_views(tasks@.take(i + 1)).last() == tasks@[i as int]@);
            }
            let ghost before = out@;
            if self.selects(&tasks[i]) {
                let c = copy_task(&tasks[i]);
                out.push(c);
                proof {
                    assert(task_views(out@) =~= task_views(before).push(c@));
                }
            }
            i = i + 1;
        }
        proof {
            assert(tasks@.take(tasks@.len() as int) =~= tasks@);
        }
        out
    }
}

} // verus!
