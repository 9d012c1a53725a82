//! Ordering of tasks by due date: tasks without a date first, then dates in
//! code-point order of their text, which for `YYYY-MM-DD` is calendar order.

use vstd::prelude::*;
use crate::filter::copy_task;
use crate::response::task_views;
use crate::task::{Task, TaskView};

verus! {

/// `a` comes before `b`, or equals it, in code-point order.
pub open spec fn text_le(a: Seq<char>, b: Seq<char>) -> bool
    decreases a.len(),
{
    if a.len() == 0 {
        true
    } else if b.len() == 0 {
        false
    } else if (a[0] as u32) < (b[0] as u32) {
        true
    } else if (a[0] as u32) > (b[0] as u32) {
        false
    } else {
        text_le(a.drop_first(), b.drop_first())
    }
}

/// Order of due dates: no date first, then dates by text.
pub open spec fn due_le(a: Option<Seq<char>>, b: Option<Seq<char>>) -> bool {
    match a {
        None => true,
        Some(x) => match b {
            None => false,
            Some(y) => text_le(x, y),
        },
    }
}

/// The tasks come in due-date order.
pub open spec fn sorted_by_due(ts: Seq<TaskView>) -> bool {
    forall|i: int, j: int|
        0 <= i < j < ts.len() ==> due_le(#[trigger] ts[i].due_date, #[trigger] ts[j].due_date)
}

/// Any two texts are ordered one way or the other.
pub proof fn lemma_text_le_total(a: Seq<char>, b: Seq<char>)
    ensures
        text_le(a, b) || text_le(b, a),
    decreases a.len(),
{
    if a.len() > 0 && b.len() > 0 && (a[0] as u32) == (b[0] as u32) {
        lemma_text_le_total(a.drop_first(), b.drop_first());
    }
}

/// The text order is transitive.
pub proof fn lemma_text_le_transitive(a: Seq<char>, b: Seq<char>, c: Seq<char>)
    requires
        text_le(a, b),
        text_le(b, c),
    ensures
        text_le(a, c),
    decreases a.len(),
{
    if a.len() > 0 && b.len() > 0 && c.len() > 0 && (a[0] as u32) == (b[0] as u32) && (b[0] as u32)
        == (c[0] as u32) {
        lemma_text_le_transitive(a.drop_first(), b.drop_first(), c.drop_first());
    }
}

/// The due-date order is total and transitive.
pub proof fn lemma_due_le_order(a: Option<Seq<char>>, b: Option<Seq<char>>, c: Option<Seq<char>>)
    ensures
        due_le(a, b) || due_le(b, a),
        due_le(a, b) && due_le(b, c) ==> due_le(a, c),
{
    if a is Some && b is Some {
        lemma_text_le_total(a->Some_0, b->Some_0);
    }
    if a is Some && b is Some && c is Some && due_le(a, b) && due_le(b, c) {
        lemma_text_le_transitive(a->Some_0, b->Some_0, c->Some_0);
    }
}

/// Whether `a` comes before `b`, or equals it, in code-point order.
pub fn text_in_order(a: &str, b: &str) -> (r: bool)
    ensures
        r == text_le(a@, b@),
{
    let n = a.unicode_len();
    let m = b.unicode_len();
    let mut i: usize = 0;
    proof {
        assert(a@.skip(0) =~= a@);
        assert(b@.skip(0) =~= b@);
    }
    while i < n && i < m
        invariant
            n == a@.len(),
            m == b@.len(),
            i <= n,
            i <= m,
            text_le(a@, b@) == text_le(a@.skip(i as int), b@.skip(i as int)),
        decreases n - i,
    {
        let x = a.get_char(i);
        let y = b.get_char(i);
        proof {
            assert(a@.skip(i as int)[0] == x);
            assert(b@.skip(i as int)[0] == y);
            assert(a@.skip(i as int).drop_first() =~= a@.skip(i + 1));
            assert(b@.skip(i as int).drop_first() =~= b@.skip(i + 1));
        }
        if (x as u32) < (y as u32) {
            return true;
        }
        if (x as u32) > (y as u32) {
            return false;
        }
        i = i + 1;
    }
    i == n
}

/// Whether due date `a` comes before `b`, or equals it.
pub fn due_in_order(a: &Option<String>, b: &Option<String>) -> (r: bool)
    ensures
        r == due_le(crate::page::opt_view(*a), crate::page::opt_view(*b)),
{
    match a {
        None => true,
        Some(x) => match b {
            None => false,
            Some(y) => text_in_order(x.as_str(), y.as_str()),
        },
    }
}

/// The same tasks in due-date order, tasks without a date first.
pub fn sort_by_due_date(tasks: &Vec<Task>) -> (r: Vec<Task>)
    ensures
        sorted_by_due(task_views(r@)),
        task_views(r@).to_multiset() == task_views(tasks@).to_multiset(),
{
    let mut out: Vec<Task> = Vec::new();
    let mut i: usize = 0;
    proof {
        assert(task_views(out@) =~= task_views(tasks@.take(0)));
    }
    while i < tasks.len()
        invariant
            i <= tasks@.len(),
            sorted_by_due(task_views(out@)),
            task_views(out@).to_multiset() == task_views(tasks@.take(i as int)).to_multiset(),
        decreases tasks@.len() - i,
    {
        let x = &tasks[i];
        let mut k: usize = 0;
        while k < out.len() && due_in_order(&out[k].due_date, &x.due_date)
            invariant
                k <= out@.len(),
                forall|j: int| 0 <= j < k ==> due_le(#[trigger] out@[j]@.due_date, x@.due_date),
            decreases out@.len() - k,
        {
            k = k + 1;
        }
        let ghost s = task_views(out@);
        let c = copy_task(x);
        proof {
            if k < out@.len() {
                lemma_due_le_order(out@[k as int]@.due_date, x@.due_date, x@.due_date);
                assert forall|j: int| k <= j < s.len() implies due_le(
                    x@.due_date,
                    #[trigger] s[j].due_date,
                ) by {
                    if j > k {
                        assert(due_le(s[k as int].due_date, s[j].due_date));
                    }
                    lemma_due_le_order(x@.due_date, s[k as int].due_date, s[j].due_date);
                }
            }
        }
        out.insert(k, c);
        proof {
            let t = task_views(out@);
            assert(t =~= s.insert(k as int, c@));
            assert forall|a: int, b: int| 0 <= a < b < t.len() implies due_le(
                #[trigger] t[a].due_date,
                #[trigger] t[b].due_date,
            ) by {
                if b < k {
                    assert(t[a] == s[a] && t[b] == s[b]);
                } else if b == k {
                    assert(t[a] == s[a]);
                } else if a == k {
                    assert(t[b] == s[b - 1]);
                } else if a < k {
                    assert(t[a] == s[a] && t[b] == s[b - 1]);
                } else {
                    assert(t[a] == s[a - 1] && t[b] == s[b - 1]);
                }
            }
            assert(task_views(tasks@.take(i + 1)) =~= task_views(tasks@.take(i as int)).push(
                tasks@[i as int]@,
            ));
            vstd::seq_lib::to_multiset_build(task_views(tasks@.take(i as int)), tasks@[i as int]@);
            vstd::seq_lib::to_multiset_insert(s, k as int, c@);
            assert(t.to_multiset() == s.to_multiset().insert(c@));
        }
        i = i + 1;
    }
    proof {
        assert(tasks@.take(tasks@.len() as int) =~= tasks@);
    }
    out
}

} // verus!
