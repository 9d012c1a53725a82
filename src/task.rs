//! The task record and its two enumerations.

use vstd::prelude::*;
use crate::page::opt_view;
use crate::text::{all_ascii, ascii_lower_code, is_ascii_lowering, lemma_ascii_lowering_unique, lower_of, lowercase};

verus! {

/// Progress of a task.
#[derive(Debug, Clone, Copy, PartialEq, Eq, Structural)]
pub enum TaskStatus {
    NotStarted,
    InProgress,
    Done,
}

/// Canonical name of a status, as the service spells it.
pub open spec fn status_name(s: TaskStatus) -> Seq<char> {
    match s {
        TaskStatus::NotStarted => "Not started"@,
        TaskStatus::InProgress => "In progress"@,
        TaskStatus::Done => "Done"@,
    }
}

/// The status whose lower-cased name is `l`, if any.
pub open spec fn status_of_lower(l: Seq<char>) -> Option<TaskStatus> {
    if l == "not started"@ {
        Some(TaskStatus::NotStarted)
    } else if l == "in progress"@ {
        Some(TaskStatus::InProgress)
    } else if l == "done"@ {
        Some(TaskStatus::Done)
    } else {
        None
    }
}

/// Errors of the task operations.
#[derive(Debug, Clone, PartialEq, Eq)]
pub enum TaskError {
    /// The service could not be reached.
    Transport(String),
    /// The service answered with a status outside 200..=299.
    RemoteRequest { status: u16, body: String },
    /// A successful answer lacks a field that the operation needs.
    RemoteSchema(String),
    /// A status or priority name matches none of the known ones.
    InvalidEnumValue(String),
    /// The token cannot stand in an authorization header.
    InvalidToken,
}

impl TaskStatus {
    /// Canonical name of the status.
    pub fn to_string(&self) -> (r: String)
        ensures
            r@ == status_name(*self),
    {
        match self {
            TaskStatus::NotStarted => String::from_str("Not started"),
            TaskStatus::InProgress => String::from_str("In progress"),
            TaskStatus::Done => String::from_str("Done"),
        }
    }

    /// Parses an already lower-cased status name.
    pub fn from_lower(l: &String) -> (r: Result<TaskStatus, TaskError>)
        ensures
            match status_of_lower(l@) {
                Some(s) => r == Ok::<TaskStatus, TaskError>(s),
                None => r is Err && r->Err_0 is InvalidEnumValue,
            },
    {
        if *l == String::from_str("not started") {
            Ok(TaskStatus::NotStarted)
        } else if *l == String::from_str("in progress") {
            Ok(TaskStatus::InProgress)
        } else if *l == String::from_str("done") {
            Ok(TaskStatus::Done)
        } else {
            Err(TaskError::InvalidEnumValue(String::from_str("invalid task status")))
        }
    }

    /// Parses a status name, ignoring case.
    pub fn from_str(s: &str) -> (r: Result<TaskStatus, TaskError>)
        ensures
            match status_of_lower(lower_of(s@)) {
                Some(v) => r == Ok::<TaskStatus, TaskError>(v),
                None => r is Err && r->Err_0 is InvalidEnumValue,
            },
            forall|l: Seq<char>|
                all_ascii(s@) && #[trigger] is_ascii_lowering(s@, l) ==> match status_of_lower(l) {
                    Some(v) => r == Ok::<TaskStatus, TaskError>(v),
                    None => r is Err && r->Err_0 is InvalidEnumValue,
                },
    {
        let l = lowercase(s);
        proof {
            assert forall|m: Seq<char>| all_ascii(s@) && #[trigger] is_ascii_lowering(s@, m) implies m
                == l@ by {
                lemma_ascii_lowering_unique(s@, m, l@);
            }
        }
        TaskStatus::from_lower(&l)
    }
}

/// Lower-cased canonical name of a status.
pub open spec fn status_lower_name(s: TaskStatus) -> Seq<char> {
    match s {
        TaskStatus::NotStarted => "not started"@,
        TaskStatus::InProgress => "in progress"@,
        TaskStatus::Done => "done"@,
    }
}

/// The canonical name of every status is ASCII and lowers to its
/// lower-cased name, which parses back to that status and is the only text
/// that does: parsing a status's name, in any mix of ASCII cases, gives the
/// status back.
pub proof fn lemma_status_round_trip(v: TaskStatus)
    ensures
        all_ascii(status_name(v)),
        is_ascii_lowering(status_name(v), status_lower_name(v)),
        status_of_lower(status_lower_name(v)) == Some(v),
        forall|l: Seq<char>| status_of_lower(l) == Some(v) <==> l == status_lower_name(v),
{
    reveal_strlit("Not started");
    reveal_strlit("not started");
    reveal_strlit("In progress");
    reveal_strlit("in progress");
    reveal_strlit("Done");
    reveal_strlit("done");
    let s = status_name(v);
    let l = status_lower_name(v);
    assert forall|i: int| 0 <= i < s.len() implies (#[trigger] s[i] as u32) < 128 && (l[i] as u32)
        == ascii_lower_code(s[i]) by {
        assert(i == 0 || i == 1 || i == 2 || i == 3 || i == 4 || i == 5 || i == 6 || i == 7
            || i == 8 || i == 9 || i == 10);
    }
    assert("not started"@[0] != "in progress"@[0]);
    assert("not started"@.len() != "done"@.len());
    assert("in progress"@.len() != "done"@.len());
}

/// Status that a task read from the service gets for the name `n`: the
/// status so named, ignoring case, and `NotStarted` for any other name or
/// for none.
pub open spec fn status_of_remote(n: Option<Seq<char>>) -> TaskStatus {
    match n {
        Some(s) => match status_of_lower(lower_of(s)) {
            Some(v) => v,
            None => TaskStatus::NotStarted,
        },
        None => TaskStatus::NotStarted,
    }
}

/// A status name that matches none of the three is refused where a caller
/// sets a status (`from_str` fails) but read as `NotStarted` where the service
/// sent it; a name that matches gives the same status both ways.
pub proof fn lemma_status_unknown_policies(s: Seq<char>)
    ensures
        status_of_lower(lower_of(s)) is None ==> status_of_remote(Some(s))
            == TaskStatus::NotStarted,
        status_of_lower(lower_of(s)) matches Some(v) ==> status_of_remote(Some(s)) == v,
{
}

impl TaskStatus {
    /// Status of a task read from the service; unknown or absent names give
    /// `NotStarted`.
    pub fn from_remote(n: &Option<String>) -> (r: TaskStatus)
        ensures
            r == status_of_remote(opt_view(*n)),
    {
        match n {
            Some(s) => match TaskStatus::from_str(s.as_str()) {
                Ok(v) => v,
                Err(_) => TaskStatus::NotStarted,
            },
            None => TaskStatus::NotStarted,
        }
    }
}

/// Symbol shown beside a status.
pub open spec fn status_symbol_text(s: TaskStatus) -> Seq<char> {
    match s {
        TaskStatus::NotStarted => "â­•"@,
        TaskStatus::InProgress => "ðŸ”„"@,
        TaskStatus::Done => "âœ…"@,
    }
}

impl TaskStatus {
    /// Symbol shown beside the status.
    pub fn symbol(&self) -> (r: &str)
        ensures
            r@ == status_symbol_text(*self),
    {
        match self {
            TaskStatus::NotStarted => "â­•",
            TaskStatus::InProgress => "ðŸ”„",
            TaskStatus::Done => "âœ…",
        }
    }
}

/// Urgency of a task.
#[derive(Debug, Clone, Copy, PartialEq, Eq, Structural)]
pub enum TaskPriority {
    High,
    Medium,
    Low,
}

/// Canonical name of a priority, as the service spells it.
pub open spec fn priority_name(p: TaskPriority) -> Seq<char> {
    match p {
        TaskPriority::High => "High"@,
        TaskPriority::Medium => "Medium"@,
        TaskPriority::Low => "Low"@,
    }
}

/// The priority whose lower-cased name is `l`, if any.
pub open spec fn priority_of_lower(l: Seq<char>) -> Option<TaskPriority> {
    if l == "high"@ {
        Some(TaskPriority::High)
    } else if l == "medium"@ {
        Some(TaskPriority::Medium)
    } else if l == "low"@ {
        Some(TaskPriority::Low)
    } else {
        None
    }
}

/// Priority that a task read from the service gets for the name `n`: the
/// priority so named, ignoring case, and none for any other name or for none.
pub open spec fn priority_of_remote(n: Option<Seq<char>>) -> Option<TaskPriority> {
    match n {
        Some(s) => priority_of_lower(lower_of(s)),
        None => None,
    }
}

/// Lower-cased canonical name of a priority.
pub open spec fn priority_lower_name(p: TaskPriority) -> Seq<char> {
    match p {
        TaskPriority::High => "high"@,
        TaskPriority::Medium => "medium"@,
        TaskPriority::Low => "low"@,
    }
}

/// The canonical name of every priority is ASCII and lowers to its
/// lower-cased name, which parses back to that priority and is the only
/// text that does: parsing a priority's name, in any mix of ASCII cases,
/// gives the priority back.
pub proof fn lemma_priority_round_trip(p: TaskPriority)
    ensures
        all_ascii(priority_name(p)),
        is_ascii_lowering(priority_name(p), priority_lower_name(p)),
        priority_of_lower(priority_lower_name(p)) == Some(p),
        forall|l: Seq<char>| priority_of_lower(l) == Some(p) <==> l == priority_lower_name(p),
{
    reveal_strlit("High");
    reveal_strlit("high");
    reveal_strlit("Medium");
    reveal_strlit("medium");
    reveal_strlit("Low");
    reveal_strlit("low");
    let s = priority_name(p);
    let l = priority_lower_name(p);
    assert forall|i: int| 0 <= i < s.len() implies (#[trigger] s[i] as u32) < 128 && (l[i] as u32)
        == ascii_lower_code(s[i]) by {
        assert(i == 0 || i == 1 || i == 2 || i == 3 || i == 4 || i == 5);
    }
    assert("high"@.len() != "medium"@.len());
    assert("medium"@.len() != "low"@.len());
    assert("high"@[0] != "low"@[0]);
}

/// A priority name that matches none of the three is refused where a caller
/// sets a priority (`from_str` fails) but read as no priority where the
/// service sent it; a name that matches gives the same priority both ways.
pub proof fn lemma_priority_unknown_policies(s: Seq<char>)
    ensures
        priority_of_lower(lower_of(s)) is None ==> priority_of_remote(Some(s)) is None,
        priority_of_lower(lower_of(s)) matches Some(p) ==> priority_of_remote(Some(s)) == Some(
            p,
        ),
{
}

/// Symbol shown beside a priority.
pub open spec fn priority_symbol_text(p: TaskPriority) -> Seq<char> {
    match p {
        TaskPriority::High => "ðŸ”´"@,
        TaskPriority::Medium => "ðŸŸ¡"@,
        TaskPriority::Low => "ðŸŸ¢"@,
    }
}

impl TaskPriority {
    /// Canonical name of the priority.
    pub fn to_string(&self) -> (r: String)
        ensures
            r@ == priority_name(*self),
    {
        match self {
            TaskPriority::High => String::from_str("High"),
            TaskPriority::Medium => String::from_str("Medium"),
            TaskPriority::Low => String::from_str("Low"),
        }
    }

    /// Symbol shown beside the priority.
    pub fn symbol(&self) -> (r: &str)
        ensures
            r@ == priority_symbol_text(*self),
    {
        match self {
            TaskPriority::High => "ðŸ”´",
            TaskPriority::Medium => "ðŸŸ¡",
            TaskPriority::Low => "ðŸŸ¢",
        }
    }

    /// Parses an already lower-cased priority name.
    pub fn from_lower(l: &String) -> (r: Result<TaskPriority, TaskError>)
        ensures
            match priority_of_lower(l@) {
                Some(p) => r == Ok::<TaskPriority, TaskError>(p),
                None => r is Err && r->Err_0 is InvalidEnumValue,
            },
    {
        if *l == String::from_str("high") {
            Ok(TaskPriority::High)
        } else if *l == String::from_str("medium") {
            Ok(TaskPriority::Medium)
        } else if *l == String::from_str("low") {
            Ok(TaskPriority::Low)
        } else {
            Err(TaskError::InvalidEnumValue(String::from_str("invalid task priority")))
        }
    }

    /// Priority of a task read from the service; unknown or absent names
    /// give none.
    pub fn from_remote(n: &Option<String>) -> (r: Option<TaskPriority>)
        ensures
            r == priority_of_remote(opt_view(*n)),
    {
        match n {
            Some(s) => match TaskPriority::from_str(s.as_str()) {
                Ok(p) => Some(p),
                Err(_) => None,
            },
            None => None,
        }
    }

    /// Parses a priority name, ignoring case.
    pub fn from_str(s: &str) -> (r: Result<TaskPriority, TaskError>)
        ensures
            match priority_of_lower(lower_of(s@)) {
                Some(p) => r == Ok::<TaskPriority, TaskError>(p),
                None => r is Err && r->Err_0 is InvalidEnumValue,
            },
            forall|l: Seq<char>|
                all_ascii(s@) && #[trigger] is_ascii_lowering(s@, l) ==> match priority_of_lower(l) {
                    Some(p) => r == Ok::<TaskPriority, TaskError>(p),
                    None => r is Err && r->Err_0 is InvalidEnumValue,
                },
    {
        let l = lowercase(s);
        proof {
            assert forall|m: Seq<char>| all_ascii(s@) && #[trigger] is_ascii_lowering(s@, m) implies m
                == l@ by {
                lemma_ascii_lowering_unique(s@, m, l@);
            }
        }
        TaskPriority::from_lower(&l)
    }
}

impl core::str::FromStr for TaskStatus {
    type Err = TaskError;

    fn from_str(s: &str) -> Result<TaskStatus, TaskError> {
        TaskStatus::from_str(s)
    }
}

impl core::str::FromStr for TaskPriority {
    type Err = TaskError;

    fn from_str(s: &str) -> Result<TaskPriority, TaskError> {
        TaskPriority::from_str(s)
    }
}

/// One task of the remote database.
#[derive(Debug, Clone, PartialEq)]
pub struct Task {
    pub id: String,
    pub title: String,
    pub status: TaskStatus,
    pub url: Option<String>,
    pub priority: Option<TaskPriority>,
    pub due_date: Option<String>,
    pub tags: Vec<String>,
    pub description: Option<String>,
}

/// What a task holds, as plain values.
pub struct TaskView {
    pub id: Seq<char>,
    pub title: Seq<char>,
    pub status: TaskStatus,
    pub url: Option<Seq<char>>,
    pub priority: Option<TaskPriority>,
    pub due_date: Option<Seq<char>>,
    pub tags: Seq<Seq<char>>,
    pub description: Option<Seq<char>>,
}

impl View for Task {
    type V = TaskView;

    open spec fn view(&self) -> TaskView {
        TaskView {
            id: self.id@,
            title: self.title@,
            status: self.status,
            url: opt_view(self.url),
            priority: self.priority,
            due_date: opt_view(self.due_date),
            tags: self.tags@.map_values(|s: String| s@),
            description: opt_view(self.description),
        }
    }
}

impl Task {
    /// Symbol of the task's status.
    pub fn status_symbol(&self) -> (r: &str)
        ensures
            r@ == status_symbol_text(self.status),
    {
        self.status.symbol()
    }

    /// Symbol of the task's priority, a blank where it has none.
    pub fn priority_symbol(&self) -> (r: &str)
        ensures
            r@ == match self.priority {
                Some(p) => priority_symbol_text(p),
                None => " "@,
            },
    {
        match &self.priority {
            Some(p) => p.symbol(),
            None => " ",
        }
    }
}

} // verus!
