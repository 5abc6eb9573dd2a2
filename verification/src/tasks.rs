//! The tasks of the remote service: the request that asks for them, what
//! its response means, and which of them still wait to be done.

use vstd::prelude::*;
use crate::errors::{AppError, HttpFault};
use crate::status::{is_success, succeeded};
use crate::text::same_text;

verus! {

/// The kind of a task on the remote service.
#[derive(Clone, Copy, Debug, PartialEq, Eq, Structural)]
pub enum TaskType {
    Daily,
    Todo,
    Habit,
    Reward,
}

/// A task as the library works with it.
#[derive(Debug, PartialEq, Eq)]
pub struct Task {
    /// What is to be done.
    pub text: String,
    pub task_type: TaskType,
    /// Whether it is done, where the service says so. Dailies and to-dos
    /// carry this; a habit or a reward comes without it as a rule.
    pub completed: Option<bool>,
}

/// A task as it stands in a response: the kind is still a word, and any
/// word may stand there.
#[derive(Debug, PartialEq, Eq)]
pub struct TaskRecord {
    pub text: String,
    pub type_label: String,
    pub completed: Option<bool>,
}

/// What came back for a request that reached the service.
#[derive(Debug, PartialEq, Eq)]
pub struct ApiResponse {
    /// The status code of the response.
    pub status: u16,
    /// The tasks that the body lists, or why the body could not be read
    /// as a list of tasks.
    pub body: Result<Vec<TaskRecord>, String>,
}

/// One request: its method, where it goes, the headers it carries, in
/// order, and how many seconds it may take before it is given up.
#[derive(Debug, PartialEq, Eq)]
pub struct ApiRequest {
    pub method: String,
    pub url: String,
    pub headers: Vec<(String, String)>,
    pub timeout_secs: u64,
}

/// The mathematical value of a `Task`.
pub struct TaskView {
    pub text: Seq<char>,
    pub task_type: TaskType,
    pub completed: Option<bool>,
}

impl View for Task {
    type V = TaskView;

    open spec fn view(&self) -> TaskView {
        TaskView { text: self.text@, task_type: self.task_type, completed: self.completed }
    }
}

impl DeepView for Task {
    type V = TaskView;

    open spec fn deep_view(&self) -> TaskView {
        self@
    }
}

impl TaskType {
    /// The kind that the service calls `name`, if it is one of the four.
    pub open spec fn named(name: Seq<char>) -> Option<TaskType> {
        if name == "daily"@ {
            Some(TaskType::Daily)
        } else if name == "todo"@ {
            Some(TaskType::Todo)
        } else if name == "habit"@ {
            Some(TaskType::Habit)
        } else if name == "reward"@ {
            Some(TaskType::Reward)
        } else {
            None
        }
    }

    /// The kind that the service calls `name`, if it is one of the four.
    pub fn from_name(name: &str) -> (r: Option<TaskType>)
        ensures
            r == TaskType::named(name@),
    {
        if same_text(name, "daily") {
            Some(TaskType::Daily)
        } else if same_text(name, "todo") {
            Some(TaskType::Todo)
        } else if same_text(name, "habit") {
            Some(TaskType::Habit)
        } else if same_text(name, "reward") {
            Some(TaskType::Reward)
        } else {
            None
        }
    }
}

impl TaskView {
    /// A task is pending when it is a daily or a to-do and is not marked
    /// as done. One without a mark counts as not done.
    pub open spec fn is_pending(self) -> bool {
        (self.task_type == TaskType::Daily || self.task_type == TaskType::Todo) && self.completed
            != Some(true)
    }
}

impl Task {
    /// Whether the task still waits to be done.
    pub fn is_pending(&self) -> (r: bool)
        ensures
            r == self@.is_pending(),
    {
        let wanted = match self.task_type {
            TaskType::Daily => true,
            TaskType::Todo => true,
            TaskType::Habit => false,
            TaskType::Reward => false,
        };
        let done = match self.completed {
            Some(done) => done,
            None => false,
        };
        wanted && !done
    }
}

/// The texts of the pending tasks among `tasks`, in the order of `tasks`.
pub open spec fn pending_texts(tasks: Seq<TaskView>) -> Seq<Seq<char>> {
    tasks.filter(|task: TaskView| task.is_pending()).map_values(|task: TaskView| task.text)
}

/// One more task adds its text to the pending texts if it is pending, and
/// nothing otherwise.
pub proof fn lemma_pending_texts_push(tasks: Seq<TaskView>, task: TaskView)
    ensures
        pending_texts(tasks.push(task)) == if task.is_pending() {
            pending_texts(tasks).push(task.text)
        } else {
            pending_texts(tasks)
        },
        pending_texts(tasks).len() <= tasks.len(),
{
    reveal(Seq::filter);
    let keep = |task: TaskView| task.is_pending();
    assert(tasks.push(task).drop_last() =~= tasks);
    tasks.lemma_filter_len(keep);
    if task.is_pending() {
        assert(pending_texts(tasks.push(task)) =~= pending_texts(tasks).push(task.text));
    }
}

/// The texts of the tasks that still wait to be done, in the order in
/// which the tasks came.
pub fn get_pending_tasks(tasks: Vec<Task>) -> (pending: Vec<String>)
    ensures
        pending.deep_view() == pending_texts(tasks.deep_view()),
        pending@.len() <= tasks@.len(),
{
    let ghost all = tasks.deep_view();
    let mut pending: Vec<String> = Vec::new();
    assert(all.take(0) =~= Seq::<TaskView>::empty());
    assert(pending.deep_view() =~= pending_texts(all.take(0)));
    for task in it: tasks
        invariant
            it.seq().len() == all.len(),
            forall|j: int| 0 <= j < all.len() ==> (#[trigger] it.seq()[j])@ == all[j],
            pending.deep_view() == pending_texts(all.take(it.index())),
            pending@.len() <= it.index(),
    {
        let ghost before = pending.deep_view();
        proof {
            let i = it.index();
            lemma_pending_texts_push(all.take(i), task@);
            assert(all.take(i + 1) =~= all.take(i).push(task@));
        }
        if task.is_pending() {
            pending.push(task.text);
            assert(pending.deep_view() =~= before.push(task.text@));
        }
    }
    assert(all.take(all.len() as int) =~= all);
    pending
}

/// The method of the request: it reads, and changes nothing.
pub const REQUEST_METHOD: &'static str = "GET";

/// Where the tasks of the account are asked for.
pub const TASKS_URL: &'static str = "https://habitica.com/api/v3/tasks/user";

/// The header that names the account.
pub const USER_HEADER: &'static str = "x-api-user";

/// The header that carries the access token.
pub const KEY_HEADER: &'static str = "x-api-key";

/// How many seconds the request may take.
pub const REQUEST_TIMEOUT_SECS: u64 = 10;

/// Whether `request` is the request for the tasks of the account that
/// goes by `user_id` and `api_token`: a GET of the fixed address, with the
/// two credentials as headers. Neither credential is part of the address.
pub open spec fn is_task_request(
    request: ApiRequest,
    user_id: Seq<char>,
    api_token: Seq<char>,
) -> bool {
    &&& request.method@ == REQUEST_METHOD@
    &&& request.url@ == TASKS_URL@
    &&& request.headers@.len() == 2
    &&& request.headers@[0].0@ == USER_HEADER@
    &&& request.headers@[0].1@ == user_id
    &&& request.headers@[1].0@ == KEY_HEADER@
    &&& request.headers@[1].1@ == api_token
    &&& request.timeout_secs == REQUEST_TIMEOUT_SECS
}

/// The one request of a run.
pub fn task_request(user_id: &str, api_token: &str) -> (request: ApiRequest)
    ensures
        is_task_request(request, user_id@, api_token@),
{
    let mut headers: Vec<(String, String)> = Vec::new();
    headers.push((String::from_str(USER_HEADER), String::from_str(user_id)));
    headers.push((String::from_str(KEY_HEADER), String::from_str(api_token)));
    ApiRequest {
        method: String::from_str(REQUEST_METHOD),
        url: String::from_str(TASKS_URL),
        headers,
        timeout_secs: REQUEST_TIMEOUT_SECS,
    }
}

impl TaskRecord {
    /// The task that the record stands for, if its kind is one of the four.
    pub open spec fn typed(self) -> Option<TaskView> {
        match TaskType::named(self.type_label@) {
            Some(kind) => Some(TaskView { text: self.text@, task_type: kind, completed: self.completed }),
            None => None,
        }
    }

    /// Whether the record is of a pending task, read off the record as it
    /// came: the kind it names is `daily` or `todo`, and it is not marked
    /// as done.
    pub open spec fn is_pending(self) -> bool {
        (self.type_label@ == "daily"@ || self.type_label@ == "todo"@) && self.completed != Some(
            true,
        )
    }
}

/// The tasks that `records` stand for, in their order. A record of any
/// other kind than the four stands for no task and is left out.
pub open spec fn typed_tasks(records: Seq<TaskRecord>) -> Seq<TaskView> {
    records.filter_map(|record: TaskRecord| record.typed())
}

/// The texts of the records that are of a pending task, in the order of
/// the records.
pub open spec fn pending_record_texts(records: Seq<TaskRecord>) -> Seq<Seq<char>> {
    records.filter(|record: TaskRecord| record.is_pending()).map_values(
        |record: TaskRecord| record.text@,
    )
}

/// One more record adds the task it stands for, if it stands for one.
pub proof fn lemma_typed_tasks_push(records: Seq<TaskRecord>, record: TaskRecord)
    ensures
        typed_tasks(records.push(record)) == match record.typed() {
            Some(task) => typed_tasks(records).push(task),
            None => typed_tasks(records),
        },
{
    reveal(Seq::filter_map);
    assert(records.push(record).drop_last() =~= records);
}

/// What is pending among the tasks that records stand for is what the
/// records themselves say: the texts of exactly those whose kind is
/// `daily` or `todo` and that are not marked as done, in their order. A
/// record of another kind, known or not, adds nothing and spoils nothing.
pub proof fn lemma_pending_of_records(records: Seq<TaskRecord>)
    ensures
        pending_texts(typed_tasks(records)) == pending_record_texts(records),
    decreases records.len(),
{
    reveal(Seq::filter);
    reveal(Seq::filter_map);
    if records.len() == 0 {
        assert(typed_tasks(records) =~= Seq::<TaskView>::empty());
        assert(pending_texts(typed_tasks(records)) =~= pending_record_texts(records));
    } else {
        let front = records.drop_last();
        let record = records.last();
        lemma_pending_of_records(front);
        assert(front.push(record) =~= records);
        lemma_typed_tasks_push(front, record);
        match record.typed() {
            Some(task) => {
                lemma_pending_texts_push(typed_tasks(front), task);
                assert(task.is_pending() == record.is_pending());
                if record.is_pending() {
                    assert(pending_record_texts(records) =~= pending_record_texts(front).push(
                        record.text@,
                    ));
                } else {
                    assert(pending_record_texts(records) =~= pending_record_texts(front));
                }
            },
            None => {
                assert(!record.is_pending());
                assert(pending_record_texts(records) =~= pending_record_texts(front));
            },
        }
    }
}

/// The task that `record` stands for; `None` for a record of any other
/// kind than the four.
pub fn decode_task(record: TaskRecord) -> (r: Option<Task>)
    ensures
        match record.typed() {
            Some(view) => r matches Some(task) && task@ == view,
            None => r is None,
        },
{
    match TaskType::from_name(record.type_label.as_str()) {
        Some(kind) => Some(Task { text: record.text, task_type: kind, completed: record.completed }),
        None => None,
    }
}

/// The tasks that `records` stand for, in their order. A record of any
/// other kind than the four is left out; it is no error.
pub fn decode_tasks(records: Vec<TaskRecord>) -> (tasks: Vec<Task>)
    ensures
        tasks.deep_view() == typed_tasks(records@),
        tasks@.len() <= records@.len(),
{
    let ghost all = records@;
    let mut tasks: Vec<Task> = Vec::new();
    proof {
        reveal(Seq::filter_map);
        assert(all.take(0) =~= Seq::<TaskRecord>::empty());
        assert(tasks.deep_view() =~= typed_tasks(all.take(0)));
    }
    for record in it: records
        invariant
            it.seq() == all,
            tasks.deep_view() == typed_tasks(all.take(it.index())),
            tasks@.len() <= it.index(),
    {
        let ghost before = tasks.deep_view();
        proof {
            let i = it.index();
            lemma_typed_tasks_push(all.take(i), record);
            assert(all.take(i + 1) =~= all.take(i).push(record));
        }
        match decode_task(record) {
            Some(task) => {
                tasks.push(task);
                assert(tasks.deep_view() =~= before.push(task@));
            },
            None => {},
        }
    }
    assert(all.take(all.len() as int) =~= all);
    tasks
}

/// What a request came to. `sent` is the account of the transport: an
/// error where no response came, else the response.
///
/// No response is a transport fault. A response whose status reports no
/// success is an error that carries the status, whatever its body holds. A
/// successful response whose body could not be read as a list of tasks is
/// a decoding fault. Any other gives the tasks that its records stand for,
/// in their order; a record of an unknown kind is left out.
pub fn fetch_tasks(sent: Result<ApiResponse, String>) -> (r: Result<Vec<Task>, AppError>)
    ensures
        match sent {
            Err(detail) => r == Err::<Vec<Task>, AppError>(
                AppError::HttpError(HttpFault::Transport(detail)),
            ),
            Ok(response) => if !is_success(response.status) {
                r == Err::<Vec<Task>, AppError>(AppError::FetchTasksError(response.status))
            } else {
                match response.body {
                    Err(detail) => r == Err::<Vec<Task>, AppError>(
                        AppError::HttpError(HttpFault::Decode(detail)),
                    ),
                    Ok(records) => r matches Ok(tasks) && tasks.deep_view() == typed_tasks(
                        records@,
                    ) && pending_texts(tasks.deep_view()) == pending_record_texts(records@),
                }
            },
        },
{
    match sent {
        Err(detail) => Err(AppError::HttpError(HttpFault::Transport(detail))),
        Ok(response) => {
            if !succeeded(response.status) {
                return Err(AppError::FetchTasksError(response.status));
            }
            match response.body {
                Err(detail) => Err(AppError::HttpError(HttpFault::Decode(detail))),
                Ok(records) => {
                    proof {
                        lemma_pending_of_records(records@);
                    }
                    Ok(decode_tasks(records))
                },
            }
        },
    }
}

} // verus!
