use habix::errors::{AppError, HttpFault};
use habix::session::report;
use habix::tasks::{
    decode_task, decode_tasks, fetch_tasks, get_pending_tasks, task_request, ApiResponse, Task,
    TaskRecord, TaskType, KEY_HEADER, REQUEST_METHOD, REQUEST_TIMEOUT_SECS, TASKS_URL,
    USER_HEADER,
};

fn task(text: &str, task_type: TaskType, completed: Option<bool>) -> Task {
    Task { text: text.to_string(), task_type, completed }
}

fn record(text: &str, type_label: &str, completed: Option<bool>) -> TaskRecord {
    TaskRecord { text: text.to_string(), type_label: type_label.to_string(), completed }
}

fn texts(items: &[&str]) -> Vec<String> {
    items.iter().map(|item| item.to_string()).collect()
}

#[test]
fn pending_of_a_todo_a_habit_and_a_finished_daily() {
    let tasks = vec![
        task("A", TaskType::Todo, Some(false)),
        task("B", TaskType::Habit, None),
        task("C", TaskType::Daily, Some(true)),
    ];
    assert_eq!(get_pending_tasks(tasks), texts(&["A"]));
}

#[test]
fn pending_of_nothing_is_nothing() {
    assert_eq!(get_pending_tasks(Vec::new()), Vec::<String>::new());
}

#[test]
fn pending_keeps_the_order_of_the_tasks() {
    let tasks = vec![
        task("z", TaskType::Daily, Some(false)),
        task("skip", TaskType::Reward, None),
        task("a", TaskType::Todo, None),
        task("done", TaskType::Todo, Some(true)),
        task("m", TaskType::Daily, None),
        task("a", TaskType::Todo, Some(false)),
    ];
    assert_eq!(get_pending_tasks(tasks), texts(&["z", "a", "m", "a"]));
}

#[test]
fn pending_is_never_longer_than_the_tasks() {
    let tasks = vec![
        task("1", TaskType::Daily, None),
        task("2", TaskType::Todo, Some(false)),
    ];
    assert_eq!(get_pending_tasks(tasks).len(), 2);
    let tasks = vec![
        task("1", TaskType::Daily, Some(true)),
        task("2", TaskType::Habit, Some(false)),
    ];
    assert_eq!(get_pending_tasks(tasks).len(), 0);
}

#[test]
fn a_task_without_a_mark_counts_as_not_done() {
    assert!(task("x", TaskType::Daily, None).is_pending());
    assert!(task("x", TaskType::Todo, None).is_pending());
    assert!(task("x", TaskType::Daily, Some(false)).is_pending());
    assert!(!task("x", TaskType::Daily, Some(true)).is_pending());
    assert!(!task("x", TaskType::Todo, Some(true)).is_pending());
}

#[test]
fn habits_and_rewards_are_never_pending() {
    for completed in [None, Some(false), Some(true)] {
        assert!(!task("x", TaskType::Habit, completed).is_pending());
        assert!(!task("x", TaskType::Reward, completed).is_pending());
    }
    let tasks = vec![
        task("h", TaskType::Habit, Some(false)),
        task("r", TaskType::Reward, Some(false)),
    ];
    assert_eq!(get_pending_tasks(tasks), Vec::<String>::new());
}

#[test]
fn a_pending_task_with_an_empty_text_is_kept() {
    let tasks = vec![task("", TaskType::Todo, None), task("b", TaskType::Todo, None)];
    assert_eq!(get_pending_tasks(tasks), texts(&["", "b"]));
}

#[test]
fn the_four_kinds_by_name() {
    assert_eq!(TaskType::from_name("daily"), Some(TaskType::Daily));
    assert_eq!(TaskType::from_name("todo"), Some(TaskType::Todo));
    assert_eq!(TaskType::from_name("habit"), Some(TaskType::Habit));
    assert_eq!(TaskType::from_name("reward"), Some(TaskType::Reward));
}

#[test]
fn no_other_name_is_a_kind() {
    assert_eq!(TaskType::from_name(""), None);
    assert_eq!(TaskType::from_name("Daily"), None);
    assert_eq!(TaskType::from_name("todos"), None);
    assert_eq!(TaskType::from_name(" todo"), None);
    assert_eq!(TaskType::from_name("challenge"), None);
}

#[test]
fn decode_task_keeps_text_and_mark() {
    assert_eq!(
        decode_task(record("Water plants", "daily", Some(false))),
        Some(task("Water plants", TaskType::Daily, Some(false)))
    );
    assert_eq!(decode_task(record("Run", "habit", None)), Some(task("Run", TaskType::Habit, None)));
}

#[test]
fn decode_task_of_an_unknown_kind_is_no_task() {
    assert_eq!(decode_task(record("x", "challenge", None)), None);
    assert_eq!(decode_task(record("x", "", Some(false))), None);
    assert_eq!(decode_task(record("x", "Todo", Some(false))), None);
}

#[test]
fn decode_tasks_keeps_the_order() {
    let records = vec![
        record("a", "todo", Some(true)),
        record("b", "reward", None),
        record("c", "daily", None),
    ];
    assert_eq!(
        decode_tasks(records),
        vec![
            task("a", TaskType::Todo, Some(true)),
            task("b", TaskType::Reward, None),
            task("c", TaskType::Daily, None),
        ]
    );
    assert_eq!(decode_tasks(Vec::new()), Vec::new());
}

#[test]
fn decode_tasks_leaves_out_records_of_unknown_kind() {
    let records = vec![
        record("a", "todo", None),
        record("b", "first", None),
        record("c", "daily", Some(true)),
        record("d", "second", Some(false)),
        record("e", "habit", None),
    ];
    assert_eq!(
        decode_tasks(records),
        vec![
            task("a", TaskType::Todo, None),
            task("c", TaskType::Daily, Some(true)),
            task("e", TaskType::Habit, None),
        ]
    );
    assert_eq!(decode_tasks(vec![record("x", "quest", None)]), Vec::new());
}

#[test]
fn request_carries_the_credentials_as_headers() {
    let request = task_request("1234-abcd", "s3cr3t");
    assert_eq!(TASKS_URL, "https://habitica.com/api/v3/tasks/user");
    assert_eq!(USER_HEADER, "x-api-user");
    assert_eq!(KEY_HEADER, "x-api-key");
    assert_eq!(REQUEST_METHOD, "GET");
    assert_eq!(request.method, "GET");
    assert_eq!(request.url, "https://habitica.com/api/v3/tasks/user");
    assert_eq!(
        request.headers,
        vec![
            ("x-api-user".to_string(), "1234-abcd".to_string()),
            ("x-api-key".to_string(), "s3cr3t".to_string()),
        ]
    );
    assert_eq!(REQUEST_TIMEOUT_SECS, 10);
    assert_eq!(request.timeout_secs, 10);
}

#[test]
fn request_keeps_the_credentials_out_of_the_address() {
    let request = task_request("1234-abcd", "s3cr3t");
    assert!(!request.url.contains("1234-abcd"));
    assert!(!request.url.contains("s3cr3t"));
    assert!(!request.url.contains('?'));
}

#[test]
fn fetch_of_a_success_gives_the_tasks() {
    let response = ApiResponse {
        status: 200,
        body: Ok(vec![record("A", "todo", Some(false)), record("B", "habit", None)]),
    };
    assert_eq!(
        fetch_tasks(Ok(response)),
        Ok(vec![task("A", TaskType::Todo, Some(false)), task("B", TaskType::Habit, None)])
    );
}

#[test]
fn fetch_of_status_401_carries_the_status() {
    let response = ApiResponse { status: 401, body: Err("no body".to_string()) };
    assert_eq!(fetch_tasks(Ok(response)), Err(AppError::FetchTasksError(401)));
}

#[test]
fn fetch_of_a_failure_status_ignores_the_body() {
    let response = ApiResponse { status: 500, body: Ok(vec![record("A", "todo", None)]) };
    assert_eq!(fetch_tasks(Ok(response)), Err(AppError::FetchTasksError(500)));
}

#[test]
fn fetch_at_the_edges_of_success() {
    for status in [199u16, 300, 301, 404, 99, 0, 1000] {
        let response = ApiResponse { status, body: Ok(Vec::new()) };
        assert_eq!(fetch_tasks(Ok(response)), Err(AppError::FetchTasksError(status)));
    }
    for status in [200u16, 201, 204, 299] {
        let response = ApiResponse { status, body: Ok(Vec::new()) };
        assert_eq!(fetch_tasks(Ok(response)), Ok(Vec::new()));
    }
}

#[test]
fn fetch_of_an_unreadable_body_is_a_decoding_fault() {
    let response = ApiResponse { status: 200, body: Err("missing field `data`".to_string()) };
    assert_eq!(
        fetch_tasks(Ok(response)),
        Err(AppError::HttpError(HttpFault::Decode("missing field `data`".to_string())))
    );
}

#[test]
fn fetch_leaves_out_a_task_of_unknown_kind() {
    let response = ApiResponse { status: 200, body: Ok(vec![record("A", "quest", None)]) };
    assert_eq!(fetch_tasks(Ok(response)), Ok(Vec::new()));
    let response = ApiResponse {
        status: 200,
        body: Ok(vec![
            record("A", "todo", Some(false)),
            record("Q", "quest", Some(false)),
            record("B", "habit", None),
            record("C", "daily", Some(true)),
            record("D", "daily", None),
        ]),
    };
    assert_eq!(
        fetch_tasks(Ok(response)),
        Ok(vec![
            task("A", TaskType::Todo, Some(false)),
            task("B", TaskType::Habit, None),
            task("C", TaskType::Daily, Some(true)),
            task("D", TaskType::Daily, None),
        ])
    );
}

#[test]
fn fetch_then_pending_is_the_filter_on_the_records() {
    let records = vec![
        record("A", "todo", Some(false)),
        record("Q", "quest", Some(false)),
        record("B", "habit", None),
        record("C", "daily", Some(true)),
        record("D", "daily", None),
        record("E", "TODO", None),
    ];
    let expected: Vec<String> = records
        .iter()
        .filter(|r| (r.type_label == "daily" || r.type_label == "todo") && r.completed != Some(true))
        .map(|r| r.text.clone())
        .collect();
    let fetched = fetch_tasks(Ok(ApiResponse { status: 200, body: Ok(records) })).unwrap();
    assert_eq!(get_pending_tasks(fetched), expected);
    assert_eq!(expected, texts(&["A", "D"]));
}

#[test]
fn a_task_of_unknown_kind_does_not_fail_the_run() {
    let response = ApiResponse {
        status: 200,
        body: Ok(vec![record("A", "todo", None), record("Q", "quest", None)]),
    };
    let r = report(fetch_tasks(Ok(response)));
    assert_eq!(r.failure, None);
    assert_eq!(r.notification.body, "\n🔴 You have pending tasks 🔴:\n\nA");
}

#[test]
fn fetch_without_a_response_is_a_transport_fault() {
    assert_eq!(
        fetch_tasks(Err("connection refused".to_string())),
        Err(AppError::HttpError(HttpFault::Transport("connection refused".to_string())))
    );
}
