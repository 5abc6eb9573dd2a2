use habix::auth::{clean_credentials, load_credentials, Credentials};
use habix::errors::{AppError, CredentialsFault, HttpFault};
use habix::session::{
    clean, conclude, finish, render, report, report_error, run, setup, Finish, RunStep,
    ALL_CAUGHT_UP,
    ERROR_PREFIX, PENDING_HEADER, SETUP_GUIDANCE, TITLE,
};
use habix::tasks::{fetch_tasks, task_request, ApiResponse, Task, TaskType};

const GOOD_FILE: &str = "HABITICA_USER_ID=1234-abcd\nHABITICA_API_TOKEN=s3cr3t\n";

fn guide() -> RunStep {
    RunStep::Guide {
        message: SETUP_GUIDANCE.to_string(),
        end: Finish { exit_code: 0, errors: Vec::new() },
    }
}

fn todo(text: &str) -> Task {
    Task { text: text.to_string(), task_type: TaskType::Todo, completed: Some(false) }
}

#[test]
fn the_fixed_texts() {
    assert_eq!(TITLE, "Habix Reminder - Habitica");
    assert_eq!(ALL_CAUGHT_UP, "✅ You're all caught up! ✅");
    assert_eq!(PENDING_HEADER, "\n🔴 You have pending tasks 🔴:\n\n");
    assert_eq!(ERROR_PREFIX, "❌ Error: ");
    assert_eq!(
        SETUP_GUIDANCE,
        "❌ Error: API keys file not found or invalid. Please run 'habix setup' to configure your credentials."
    );
}

#[test]
fn render_of_nothing_is_all_caught_up() {
    let body = render(&Vec::new());
    assert_eq!(body, "✅ You're all caught up! ✅");
    assert!(!body.contains("pending"));
}

#[test]
fn render_lists_the_texts_below_the_header() {
    let pending = vec!["Water plants".to_string(), "Call mum".to_string()];
    assert_eq!(render(&pending), "\n🔴 You have pending tasks 🔴:\n\nWater plants\nCall mum");
    assert_eq!(render(&vec!["one".to_string()]), "\n🔴 You have pending tasks 🔴:\n\none");
}

#[test]
fn setup_trims_both_answers() {
    let plan = setup(Some("/home/u"), "  1234-abcd \n", "s3cr3t\r\n").unwrap();
    assert_eq!(plan.content, "HABITICA_USER_ID=1234-abcd\nHABITICA_API_TOKEN=s3cr3t\n");
    assert_eq!(plan.directory, "/home/u/Habix-API-Keys");
    assert_eq!(plan.file, "/home/u/Habix-API-Keys/habix-api-keys.txt");
    assert_eq!(
        plan.notice,
        "✅ Setup complete! Credentials saved at: /home/u/Habix-API-Keys/habix-api-keys.txt"
    );
}

#[test]
fn setup_stores_empty_answers_as_they_are() {
    let plan = setup(Some("/home/u"), "\n", "\n").unwrap();
    assert_eq!(plan.content, "HABITICA_USER_ID=\nHABITICA_API_TOKEN=\n");
}

#[test]
fn setup_without_a_home_directory_fails() {
    assert_eq!(
        setup(None, "a\n", "b\n"),
        Err(AppError::CredentialsError(CredentialsFault::HomeUnknown))
    );
}

#[test]
fn setup_then_run_asks_with_what_was_typed() {
    let plan = setup(Some("/home/u"), "1234-abcd\n", " s3cr3t\n").unwrap();
    assert_eq!(
        run(Some("/home/u"), Some(plan.content.as_str())),
        RunStep::Fetch { request: task_request("1234-abcd", "s3cr3t") }
    );
}

#[test]
fn run_without_a_credentials_file_guides_and_sends_nothing() {
    assert_eq!(run(Some("/home/u"), None), guide());
}

#[test]
fn run_without_a_home_directory_guides() {
    assert_eq!(run(None, None), guide());
    assert_eq!(run(None, Some(GOOD_FILE)), guide());
}

#[test]
fn run_on_a_malformed_file_guides() {
    assert_eq!(run(Some("/home/u"), Some("HABITICA_USER_ID=1234-abcd\n")), guide());
    assert_eq!(run(Some("/home/u"), Some("")), guide());
}

#[test]
fn run_with_credentials_asks_for_the_tasks() {
    assert_eq!(
        run(Some("/home/u"), Some(GOOD_FILE)),
        RunStep::Fetch { request: task_request("1234-abcd", "s3cr3t") }
    );
}

#[test]
fn guidance_differs_from_all_caught_up() {
    assert_ne!(SETUP_GUIDANCE, ALL_CAUGHT_UP);
    assert!(SETUP_GUIDANCE.contains("habix setup"));
}

#[test]
fn report_of_no_tasks_is_all_caught_up() {
    let r = report(Ok(Vec::new()));
    assert_eq!(r.notification.title, "Habix Reminder - Habitica");
    assert_eq!(r.notification.body, "✅ You're all caught up! ✅");
    assert_eq!(r.failure, None);
}

#[test]
fn report_of_tasks_lists_the_pending_ones() {
    let tasks = vec![
        todo("A"),
        Task { text: "B".to_string(), task_type: TaskType::Habit, completed: None },
        Task { text: "C".to_string(), task_type: TaskType::Daily, completed: Some(true) },
        todo("D"),
    ];
    let r = report(Ok(tasks));
    assert_eq!(r.notification.title, "Habix Reminder - Habitica");
    assert_eq!(r.notification.body, "\n🔴 You have pending tasks 🔴:\n\nA\nD");
    assert_eq!(r.failure, None);
}

#[test]
fn report_of_finished_tasks_only_is_all_caught_up() {
    let tasks = vec![Task { text: "C".to_string(), task_type: TaskType::Daily, completed: Some(true) }];
    assert_eq!(report(Ok(tasks)).notification.body, "✅ You're all caught up! ✅");
}

#[test]
fn status_401_is_notified_and_ends_the_run_with_failure() {
    let response = ApiResponse { status: 401, body: Err(String::new()) };
    let fetched = fetch_tasks(Ok(response));
    assert_eq!(fetched, Err(AppError::FetchTasksError(401)));
    let r = report(fetched);
    assert_eq!(r.notification.title, "Habix Reminder - Habitica");
    assert_eq!(
        r.notification.body,
        "Failed to fetch tasks: API returned status: 401 Unauthorized"
    );
    assert_eq!(r.failure, Some(AppError::FetchTasksError(401)));
    let end = finish(r.failure, Ok(true));
    assert_eq!(end.exit_code, 1);
    assert_eq!(
        end.errors,
        vec!["❌ Error: Failed to fetch tasks: API returned status: 401 Unauthorized".to_string()]
    );
}

#[test]
fn report_of_a_transport_fault_carries_its_message() {
    let r = report(fetch_tasks(Err("dns error".to_string())));
    assert_eq!(r.notification.body, "HTTP error: dns error");
    assert_eq!(r.failure, Some(AppError::HttpError(HttpFault::Transport("dns error".to_string()))));
}

#[test]
fn report_of_a_decoding_fault_carries_its_message() {
    let response = ApiResponse { status: 200, body: Err("missing field `data`".to_string()) };
    let r = report(fetch_tasks(Ok(response)));
    assert_eq!(r.notification.body, "HTTP error: missing field `data`");
    assert_eq!(
        r.failure,
        Some(AppError::HttpError(HttpFault::Decode("missing field `data`".to_string())))
    );
    assert_eq!(finish(r.failure, Ok(true)).exit_code, 1);
}

#[test]
fn setup_then_load_gives_both_trimmed_answers() {
    let plan = setup(Some("/home/u"), " HABITICA_USER_ID=u1 \r\n", "\tt 1\n").unwrap();
    assert_eq!(
        load_credentials(Some("/home/u"), Some(plan.content.as_str())),
        Ok(Credentials { user_id: "HABITICA_USER_ID=u1".to_string(), api_token: "t 1".to_string() })
    );
}

#[test]
fn finish_of_a_good_run_is_exit_code_zero() {
    assert_eq!(finish(None, Ok(true)), Finish { exit_code: 0, errors: Vec::new() });
}

#[test]
fn a_notification_that_fails_is_logged_and_not_fatal() {
    assert_eq!(
        finish(None, Ok(false)),
        Finish {
            exit_code: 0,
            errors: vec!["❌ Error: Notification error: Failed to send notification".to_string()],
        }
    );
    assert_eq!(
        finish(None, Err("not found".to_string())),
        Finish {
            exit_code: 0,
            errors: vec![
                "❌ Error: Notification error: Failed to send notification: not found".to_string()
            ],
        }
    );
}

#[test]
fn finish_reports_the_failure_before_the_notification() {
    assert_eq!(
        finish(Some(AppError::FetchTasksError(500)), Ok(false)),
        Finish {
            exit_code: 1,
            errors: vec![
                "❌ Error: Failed to fetch tasks: API returned status: 500 Internal Server Error"
                    .to_string(),
                "❌ Error: Notification error: Failed to send notification".to_string(),
            ],
        }
    );
}

#[test]
fn an_operation_that_failed_ends_with_exit_code_one_and_the_error_line() {
    assert_eq!(
        conclude(Err(AppError::IoError("disk full".to_string()))),
        Finish { exit_code: 1, errors: vec!["❌ Error: IO error: disk full".to_string()] }
    );
    assert_eq!(
        conclude(Err(AppError::CredentialsError(CredentialsFault::HomeUnknown))),
        Finish {
            exit_code: 1,
            errors: vec![
                "❌ Error: Failed to save credentials: Could not determine home directory"
                    .to_string()
            ],
        }
    );
}

#[test]
fn an_operation_that_went_well_ends_with_exit_code_zero() {
    assert_eq!(conclude(Ok(())), Finish { exit_code: 0, errors: Vec::new() });
}

#[test]
fn report_error_puts_the_prefix_before_the_message() {
    assert_eq!(
        report_error(&AppError::CredentialsError(CredentialsFault::HomeUnknown)),
        "❌ Error: Failed to save credentials: Could not determine home directory"
    );
}

#[test]
fn clean_is_what_the_store_plans() {
    assert_eq!(clean(Some("/home/u"), true), clean_credentials(Some("/home/u"), true));
    assert_eq!(clean(Some("/home/u"), false), clean_credentials(Some("/home/u"), false));
    assert_eq!(clean(None, true), Err(AppError::CredentialsError(CredentialsFault::HomeUnknown)));
    let plan = clean(Some("/home/u"), true).unwrap();
    assert!(plan.remove);
    assert_eq!(plan.file, "/home/u/Habix-API-Keys/habix-api-keys.txt");
}
