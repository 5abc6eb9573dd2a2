//! The three operations, step by step.
//!
//! Each operation alternates between work on the outside (the terminal,
//! the disk, the network, the desktop) and decisions. The decisions are
//! the functions of this module: each takes what the outside gave and says
//! what is to be done next. None of them reads, writes or sends anything.
//!
//! A run goes through `run`, `report` and `finish`, in this order.
//! When the tasks cannot be fetched, the user is told by a notification
//! and the run then ends with exit code 1. A notification that cannot be
//! shown is reported on the terminal and changes no exit code.

use vstd::prelude::*;
use crate::auth::{
    clean_credentials,
    cleans,
    file_after_save,
    lemma_save_then_load,
    load_credentials,
    loaded,
    save_credentials,
    saves,
    CleanPlan,
    SavePlan,
};
use crate::errors::CredentialsFault;
use crate::errors::AppError;
use crate::notifications::{notify, notify_fault};
use crate::tasks::{
    get_pending_tasks,
    is_task_request,
    pending_texts,
    task_request,
    ApiRequest,
    Task,
};
use crate::text::{
    is_one_line,
    join,
    join_lines,
    lemma_trimmed_line,
    text_of_str,
    trim,
    trimmed,
};

verus! {

/// The title of every notification.
pub const TITLE: &'static str = "Habix Reminder - Habitica";

/// The notification for a run that found nothing pending.
pub const ALL_CAUGHT_UP: &'static str = "✅ You're all caught up! ✅";

/// What stands above the pending tasks in a notification.
pub const PENDING_HEADER: &'static str = "\n🔴 You have pending tasks 🔴:\n\n";

/// What a run says when it finds no usable credentials.
pub const SETUP_GUIDANCE: &'static str =
    "❌ Error: API keys file not found or invalid. Please run 'habix setup' to configure your credentials.";

/// What an error line on the terminal starts with.
pub const ERROR_PREFIX: &'static str = "❌ Error: ";

/// How a run goes on once it has looked for the credentials.
#[derive(Debug, PartialEq, Eq)]
pub enum RunStep {
    /// There are no usable credentials: show `message` and end as `end`
    /// says. Nothing is sent.
    Guide { message: String, end: Finish },
    /// Send `request`.
    Fetch { request: ApiRequest },
}

/// What a notification shows.
#[derive(Debug, PartialEq, Eq)]
pub struct Notification {
    pub title: String,
    pub body: String,
}

/// What a run has to tell once the request is over: the notification to
/// show, and the error that the run ends with, if it failed.
#[derive(Debug, PartialEq, Eq)]
pub struct Report {
    pub notification: Notification,
    pub failure: Option<AppError>,
}

/// How an operation ends: the exit code of the process, and the lines to
/// write to the error stream before it exits.
#[derive(Debug, PartialEq, Eq)]
pub struct Finish {
    pub exit_code: i32,
    pub errors: Vec<String>,
}

/// The body of the notification for these pending texts: the fixed
/// message where there are none, else the header and below it the texts,
/// one to a line, in their order.
pub open spec fn rendered(pending: Seq<Seq<char>>) -> Seq<char> {
    if pending.len() == 0 {
        ALL_CAUGHT_UP@
    } else {
        PENDING_HEADER@ + join_lines(pending)
    }
}

/// The line that reports `e` on the terminal.
pub open spec fn error_line(e: AppError) -> Seq<char> {
    ERROR_PREFIX@ + e.text()
}

/// The lines that a run writes to the error stream: one for the error it
/// failed with, if any, then one for the notification that could not be
/// shown, if it could not.
pub open spec fn error_lines(failure: Option<AppError>, ran: Result<bool, String>) -> Seq<Seq<char>> {
    let first = match failure {
        Some(e) => seq![error_line(e)],
        None => Seq::empty(),
    };
    let second = match notify_fault(ran) {
        Some(text) => seq![ERROR_PREFIX@ + ("Notification error: "@ + text)],
        None => Seq::empty(),
    };
    first + second
}

/// The guidance cannot be taken for the message of a run that found
/// nothing pending.
pub proof fn lemma_guidance_is_not_all_caught_up()
    ensures
        SETUP_GUIDANCE@ != ALL_CAUGHT_UP@,
{
    reveal_strlit(
        "❌ Error: API keys file not found or invalid. Please run 'habix setup' to configure your credentials.",
    );
    reveal_strlit("✅ You're all caught up! ✅");
    assert(SETUP_GUIDANCE@[0] == '❌');
    assert(ALL_CAUGHT_UP@[0] == '✅');
}

/// The body of the notification for these pending texts.
pub fn render(pending: &Vec<String>) -> (body: String)
    ensures
        body@ == rendered(pending.deep_view()),
{
    if pending.len() == 0 {
        String::from_str(ALL_CAUGHT_UP)
    } else {
        let mut body = String::from_str(PENDING_HEADER);
        let list = join(pending);
        body.append(list.as_str());
        body
    }
}

/// The line that reports `e` on the terminal.
pub fn report_error(e: &AppError) -> (line: String)
    ensures
        line@ == error_line(*e),
{
    let mut line = String::from_str(ERROR_PREFIX);
    let text = e.message();
    line.append(text.as_str());
    line
}

/// Setup, once both answers are in: what is to be done on disk to store
/// them. `user_line` and `token_line` are the two lines as they were typed;
/// the white space around each, the line end included, is no part of the
/// value.
pub fn setup(home: Option<&str>, user_line: &str, token_line: &str) -> (r: Result<
    SavePlan,
    AppError,
>)
    ensures
        saves(text_of_str(home), trimmed(user_line@), trimmed(token_line@), r),
{
    let user_id = trim(user_line);
    let api_token = trim(token_line);
    save_credentials(home, user_id.as_str(), api_token.as_str())
}

/// After setup, loading gives both answers, trimmed. This holds of every
/// two lines as they are read from a terminal, where a line feed stands
/// at the end of a line or nowhere.
pub proof fn lemma_setup_then_load(user_line: Seq<char>, token_line: Seq<char>)
    requires
        is_one_line(user_line),
        is_one_line(token_line),
    ensures
        loaded(file_after_save(trimmed(user_line), trimmed(token_line))) == Ok::<
            (Seq<char>, Seq<char>),
            CredentialsFault,
        >((trimmed(user_line), trimmed(token_line))),
{
    lemma_trimmed_line(user_line);
    lemma_trimmed_line(token_line);
    lemma_save_then_load(trimmed(user_line), trimmed(token_line));
}

/// Cleaning: what is to be done on disk. `home` and `exists` are as for
/// `clean_credentials`.
pub fn clean(home: Option<&str>, exists: bool) -> (r: Result<CleanPlan, AppError>)
    ensures
        cleans(text_of_str(home), exists, r),
{
    clean_credentials(home, exists)
}

/// The first step of a run. `home` and `file` are as for
/// `load_credentials`.
///
/// Without usable credentials, whatever the reason, the run ends here with
/// the guidance and exit code 0, and no request is made. With them, the
/// request for the tasks of that account is next.
pub fn run(home: Option<&str>, file: Option<&str>) -> (step: RunStep)
    ensures
        match (home, loaded(text_of_str(file))) {
            (Some(_), Ok(pair)) => step matches RunStep::Fetch { request } && is_task_request(
                request,
                pair.0,
                pair.1,
            ),
            _ => step matches RunStep::Guide { message, end } && message@ == SETUP_GUIDANCE@
                && end.exit_code == 0 && end.errors@.len() == 0,
        },
{
    match load_credentials(home, file) {
        Ok(credentials) => RunStep::Fetch {
            request: task_request(credentials.user_id.as_str(), credentials.api_token.as_str()),
        },
        Err(_) => RunStep::Guide {
            message: String::from_str(SETUP_GUIDANCE),
            end: Finish { exit_code: 0, errors: Vec::new() },
        },
    }
}

/// The second step of a run: what to show once the request is over.
/// `fetched` is what `fetch_tasks` made of it.
///
/// Tasks give the notification of those that are pending, or the one that
/// says there are none. An error gives a notification that carries its
/// message, and stays with the run as the reason of its failure.
pub fn report(fetched: Result<Vec<Task>, AppError>) -> (r: Report)
    ensures
        r.notification.title@ == TITLE@,
        match fetched {
            Ok(tasks) => r.failure is None && r.notification.body@ == rendered(
                pending_texts(tasks.deep_view()),
            ),
            Err(e) => r.failure == Some(e) && r.notification.body@ == e.text(),
        },
{
    match fetched {
        Ok(tasks) => {
            let pending = get_pending_tasks(tasks);
            let body = render(&pending);
            Report { notification: Notification { title: String::from_str(TITLE), body }, failure: None }
        },
        Err(e) => {
            let body = e.message();
            Report {
                notification: Notification { title: String::from_str(TITLE), body },
                failure: Some(e),
            }
        },
    }
}

/// The last step of a run. `failure` is the error that the report carried,
/// and `ran` is what running the notification command came to, as for
/// `notify`.
///
/// The exit code is 1 where the run failed and 0 where it did not; a
/// notification that could not be shown does not change it.
pub fn finish(failure: Option<AppError>, ran: Result<bool, String>) -> (end: Finish)
    ensures
        end.exit_code == (if failure is Some { 1i32 } else { 0i32 }),
        end.errors.deep_view() == error_lines(failure, ran),
{
    let mut errors: Vec<String> = Vec::new();
    let exit_code: i32 = match &failure {
        Some(e) => {
            errors.push(report_error(e));
            1
        },
        None => 0,
    };
    let ghost first = errors.deep_view();
    match notify(ran) {
        Ok(()) => {},
        Err(e) => {
            errors.push(report_error(&e));
            assert(errors.deep_view() =~= first.push(error_line(e)));
        },
    }
    assert(errors.deep_view() =~= error_lines(failure, ran));
    Finish { exit_code, errors }
}

/// How setup or cleaning ends. `result` is what the operation came to:
/// nothing to say where all went well, else the error of the library or of
/// the disk that stopped it.
///
/// Success is exit code 0 and no line; an error is exit code 1 and the
/// line that reports it.
pub fn conclude(result: Result<(), AppError>) -> (end: Finish)
    ensures
        match result {
            Ok(_) => end.exit_code == 0 && end.errors.deep_view() == Seq::<Seq<char>>::empty(),
            Err(e) => end.exit_code == 1 && end.errors.deep_view() == seq![error_line(e)],
        },
{
    let mut errors: Vec<String> = Vec::new();
    match result {
        Ok(_) => {
            assert(errors.deep_view() =~= Seq::<Seq<char>>::empty());
            Finish { exit_code: 0, errors }
        },
        Err(e) => {
            errors.push(report_error(&e));
            assert(errors.deep_view() =~= seq![error_line(e)]);
            Finish { exit_code: 1, errors }
        },
    }
}

} // verus!
