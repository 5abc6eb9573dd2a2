//! The desktop notification: the command that shows it, and what its run
//! came to.

use vstd::prelude::*;
use crate::errors::AppError;

verus! {

/// The program that shows a notification on the desktop.
pub const NOTIFY_PROGRAM: &'static str = "notify-send";

/// A command to run: the program and its arguments, in order.
#[derive(Debug, PartialEq, Eq)]
pub struct NotifyCommand {
    pub program: String,
    pub args: Vec<String>,
}

/// The command that shows a notification with this title and message.
pub fn notify_command(title: &str, message: &str) -> (command: NotifyCommand)
    ensures
        command.program@ == NOTIFY_PROGRAM@,
        command.args@.len() == 2,
        command.args@[0]@ == title@,
        command.args@[1]@ == message@,
{
    let mut args: Vec<String> = Vec::new();
    args.push(String::from_str(title));
    args.push(String::from_str(message));
    NotifyCommand { program: String::from_str(NOTIFY_PROGRAM), args }
}

/// What the failure of a notification says, if `ran` is one. `ran` is
/// `Err` with the system's account where the command could not be started,
/// else whether it ended in success.
pub open spec fn notify_fault(ran: Result<bool, String>) -> Option<Seq<char>> {
    match ran {
        Ok(true) => None,
        Ok(false) => Some("Failed to send notification"@),
        Err(cause) => Some("Failed to send notification: "@ + cause@),
    }
}

/// Whether the notification was sent. `ran` is what running the command
/// of `notify_command` came to: `Err` with the system's account where it
/// could not be started, else whether it ended in success.
pub fn notify(ran: Result<bool, String>) -> (r: Result<(), AppError>)
    ensures
        match notify_fault(ran) {
            None => r == Ok::<(), AppError>(()),
            Some(text) => r matches Err(AppError::NotificationError(detail)) && detail@ == text,
        },
{
    match ran {
        Ok(true) => Ok(()),
        Ok(false) => Err(
            AppError::NotificationError(String::from_str("Failed to send notification")),
        ),
        Err(cause) => {
            let mut detail = String::from_str("Failed to send notification: ");
            detail.append(cause.as_str());
            Err(AppError::NotificationError(detail))
        },
    }
}

} // verus!
