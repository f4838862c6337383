//! Restarting Steam: the states the restart goes through.
use vstd::prelude::*;
use vstd::string::*;

verus! {

/// Where a restart of Steam stands.
#[derive(Debug, Clone, PartialEq, Eq)]
pub enum RestartStatus {
    Closing,
    Starting,
    Success,
    Error(String),
}

/// The state after closing Steam failed with `message`: a close that needs the
/// user's hand reads as an automatic close that failed.
pub fn close_failure_status(message: &str) -> (r: RestartStatus)
    ensures
        r matches RestartStatus::Error(m) && m@ == (if crate::text::contains_text(message@, "MANUAL_OPERATION_REQUIRED"@) {
            "自动关闭失败"@
        } else {
            message@
        }),
{
    if crate::text::str_contains(message, "MANUAL_OPERATION_REQUIRED") {
        RestartStatus::Error(String::from_str("自动关闭失败"))
    } else {
        RestartStatus::Error(String::from_str(message))
    }
}

/// The state after starting Steam failed with `message`.
pub fn start_failure_status(message: &str) -> (r: RestartStatus)
    ensures
        r matches RestartStatus::Error(m) && m@ == message@,
{
    RestartStatus::Error(String::from_str(message))
}

/// The states a restart reports, in order, given how closing and starting
/// went (`None`: it worked; `Some(m)`: it failed with message `m`). Starting
/// is not tried when closing failed.
pub fn restart_statuses(close_error: Option<&str>, start_error: Option<&str>) -> (r: Vec<RestartStatus>)
    ensures
        r@.len() >= 2,
        r@[0] == RestartStatus::Closing,
        close_error is Some ==> r@.len() == 2 && r@[1] is Error,
        close_error is None ==> r@.len() == 3 && r@[1] == RestartStatus::Starting && (match start_error {
            Some(m) => r@[2] matches RestartStatus::Error(e) && e@ == m@,
            None => r@[2] == RestartStatus::Success,
        }),
{
    let mut v: Vec<RestartStatus> = Vec::new();
    v.push(RestartStatus::Closing);
    match close_error {
        Some(m) => {
            v.push(close_failure_status(m));
            return v;
        },
        None => {},
    }
    v.push(RestartStatus::Starting);
    match start_error {
        Some(m) => v.push(start_failure_status(m)),
        None => v.push(RestartStatus::Success),
    }
    v
}

} // verus!
