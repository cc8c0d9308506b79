//! Step bindings: the scenario vocabulary and the verdicts of its
//! verification steps.
//!
//! Each phrase of the scenario vocabulary is one `Step`.  Action steps
//! resolve to a page operation's plan; verification steps resolve to one
//! of the checks below, which turn a captured value into a `StepVerdict`
//! so the scenario runner can record the failure instead of aborting the
//! process.

use vstd::prelude::*;
use crate::page::secure_area_phrase;
use crate::text::{contains_seq, contains_substring};

verus! {

/// The scenario step vocabulary, one variant per phrase.
#[derive(Debug)]
pub enum Step {
    /// "I am on the login page"
    OnLoginPage,
    /// "I enter username \<text\>"
    EnterUsername(String),
    /// "I enter password \<text\>"
    EnterPassword(String),
    /// "I click the login button"
    ClickLoginButton,
    /// "I should see an error message"
    SeeErrorMessage,
    /// "the error message should contain \<text\>"
    ErrorMessageContains(String),
    /// "I should be logged in successfully"
    LoggedInSuccessfully,
    /// "I should see the secure area"
    SeeSecureArea,
}

/// The outcome of one verification step: passed, or failed with the
/// reason the scenario report carries.
#[derive(Debug)]
pub enum StepVerdict {
    Passed,
    Failed(String),
}

/// "the error message should contain ...": passes exactly when an error
/// message was captured and it contains the expected text; a missing
/// capture is itself a failure.
pub fn check_error_contains(captured: &Option<String>, expected: &str) -> (v: StepVerdict)
    ensures
        v is Passed <==> (captured matches Some(m) && contains_seq(m@, expected@)),
{
    match captured {
        None => StepVerdict::Failed("no error message was captured".to_owned()),
        Some(message) => {
            if contains_substring(message.as_str(), expected) {
                StepVerdict::Passed
            } else {
                StepVerdict::Failed("error message does not contain the expected text".to_owned())
            }
        }
    }
}

/// "I should be logged in successfully": passes exactly when the success
/// banner's presence probe answered true.
pub fn check_logged_in(logged_in: bool) -> (v: StepVerdict)
    ensures
        v is Passed <==> logged_in,
{
    if logged_in {
        StepVerdict::Passed
    } else {
        StepVerdict::Failed("expected to be logged in, but the success banner is absent".to_owned())
    }
}

/// "I should see the secure area": passes exactly when the page heading
/// contains the phrase "Secure Area".
pub fn check_secure_area(heading: &str) -> (v: StepVerdict)
    ensures
        v is Passed <==> contains_seq(heading@, secure_area_phrase()),
{
    if contains_substring(heading, "Secure Area") {
        StepVerdict::Passed
    } else {
        StepVerdict::Failed("expected the secure area, but the heading does not show it".to_owned())
    }
}

} // verus!
