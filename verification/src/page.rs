//! The login page object.
//!
//! `LoginPage` exposes the page's interactions as named operations.  Each
//! operation yields a plan: the exact sequence of driver commands that an
//! unverified runner must issue, in order, against the browser-automation
//! endpoint.  Every element command is executed under the standard
//! explicit wait of `crate::wait`.  The interpreters in this module turn
//! the runner's answers (element text, presence probes, faults) back into
//! the page's verdicts and typed errors.

use vstd::prelude::*;
use vstd::string::StringExecFns;
use crate::text::{contains_seq, contains_substring};
use crate::wait::{WaitQuery, never_appears_within, probe_at};

verus! {

/// The address of the login page.
pub open spec fn login_url() -> Seq<char> {
    "http://the-internet.herokuapp.com/login"@
}

/// The phrase whose presence in the page heading marks the secure area.
pub open spec fn secure_area_phrase() -> Seq<char> {
    "Secure Area"@
}

/// The fixed set of elements the login page is interacted with.
#[derive(Clone, Copy, Debug, PartialEq, Eq, Structural)]
pub enum Locator {
    /// The username input field.
    UsernameField,
    /// The password input field.
    PasswordField,
    /// The form's submit button.
    SubmitButton,
    /// The flash banner shown after a successful login.
    SuccessBanner,
    /// The flash banner shown after a rejected login.
    ErrorBanner,
    /// The page's main heading.
    PageHeading,
    /// The logout control shown in the secure area.
    LogoutButton,
}

/// How a locator's selector string is to be matched against the DOM.
#[derive(Clone, Copy, Debug, PartialEq, Eq, Structural)]
pub enum LocateBy {
    /// Match the element id attribute.
    Id,
    /// Match a CSS selector.
    Css,
}

impl Locator {
    /// The selector string of this locator, as a character sequence.
    pub open spec fn spec_selector(self) -> Seq<char> {
        match self {
            Locator::UsernameField => "username"@,
            Locator::PasswordField => "password"@,
            Locator::SubmitButton => "button[type='submit']"@,
            Locator::SuccessBanner => ".flash.success"@,
            Locator::ErrorBanner => ".flash.error"@,
            Locator::PageHeading => "h2"@,
            Locator::LogoutButton => ".button.secondary"@,
        }
    }

    /// The matching mechanism of this locator.
    pub open spec fn spec_mechanism(self) -> LocateBy {
        match self {
            Locator::UsernameField => LocateBy::Id,
            Locator::PasswordField => LocateBy::Id,
            _ => LocateBy::Css,
        }
    }

    pub fn selector(&self) -> (s: String)
        ensures
            s@ == self.spec_selector(),
    {
        match self {
            Locator::UsernameField => "username".to_owned(),
            Locator::PasswordField => "password".to_owned(),
            Locator::SubmitButton => "button[type='submit']".to_owned(),
            Locator::SuccessBanner => ".flash.success".to_owned(),
            Locator::ErrorBanner => ".flash.error".to_owned(),
            Locator::PageHeading => "h2".to_owned(),
            Locator::LogoutButton => ".button.secondary".to_owned(),
        }
    }

    pub fn mechanism(&self) -> (m: LocateBy)
        ensures
            m == self.spec_mechanism(),
    {
        match self {
            Locator::UsernameField => LocateBy::Id,
            Locator::PasswordField => LocateBy::Id,
            _ => LocateBy::Css,
        }
    }
}

/// One command for the unverified runner to issue against the browser.
/// Every command that targets an element first resolves it under the
/// standard explicit wait.
#[derive(Debug)]
pub enum DriverCmd {
    /// Load the given address.
    Goto { url: String },
    /// Resolve the element and do nothing more: used to await its appearance.
    AwaitElement { target: Locator },
    /// Resolve the element and type the given text into it.
    SendKeys { target: Locator, text: String },
    /// Resolve the element and click it.
    Click { target: Locator },
    /// Resolve the element and clear its value.
    ClearField { target: Locator },
    /// Probe whether the element is present, under the wait, without failing.
    ProbePresent { target: Locator },
    /// Resolve the element and read its text.
    ReadText { target: Locator },
    /// Terminate the browser session.
    EndSession,
}

/// What the runner reports back for one issued command.
#[derive(Debug)]
pub enum DriverEvent {
    /// The command ran to completion with nothing to return.
    Completed,
    /// A `ReadText` command resolved its element and read this text.
    TextRead { text: String },
    /// A `ProbePresent` command answered whether the element is there.
    PresenceChecked { present: bool },
    /// The wait exhausted its timeout without resolving the element.
    NoSuchElement { detail: String },
    /// The element resolved but rejected the interaction.
    NotInteractable { detail: String },
    /// The automation driver itself failed (network loss, dead session, ...).
    Fault { detail: String },
}

/// The page operations' error taxonomy.
#[derive(Debug)]
pub enum LoginError {
    /// An explicit wait ran out without the element resolving.
    ElementNotFound(String),
    /// An element resolved but rejected the requested interaction.
    ElementNotInteractable(String),
    /// A lower-level automation-driver fault, carried as its message.
    WebDriverError(String),
    /// An operation was attempted against a state it is not defined for,
    /// such as a page that was never navigated.
    UnexpectedState(String),
}

/// Maps a runner event to the error it stands for, if any: a failed wait
/// is `ElementNotFound`, a rejected interaction `ElementNotInteractable`,
/// and a driver fault `WebDriverError`; the three success events carry no
/// error.
pub fn event_error(ev: &DriverEvent) -> (r: Option<LoginError>)
    ensures
        match ev {
            DriverEvent::Completed => r is None,
            DriverEvent::TextRead { .. } => r is None,
            DriverEvent::PresenceChecked { .. } => r is None,
            DriverEvent::NoSuchElement { detail } => r matches Some(e)
                && e matches LoginError::ElementNotFound(m) && m@ == detail@,
            DriverEvent::NotInteractable { detail } => r matches Some(e)
                && e matches LoginError::ElementNotInteractable(m) && m@ == detail@,
            DriverEvent::Fault { detail } => r matches Some(e)
                && e matches LoginError::WebDriverError(m) && m@ == detail@,
        },
{
    match ev {
        DriverEvent::Completed => None,
        DriverEvent::TextRead { .. } => None,
        DriverEvent::PresenceChecked { .. } => None,
        DriverEvent::NoSuchElement { detail } => Some(
            LoginError::ElementNotFound(detail.clone()),
        ),
        DriverEvent::NotInteractable { detail } => Some(
            LoginError::ElementNotInteractable(detail.clone()),
        ),
        DriverEvent::Fault { detail } => Some(LoginError::WebDriverError(detail.clone())),
    }
}

/// The element-wait layer of the page object: runs the standard wait over
/// a trace of presence probes and surfaces an exhausted wait as
/// `ElementNotFound`, naming the element that never resolved.
///
/// The result is `Ok` with the resolving probe's number exactly when some
/// probe within the policy's bound finds the element.
pub fn wait_for_element(q: &WaitQuery, target: Locator, probes: &Vec<bool>) -> (r: Result<
    u64,
    LoginError,
>)
    requires
        q.wf(),
    ensures
        r is Ok <==> !never_appears_within(*q, probes@),
        r matches Ok(attempt) ==> probe_at(probes@, attempt as int) && (forall|k: int|
            0 <= k < attempt ==> !probe_at(probes@, k)),
        r matches Err(e) ==> e matches LoginError::ElementNotFound(_),
{
    match crate::wait::run_wait(q, probes) {
        crate::wait::WaitResult::Resolved { attempt, elapsed_ms: _ } => Ok(attempt),
        crate::wait::WaitResult::TimedOut { elapsed_ms: _ } => {
            let message = "element not found: ".to_owned().concat(target.selector().as_str());
            Err(LoginError::ElementNotFound(message))
        }
    }
}

/// An opaque handle naming one live browser session; the runner keeps the
/// real session it stands for.
#[derive(Clone, Copy, Debug, PartialEq, Eq, Structural)]
pub struct DriverHandle {
    pub id: u64,
}

/// The page object: the login page's interactions as named operations,
/// bound to one browser session for the object's whole life.
#[derive(Clone, Copy, Debug, PartialEq, Eq, Structural)]
pub struct LoginPage {
    pub driver: DriverHandle,
}

impl LoginPage {
    pub fn new(driver: DriverHandle) -> (p: LoginPage)
        ensures
            p.driver == driver,
    {
        LoginPage { driver }
    }

    /// Load the login page, then await the username field, so the page is
    /// interactive before the operation is considered done.
    pub fn navigate(&self) -> (plan: Vec<DriverCmd>)
        ensures
            plan@.len() == 2,
            plan@[0] matches DriverCmd::Goto { url } && url@ == login_url(),
            plan@[1] == (DriverCmd::AwaitElement { target: Locator::UsernameField }),
    {
        let mut plan: Vec<DriverCmd> = Vec::new();
        plan.push(DriverCmd::Goto { url: "http://the-internet.herokuapp.com/login".to_owned() });
        plan.push(DriverCmd::AwaitElement { target: Locator::UsernameField });
        plan
    }

    /// Type the given username into the username field.
    pub fn enter_username(&self, username: &str) -> (plan: Vec<DriverCmd>)
        ensures
            plan@.len() == 1,
            plan@[0] matches DriverCmd::SendKeys { target, text } && target
                == Locator::UsernameField && text@ == username@,
    {
        let mut plan: Vec<DriverCmd> = Vec::new();
        plan.push(DriverCmd::SendKeys { target: Locator::UsernameField, text: username.to_owned() });
        plan
    }

    /// Type the given password into the password field.
    pub fn enter_password(&self, password: &str) -> (plan: Vec<DriverCmd>)
        ensures
            plan@.len() == 1,
            plan@[0] matches DriverCmd::SendKeys { target, text } && target
                == Locator::PasswordField && text@ == password@,
    {
        let mut plan: Vec<DriverCmd> = Vec::new();
        plan.push(DriverCmd::SendKeys { target: Locator::PasswordField, text: password.to_owned() });
        plan
    }

    /// Click the form's submit button; does not itself await the outcome.
    pub fn click_login_button(&self) -> (plan: Vec<DriverCmd>)
        ensures
            plan@ =~= seq![DriverCmd::Click { target: Locator::SubmitButton }],
    {
        let mut plan: Vec<DriverCmd> = Vec::new();
        plan.push(DriverCmd::Click { target: Locator::SubmitButton });
        plan
    }

    /// The probe whose answer says whether the session is logged in: the
    /// success banner's presence.  A probe never escalates to a failure.
    pub fn is_logged_in(&self) -> (probe: DriverCmd)
        ensures
            probe == (DriverCmd::ProbePresent { target: Locator::SuccessBanner }),
    {
        DriverCmd::ProbePresent { target: Locator::SuccessBanner }
    }

    /// The command that reads the error banner's text; its wait failing
    /// means no banner appeared, surfaced as `ElementNotFound`.
    pub fn get_error_message(&self) -> (cmd: DriverCmd)
        ensures
            cmd == (DriverCmd::ReadText { target: Locator::ErrorBanner }),
    {
        DriverCmd::ReadText { target: Locator::ErrorBanner }
    }

    /// The command that reads the page heading, whose text answers
    /// whether the secure area is shown.
    pub fn is_in_secure_area(&self) -> (cmd: DriverCmd)
        ensures
            cmd == (DriverCmd::ReadText { target: Locator::PageHeading }),
    {
        DriverCmd::ReadText { target: Locator::PageHeading }
    }

    /// The verdict half of `is_in_secure_area`: the heading marks the
    /// secure area exactly when it contains the phrase "Secure Area".
    pub fn secure_area_shown(&self, heading: &str) -> (r: bool)
        ensures
            r == contains_seq(heading@, secure_area_phrase()),
    {
        contains_substring(heading, "Secure Area")
    }

    /// Clear the username field's value.
    pub fn clear_username(&self) -> (plan: Vec<DriverCmd>)
        ensures
            plan@ =~= seq![DriverCmd::ClearField { target: Locator::UsernameField }],
    {
        let mut plan: Vec<DriverCmd> = Vec::new();
        plan.push(DriverCmd::ClearField { target: Locator::UsernameField });
        plan
    }

    /// Clear the password field's value.
    pub fn clear_password(&self) -> (plan: Vec<DriverCmd>)
        ensures
            plan@ =~= seq![DriverCmd::ClearField { target: Locator::PasswordField }],
    {
        let mut plan: Vec<DriverCmd> = Vec::new();
        plan.push(DriverCmd::ClearField { target: Locator::PasswordField });
        plan
    }

    /// First half of the logout state machine: probe whether the session
    /// is logged in at all.
    pub fn logout(&self) -> (probe: DriverCmd)
        ensures
            probe == (DriverCmd::ProbePresent { target: Locator::SuccessBanner }),
    {
        self.is_logged_in()
    }

    /// Second half of the logout state machine.  Logged in, the page
    /// clicks the logout control and awaits the username field, which
    /// confirms the return to the logged-out state.  Already logged out,
    /// the plan is empty: logout performs no interaction and succeeds.
    pub fn logout_continue(&self, logged_in: bool) -> (plan: Vec<DriverCmd>)
        ensures
            !logged_in ==> plan@ =~= Seq::<DriverCmd>::empty(),
            logged_in ==> plan@ =~= seq![
                DriverCmd::Click { target: Locator::LogoutButton },
                DriverCmd::AwaitElement { target: Locator::UsernameField },
            ],
    {
        let mut plan: Vec<DriverCmd> = Vec::new();
        if logged_in {
            plan.push(DriverCmd::Click { target: Locator::LogoutButton });
            plan.push(DriverCmd::AwaitElement { target: Locator::UsernameField });
        }
        plan
    }

    /// Terminate the underlying browser session; the page object is
    /// consumed and unusable afterwards.
    pub fn quit(self) -> (cmd: DriverCmd)
        ensures
            cmd == DriverCmd::EndSession,
    {
        DriverCmd::EndSession
    }
}

} // verus!
