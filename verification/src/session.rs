//! The scenario session lifecycle.
//!
//! A `ScenarioSession` owns one browser session and one page object for
//! the duration of a scenario.  Cleanup runs at the start of the *next*
//! scenario's setup, not at the end of the current one: `begin_setup`
//! unconditionally empties every slot and hands back whatever page object
//! the previous scenario left behind, so the runner can tear it down
//! best-effort before the fresh session starts.

use vstd::prelude::*;
use crate::page::{DriverCmd, DriverHandle, Locator, LoginError, LoginPage};

verus! {

/// The mutable state a scenario runs against: the live session's handle,
/// the page object bound to it, and the last captured error banner text.
#[derive(Debug)]
pub struct ScenarioSession {
    pub active_driver: Option<DriverHandle>,
    pub active_page: Option<LoginPage>,
    pub last_captured_error: Option<String>,
}

impl ScenarioSession {
    /// All three state slots are empty.
    pub open spec fn slots_empty(self) -> bool {
        &&& self.active_driver is None
        &&& self.active_page is None
        &&& self.last_captured_error is None
    }

    /// A page object is held only while a driver is: the page never
    /// outlives the session it is bound to.
    pub open spec fn wf(self) -> bool {
        self.active_page is Some ==> self.active_driver is Some
    }

    /// The session is ready for page steps: setup has installed a
    /// navigated page object.
    pub open spec fn ready(self) -> bool {
        self.active_page is Some
    }

    /// A fresh session: every slot empty, no scenario run yet.
    pub fn new() -> (s: ScenarioSession)
        ensures
            s.slots_empty(),
            s.wf(),
    {
        ScenarioSession { active_driver: None, active_page: None, last_captured_error: None }
    }

    /// Start of a scenario's setup.  Whatever state the previous scenario
    /// left — a live page, a half-run step, a captured error — every slot
    /// is empty when this returns, and the previously held page object,
    /// if any, is handed back for best-effort teardown.
    pub fn begin_setup(&mut self) -> (prev: Option<LoginPage>)
        ensures
            final(self).slots_empty(),
            final(self).wf(),
            prev == old(self).active_page,
    {
        let prev = self.active_page.take();
        self.active_driver = None;
        self.last_captured_error = None;
        prev
    }

    /// End of a successful setup: a new session was started, a page
    /// object was bound to it, and its `navigate` ran to completion; both
    /// are installed and the session is ready for page steps.  A setup
    /// that fails before this point installs nothing: `begin_setup`
    /// already left every slot empty.
    pub fn complete_setup(&mut self, driver: DriverHandle, page: LoginPage)
        requires
            old(self).slots_empty(),
        ensures
            final(self).active_driver == Some(driver),
            final(self).active_page == Some(page),
            final(self).last_captured_error is None,
            final(self).ready(),
            final(self).wf(),
    {
        self.active_driver = Some(driver);
        self.active_page = Some(page);
    }

    /// A verification step captured the error banner's text.
    pub fn record_error(&mut self, message: String)
        ensures
            final(self).last_captured_error matches Some(m) && m@ == message@,
            final(self).active_driver == old(self).active_driver,
            final(self).active_page == old(self).active_page,
    {
        self.last_captured_error = Some(message);
    }

    /// The error banner text captured by the last verification step, if any.
    pub fn captured_error(&self) -> (r: &Option<String>)
        ensures
            r == &self.last_captured_error,
    {
        &self.last_captured_error
    }

    /// Hands a page step the current page object, or rejects it with
    /// `UnexpectedState` when no setup has installed one: acting on a
    /// page never navigated is an invariant violation, not a wait
    /// failure.
    pub fn page_for_step(&self) -> (r: Result<&LoginPage, LoginError>)
        ensures
            r is Ok <==> self.ready(),
            r matches Ok(p) ==> self.active_page == Some(*p),
            r matches Err(e) ==> e matches LoginError::UnexpectedState(_),
    {
        match &self.active_page {
            Some(page) => Ok(page),
            None => Err(
                LoginError::UnexpectedState("no active page: scenario setup has not run".to_owned()),
            ),
        }
    }
}

/// The best-effort teardown of a previous scenario's page: log out if the
/// probe found the session logged in, clear both credential fields, and
/// end the browser session.  The runner swallows each command's failure —
/// cleanup must not fail the new scenario.
pub fn cleanup_plan(page: LoginPage, logged_in: bool) -> (plan: Vec<DriverCmd>)
    ensures
        logged_in ==> plan@ =~= seq![
            DriverCmd::Click { target: Locator::LogoutButton },
            DriverCmd::AwaitElement { target: Locator::UsernameField },
            DriverCmd::ClearField { target: Locator::UsernameField },
            DriverCmd::ClearField { target: Locator::PasswordField },
            DriverCmd::EndSession,
        ],
        !logged_in ==> plan@ =~= seq![
            DriverCmd::ClearField { target: Locator::UsernameField },
            DriverCmd::ClearField { target: Locator::PasswordField },
            DriverCmd::EndSession,
        ],
{
    let mut plan = page.logout_continue(logged_in);
    let mut clear_u = page.clear_username();
    let mut clear_p = page.clear_password();
    plan.append(&mut clear_u);
    plan.append(&mut clear_p);
    let end = page.quit();
    plan.push(end);
    plan
}

/// Law: however the previous scenario ended, once `begin_setup` has run,
/// every state slot is empty, and a session whose setup then completes
/// holds an active page — so a page step dispatched against it is never
/// rejected for a missing page.
pub proof fn lemma_setup_protocol(cleared: ScenarioSession, completed: ScenarioSession)
    requires
        cleared.slots_empty(),
        completed.active_page is Some,
        completed.active_driver is Some,
    ensures
        cleared.active_driver is None && cleared.active_page is None
            && cleared.last_captured_error is None,
        completed.ready(),
        completed.wf(),
{
}

} // verus!
