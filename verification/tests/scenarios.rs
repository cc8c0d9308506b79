//! Whole scenarios driven against a simulated browser.  The simulation
//! executes the library's driver commands the way the real login page
//! behaves: `tomsmith` / `SuperSecretPassword!` logs in, anything else
//! raises the invalid-username banner.

use login_harness::page::{
    DriverCmd, DriverEvent, DriverHandle, Locator, LoginError, LoginPage, event_error,
};
use login_harness::session::{ScenarioSession, cleanup_plan};
use login_harness::steps::{StepVerdict, check_error_contains, check_logged_in, check_secure_area};

struct FakeBrowser {
    alive: bool,
    at_login_form: bool,
    logged_in: bool,
    username: String,
    password: String,
    error_banner: Option<String>,
}

impl FakeBrowser {
    fn start() -> FakeBrowser {
        FakeBrowser {
            alive: true,
            at_login_form: false,
            logged_in: false,
            username: String::new(),
            password: String::new(),
            error_banner: None,
        }
    }

    fn element_present(&self, target: &Locator) -> bool {
        match target {
            Locator::UsernameField | Locator::PasswordField | Locator::SubmitButton => {
                self.at_login_form
            }
            Locator::SuccessBanner => self.logged_in,
            Locator::ErrorBanner => self.error_banner.is_some(),
            Locator::PageHeading => self.at_login_form || self.logged_in,
            Locator::LogoutButton => self.logged_in,
        }
    }

    fn heading(&self) -> String {
        if self.logged_in {
            " Secure Area".to_string()
        } else {
            "Login Page".to_string()
        }
    }

    fn submit(&mut self) {
        if self.username == "tomsmith" && self.password == "SuperSecretPassword!" {
            self.logged_in = true;
            self.at_login_form = false;
            self.error_banner = None;
        } else {
            self.error_banner = Some("Your username is invalid!".to_string());
        }
    }

    fn exec(&mut self, cmd: &DriverCmd) -> DriverEvent {
        if !self.alive {
            return DriverEvent::Fault {
                detail: "browser session is closed".to_string(),
            };
        }
        match cmd {
            DriverCmd::Goto { url } => {
                if url == "http://the-internet.herokuapp.com/login" {
                    self.at_login_form = true;
                    self.logged_in = false;
                    self.username.clear();
                    self.password.clear();
                    self.error_banner = None;
                    DriverEvent::Completed
                } else {
                    DriverEvent::Fault {
                        detail: format!("unknown address: {url}"),
                    }
                }
            }
            DriverCmd::AwaitElement { target } => {
                if self.element_present(target) {
                    DriverEvent::Completed
                } else {
                    DriverEvent::NoSuchElement {
                        detail: target.selector(),
                    }
                }
            }
            DriverCmd::SendKeys { target, text } => {
                if !self.element_present(target) {
                    return DriverEvent::NoSuchElement {
                        detail: target.selector(),
                    };
                }
                match target {
                    Locator::UsernameField => self.username.push_str(text),
                    Locator::PasswordField => self.password.push_str(text),
                    _ => {
                        return DriverEvent::NotInteractable {
                            detail: target.selector(),
                        }
                    }
                }
                DriverEvent::Completed
            }
            DriverCmd::Click { target } => {
                if !self.element_present(target) {
                    return DriverEvent::NoSuchElement {
                        detail: target.selector(),
                    };
                }
                match target {
                    Locator::SubmitButton => self.submit(),
                    Locator::LogoutButton => {
                        self.logged_in = false;
                        self.at_login_form = true;
                        self.username.clear();
                        self.password.clear();
                        self.error_banner = None;
                    }
                    _ => {}
                }
                DriverEvent::Completed
            }
            DriverCmd::ClearField { target } => {
                if !self.element_present(target) {
                    return DriverEvent::NoSuchElement {
                        detail: target.selector(),
                    };
                }
                match target {
                    Locator::UsernameField => self.username.clear(),
                    Locator::PasswordField => self.password.clear(),
                    _ => {
                        return DriverEvent::NotInteractable {
                            detail: target.selector(),
                        }
                    }
                }
                DriverEvent::Completed
            }
            DriverCmd::ProbePresent { target } => DriverEvent::PresenceChecked {
                present: self.element_present(target),
            },
            DriverCmd::ReadText { target } => {
                if !self.element_present(target) {
                    return DriverEvent::NoSuchElement {
                        detail: target.selector(),
                    };
                }
                let text = match target {
                    Locator::PageHeading => self.heading(),
                    Locator::ErrorBanner => self.error_banner.clone().unwrap_or_default(),
                    _ => String::new(),
                };
                DriverEvent::TextRead { text }
            }
            DriverCmd::EndSession => {
                self.alive = false;
                DriverEvent::Completed
            }
        }
    }
}

struct World {
    session: ScenarioSession,
    browsers: Vec<FakeBrowser>,
}

impl World {
    fn start() -> World {
        World {
            session: ScenarioSession::new(),
            browsers: Vec::new(),
        }
    }

    fn browser_of(&mut self, page: &LoginPage) -> &mut FakeBrowser {
        &mut self.browsers[page.driver.id as usize]
    }

    fn run_plan(&mut self, page: &LoginPage, plan: &[DriverCmd]) -> Result<(), LoginError> {
        for cmd in plan {
            let ev = self.browser_of(page).exec(cmd);
            if let Some(e) = event_error(&ev) {
                return Err(e);
            }
        }
        Ok(())
    }

    fn probe(&mut self, page: &LoginPage, cmd: &DriverCmd) -> Result<bool, LoginError> {
        match self.browser_of(page).exec(cmd) {
            DriverEvent::PresenceChecked { present } => Ok(present),
            ev => match event_error(&ev) {
                Some(e) => Err(e),
                None => Err(LoginError::UnexpectedState(
                    "probe answered with the wrong event".to_string(),
                )),
            },
        }
    }

    fn read(&mut self, page: &LoginPage, cmd: &DriverCmd) -> Result<String, LoginError> {
        match self.browser_of(page).exec(cmd) {
            DriverEvent::TextRead { text } => Ok(text),
            ev => match event_error(&ev) {
                Some(e) => Err(e),
                None => Err(LoginError::UnexpectedState(
                    "read answered with the wrong event".to_string(),
                )),
            },
        }
    }

    /// The "I am on the login page" step: teardown of whatever the last
    /// scenario left (failures swallowed), then a fresh session, a fresh
    /// page object, and a completed navigation.
    fn on_login_page(&mut self) -> Result<(), LoginError> {
        if let Some(prev) = self.session.begin_setup() {
            let logged_in = self.probe(&prev, &prev.logout()).unwrap_or(false);
            let plan = cleanup_plan(prev, logged_in);
            for cmd in &plan {
                let _ = self.browser_of(&prev).exec(cmd);
            }
        }
        assert!(self.session.active_driver.is_none());
        assert!(self.session.active_page.is_none());
        assert!(self.session.last_captured_error.is_none());

        let id = self.browsers.len() as u64;
        self.browsers.push(FakeBrowser::start());
        let handle = DriverHandle { id };
        let page = LoginPage::new(handle);
        self.run_plan(&page, &page.navigate())?;
        self.session.complete_setup(handle, page);
        Ok(())
    }

    fn enter_username(&mut self, username: &str) -> Result<(), LoginError> {
        let page = *self.session.page_for_step()?;
        let plan = page.enter_username(username);
        self.run_plan(&page, &plan)
    }

    fn enter_password(&mut self, password: &str) -> Result<(), LoginError> {
        let page = *self.session.page_for_step()?;
        let plan = page.enter_password(password);
        self.run_plan(&page, &plan)
    }

    fn click_login(&mut self) -> Result<(), LoginError> {
        let page = *self.session.page_for_step()?;
        let plan = page.click_login_button();
        self.run_plan(&page, &plan)
    }

    fn capture_error_message(&mut self) -> Result<(), LoginError> {
        let page = *self.session.page_for_step()?;
        let message = self.read(&page, &page.get_error_message())?;
        self.session.record_error(message);
        Ok(())
    }

    fn is_logged_in(&mut self) -> Result<bool, LoginError> {
        let page = *self.session.page_for_step()?;
        self.probe(&page, &page.is_logged_in())
    }

    fn secure_area_shown(&mut self) -> Result<bool, LoginError> {
        let page = *self.session.page_for_step()?;
        let heading = self.read(&page, &page.is_in_secure_area())?;
        Ok(page.secure_area_shown(&heading))
    }
}

fn run_valid_login(world: &mut World) {
    world.on_login_page().expect("setup must succeed");
    world.enter_username("tomsmith").expect("username step");
    world.enter_password("SuperSecretPassword!").expect("password step");
    world.click_login().expect("click step");
}

fn run_invalid_login(world: &mut World) {
    world.on_login_page().expect("setup must succeed");
    world.enter_username("invalid").expect("username step");
    world.enter_password("invalid").expect("password step");
    world.click_login().expect("click step");
}

#[test]
fn valid_credentials_log_in_and_reach_the_secure_area() {
    let mut world = World::start();
    run_valid_login(&mut world);

    let logged_in = world.is_logged_in().expect("probe");
    assert!(matches!(check_logged_in(logged_in), StepVerdict::Passed));

    let page = *world.session.page_for_step().expect("page");
    let heading = world.read(&page, &page.is_in_secure_area()).expect("heading");
    assert!(matches!(check_secure_area(&heading), StepVerdict::Passed));
    assert!(world.secure_area_shown().expect("secure area"));
}

#[test]
fn invalid_credentials_raise_the_invalid_username_error() {
    let mut world = World::start();
    run_invalid_login(&mut world);

    world.capture_error_message().expect("an error banner must appear");
    let verdict = check_error_contains(world.session.captured_error(), "Your username is invalid!");
    assert!(matches!(verdict, StepVerdict::Passed));

    assert!(!world.is_logged_in().expect("probe"));
}

#[test]
fn second_scenario_runs_clean_after_the_first() {
    let mut world = World::start();
    run_valid_login(&mut world);
    assert!(world.is_logged_in().expect("probe"));

    // The next scenario's setup tears the first session down by itself.
    run_invalid_login(&mut world);

    // The first browser was logged out and its session ended.
    assert!(!world.browsers[0].alive);
    assert!(!world.browsers[0].logged_in);

    world.capture_error_message().expect("an error banner must appear");
    let verdict = check_error_contains(world.session.captured_error(), "Your username is invalid!");
    assert!(matches!(verdict, StepVerdict::Passed));
}

#[test]
fn logout_when_already_logged_out_touches_nothing() {
    let mut world = World::start();
    world.on_login_page().expect("setup must succeed");

    let page = *world.session.page_for_step().expect("page");
    let logged_in = world.probe(&page, &page.logout()).expect("probe");
    assert!(!logged_in);
    let plan = page.logout_continue(logged_in);
    assert!(plan.is_empty());
    world.run_plan(&page, &plan).expect("an empty plan always succeeds");

    // The session is untouched: the login form is still interactive.
    world.enter_username("tomsmith").expect("form still present");
}

#[test]
fn error_check_fails_when_nothing_was_captured() {
    let world = World::start();
    let verdict = check_error_contains(world.session.captured_error(), "anything");
    assert!(matches!(verdict, StepVerdict::Failed(_)));
}
