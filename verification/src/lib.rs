//! Verified core of a browser-driven login acceptance harness.
//!
//! The library holds the decision logic of the harness: the explicit-wait
//! polling policy, the login page object's command plans and result
//! interpreters, the scenario session lifecycle, and the step verdicts.
//! An unverified runner executes the produced driver commands against a
//! real browser-automation endpoint and feeds the resulting events back in.

pub mod wait;
pub mod text;
pub mod page;
pub mod session;
pub mod steps;
