//! The test plugin: a plugin that answers one question.

use vstd::prelude::*;
use crate::text::text;

verus! {

/// What the test plugin offers.
#[allow(non_camel_case_types)]
pub trait Plugin_API {
    fn thing(&self) -> String;
}

/// The test plugin.
#[derive(Debug, Clone, Copy)]
pub struct TestPlugin {}

impl TestPlugin {
    /// A new test plugin.
    pub fn new() -> (r: TestPlugin)
        ensures
            r == (TestPlugin {}),
    {
        TestPlugin {  }
    }
}

impl Plugin_API for TestPlugin {
    fn thing(&self) -> (r: String)
        ensures
            r@ == "Hello from specific plugin implementation!"@,
    {
        text("Hello from specific plugin implementation!")
    }
}

} // verus!
