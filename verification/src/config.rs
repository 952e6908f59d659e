//! Shared configuration: an immutable text value set once at process start
//! and read by every request thereafter.

use vstd::prelude::*;

verus! {

/// A configuration value. It is built once, never mutated, and shared by
/// reference among all request handlers, so reads are always consistent.
pub struct MyConfig {
    text: String,
}

impl View for MyConfig {
    type V = Seq<char>;

    closed spec fn view(&self) -> Seq<char> {
        self.text@
    }
}

impl MyConfig {
    /// Builds the configuration from its text, fixed for the process life.
    pub fn new(text: String) -> (c: MyConfig)
        ensures
            c@ == text@,
    {
        MyConfig { text }
    }

    /// Reads the configuration text.
    pub fn text(&self) -> (t: &String)
        ensures
            t@ == self@,
    {
        &self.text
    }
}

} // verus!
