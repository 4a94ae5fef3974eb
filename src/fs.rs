//! The contract of a configuration value that can be read from and written
//! to a file, and a small configuration value.
use vstd::prelude::*;

verus! {

/// A value that loads itself from a file and writes itself to one.
///
/// `load` reads the whole file at `path` into a value; `write` serialises
/// the whole value to `path`, replacing what was there.
pub trait File: Sized {
    fn load(path: &str) -> crate::Result<Self>;

    fn write(&self, path: &str) -> crate::Result<()>;
}

/// A small configuration value with one field of each common kind.
#[derive(Debug)]
pub struct TestConfig {
    pub foo: String,
    pub bar: bool,
    pub baz: u32,
}

impl Default for TestConfig {
    fn default() -> (r: Self)
        ensures
            r.foo@ == "foo"@,
            r.bar,
            r.baz == 42,
    {
        TestConfig { foo: String::from_str("foo"), bar: true, baz: 42 }
    }
}

impl PartialEq for TestConfig {
    fn eq(&self, other: &TestConfig) -> (r: bool)
        ensures
            r == (self.foo@ == other.foo@ && self.bar == other.bar && self.baz == other.baz),
    {
        self.foo == other.foo && self.bar == other.bar && self.baz == other.baz
    }
}

impl vstd::std_specs::cmp::PartialEqSpecImpl for TestConfig {
    open spec fn obeys_eq_spec() -> bool {
        true
    }

    open spec fn eq_spec(&self, other: &TestConfig) -> bool {
        self.foo@ == other.foo@ && self.bar == other.bar && self.baz == other.baz
    }
}

} // verus!
