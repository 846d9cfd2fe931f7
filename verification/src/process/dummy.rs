//! The dummy runtime: it runs nothing.

use vstd::prelude::*;

verus! {

/// A runtime that runs nothing.
#[derive(Clone)]
pub struct Dummy {}

/// Settings of the dummy runtime.
#[derive(Clone, Debug, Default)]
pub struct Config {
    pub dummy_arg: Option<String>,
}

impl Config {
    /// The GPU that the runtime is bound to: the dummy runtime has none.
    pub fn gpu_uuid(&self) -> (r: Option<String>)
        ensures
            r is None,
    {
        None
    }
}

impl Dummy {
    /// The runtime's self-test: the dummy runtime always passes.
    pub fn test(_config: &Config) -> (r: Result<(), String>)
        ensures
            r is Ok,
    {
        Ok(())
    }
}

} // verus!
