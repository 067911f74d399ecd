//! The C sources that a compiled program is linked with.

use vstd::prelude::*;

verus! {

/// The C sources of the runtime, as they were bundled with the compiler.
#[derive(Debug)]
pub struct RuntimeSources {
    /// The core of the runtime.
    pub core: String,
    /// The scheduler for asynchronous functions.
    pub async_rt: String,
}

/// The C source of the core of the runtime.
pub fn runtime_c_source(sources: &RuntimeSources) -> (r: &str)
    ensures
        r@ == sources.core@,
{
    sources.core.as_str()
}

/// The C source of the scheduler for asynchronous functions.
pub fn async_rt_c_source(sources: &RuntimeSources) -> (r: &str)
    ensures
        r@ == sources.async_rt@,
{
    sources.async_rt.as_str()
}

} // verus!
