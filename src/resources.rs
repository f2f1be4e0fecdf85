use vstd::prelude::*;

verus! {

/// Whether cloud resources may be left behind by a failed operation.
#[derive(PartialEq, Eq, Structural, Clone, Copy, Debug)]
pub enum Resources {
    /// Nothing was created: a new attempt needs no cleanup.
    Clear,
    /// Resources are known to exist: destroy before trying again.
    Remaining,
    /// It cannot be told whether resources exist.
    Unknown,
}

/// A failure of a provider operation, tagged with what it leaves behind.
#[derive(Debug)]
pub struct ProviderError {
    pub resources: Resources,
    /// What the operation was doing.
    pub context: String,
    /// What the failing layer reported; empty where it reported nothing.
    pub cause: String,
}

impl ProviderError {
    pub fn new(resources: Resources, context: &str, cause: String) -> (r: ProviderError)
        ensures
            r.resources == resources,
            r.context@ == context@,
            r.cause == cause,
    {
        ProviderError { resources, context: context.to_string(), cause }
    }
}

} // verus!
