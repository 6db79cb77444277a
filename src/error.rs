use vstd::prelude::*;

verus! {

/// Why a construction or a resolution failed; each variant keeps its cause.
#[derive(Debug)]
pub enum AdapterError<X> {
    /// The process-wide system configuration could not be read.
    ConfigRead(X),
    /// The engine could not be built.
    Construction(X),
    /// The engine could not resolve the name.
    Lookup(X),
}

/// The cause that an error wraps.
pub open spec fn cause_of<X>(e: AdapterError<X>) -> X {
    match e {
        AdapterError::ConfigRead(x) => x,
        AdapterError::Construction(x) => x,
        AdapterError::Lookup(x) => x,
    }
}

impl<X> AdapterError<X> {
    /// Whether the system configuration could not be read.
    pub fn is_config_read(&self) -> (r: bool)
        ensures
            r == (*self is ConfigRead),
    {
        match self {
            AdapterError::ConfigRead(_) => true,
            _ => false,
        }
    }

    /// Whether the engine could not be built.
    pub fn is_construction(&self) -> (r: bool)
        ensures
            r == (*self is Construction),
    {
        match self {
            AdapterError::Construction(_) => true,
            _ => false,
        }
    }

    /// Whether the engine could not resolve the name.
    pub fn is_lookup(&self) -> (r: bool)
        ensures
            r == (*self is Lookup),
    {
        match self {
            AdapterError::Lookup(_) => true,
            _ => false,
        }
    }

    /// Gives up the wrapper and returns the underlying cause.
    pub fn into_cause(self) -> (r: X)
        ensures
            r == cause_of(self),
    {
        match self {
            AdapterError::ConfigRead(x) => x,
            AdapterError::Construction(x) => x,
            AdapterError::Lookup(x) => x,
        }
    }
}

/// What a call hands back once the engine answered its lookup.
pub open spec fn lookup_result<T, X>(looked: Result<T, X>) -> Result<T, AdapterError<X>> {
    match looked {
        Ok(addrs) => Ok(addrs),
        Err(x) => Err(AdapterError::Lookup(x)),
    }
}

/// Turns the engine's answer to a lookup into the call's result: the
/// addresses as they came, or the engine's error wrapped as a lookup failure.
pub fn finish_lookup<A, X>(looked: Result<Vec<A>, X>) -> (r: Result<Vec<A>, AdapterError<X>>)
    ensures
        r == lookup_result(looked),
{
    match looked {
        Ok(addrs) => Ok(addrs),
        Err(x) => Err(AdapterError::Lookup(x)),
    }
}

} // verus!
