use vstd::prelude::*;
use crate::error::AdapterError;

verus! {

/// The initialisation state of one adapter, shared by all of its handles.
///
/// `C` is the explicit engine configuration, `E` the shared engine handle.
pub enum InitState<C, E> {
    /// Build from the process-wide system configuration on first use.
    Uninitialized,
    /// Build from this configuration on first use.
    WithConfig(C),
    /// The engine is built; every call uses this handle.
    Ready(E),
}

/// What the holder of the lock has to do before it can look a name up.
#[derive(PartialEq, Eq, Structural, Debug, Clone, Copy)]
pub enum Plan {
    /// Use the published engine handle.
    UseEngine,
    /// Build the engine from the system configuration.
    BuildFromSystem,
    /// Build the engine from the stored explicit configuration.
    BuildFromConfig,
}

/// The plan that a state calls for.
pub open spec fn plan_of<C, E>(s: InitState<C, E>) -> Plan {
    match s {
        InitState::Uninitialized => Plan::BuildFromSystem,
        InitState::WithConfig(_) => Plan::BuildFromConfig,
        InitState::Ready(_) => Plan::UseEngine,
    }
}

/// The state that one critical section leaves behind, given what the
/// construction it may have attempted returned.
///
/// A ready state is kept whatever `built` holds: the engine is built at most
/// once. Otherwise a built engine is published, and a failed construction
/// leaves the state as it was, so that the next caller tries again.
pub open spec fn step<C, E, X>(s: InitState<C, E>, built: Result<E, X>) -> InitState<C, E> {
    match s {
        InitState::Ready(_) => s,
        _ => match built {
            Ok(e) => InitState::Ready(e),
            Err(_) => s,
        },
    }
}

/// What one critical section hands to its caller: the engine handle to look
/// the name up with, or the construction failure.
pub open spec fn step_result<C, E, X>(s: InitState<C, E>, built: Result<E, X>) -> Result<
    E,
    AdapterError<X>,
> {
    match s {
        InitState::Ready(e) => Ok(e),
        _ => match built {
            Ok(e) => Ok(e),
            Err(x) => Err(AdapterError::Construction(x)),
        },
    }
}

/// What default construction yields, given whether the shared system
/// configuration could be read.
pub open spec fn default_state<C, E, X>(system: Result<(), X>) -> Result<
    InitState<C, E>,
    AdapterError<X>,
> {
    match system {
        Ok(()) => Ok(InitState::Uninitialized),
        Err(x) => Err(AdapterError::ConfigRead(x)),
    }
}

/// The engine handle that a state holds, if it is ready.
pub open spec fn engine_of<C, E>(s: InitState<C, E>) -> Option<E> {
    match s {
        InitState::Ready(e) => Some(e),
        _ => None,
    }
}

/// The explicit configuration that a state holds, if it is waiting to be
/// built from one.
pub open spec fn config_of<C, E>(s: InitState<C, E>) -> Option<C> {
    match s {
        InitState::WithConfig(c) => Some(c),
        _ => None,
    }
}

impl<C, E> InitState<C, E> {
    /// The state of a default-constructed adapter, given the outcome of the
    /// process-wide read of the system configuration. A failed read fails
    /// construction here; the engine itself is built on first use.
    pub fn new_default<X>(system: Result<(), X>) -> (r: Result<Self, AdapterError<X>>)
        ensures
            r == default_state::<C, E, X>(system),
    {
        match system {
            Ok(()) => Ok(InitState::Uninitialized),
            Err(x) => Err(AdapterError::ConfigRead(x)),
        }
    }

    /// The state of an adapter that has been given an explicit configuration.
    pub fn with_config(config: C) -> (r: Self)
        ensures
            r == InitState::<C, E>::WithConfig(config),
    {
        InitState::WithConfig(config)
    }

    /// Whether the engine has been built.
    pub fn is_ready(&self) -> (r: bool)
        ensures
            r == (*self is Ready),
    {
        match self {
            InitState::Ready(_) => true,
            _ => false,
        }
    }

    /// What the holder of the lock has to do in this state.
    pub fn plan(&self) -> (r: Plan)
        ensures
            r == plan_of(*self),
    {
        match self {
            InitState::Uninitialized => Plan::BuildFromSystem,
            InitState::WithConfig(_) => Plan::BuildFromConfig,
            InitState::Ready(_) => Plan::UseEngine,
        }
    }

    /// The published engine handle, if the engine is built.
    pub fn engine(&self) -> (r: Option<&E>)
        ensures
            match r {
                Some(h) => engine_of(*self) == Some(*h),
                None => engine_of(*self) is None,
            },
    {
        match self {
            InitState::Ready(e) => Some(e),
            _ => None,
        }
    }

    /// The explicit configuration to build from, if the state holds one.
    pub fn config(&self) -> (r: Option<&C>)
        ensures
            match r {
                Some(h) => config_of(*self) == Some(*h),
                None => config_of(*self) is None,
            },
    {
        match self {
            InitState::WithConfig(c) => Some(c),
            _ => None,
        }
    }

    /// Records the outcome of a construction attempt made under the lock.
    ///
    /// Afterwards the state is `step(old, built)`; the call fails exactly when
    /// the construction failed and no engine had been published before.
    pub fn settle<X>(&mut self, built: Result<E, X>) -> (r: Result<(), AdapterError<X>>)
        ensures
            *final(self) == step(*old(self), built),
            match step_result(*old(self), built) {
                Ok(e) => r is Ok && engine_of(*final(self)) == Some(e),
                Err(err) => r == Err::<(), AdapterError<X>>(err),
            },
    {
        match built {
            Ok(e) => {
                if !self.is_ready() {
                    *self = InitState::Ready(e);
                }
                Ok(())
            },
            Err(x) => {
                if self.is_ready() {
                    Ok(())
                } else {
                    Err(AdapterError::Construction(x))
                }
            },
        }
    }
}

} // verus!
