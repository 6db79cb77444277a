//! Laws of the adapter over any run of critical sections.
//!
//! Calls that race for the lock are serialised by it, so a run of calls is a
//! sequence of critical sections. The `i`-th section sees the state that the
//! first `i` left behind and the outcome `outs[i]` of the construction it
//! would attempt; a section that finds the engine built attempts none and
//! ignores its outcome.
use vstd::prelude::*;
use crate::error::{AdapterError, lookup_result};
use crate::state::{InitState, Plan, plan_of, step, step_result, default_state};

verus! {

/// The state after the critical sections of a run, from `s`.
pub open spec fn run<C, E, X>(s: InitState<C, E>, outs: Seq<Result<E, X>>) -> InitState<C, E>
    decreases outs.len(),
{
    if outs.len() == 0 {
        s
    } else {
        step(run(s, outs.drop_last()), outs.last())
    }
}

/// The state that the `i`-th critical section of a run finds.
pub open spec fn state_before<C, E, X>(
    s: InitState<C, E>,
    outs: Seq<Result<E, X>>,
    i: int,
) -> InitState<C, E> {
    run(s, outs.take(i))
}

/// Whether the `i`-th critical section of a run publishes an engine.
pub open spec fn installs<C, E, X>(s: InitState<C, E>, outs: Seq<Result<E, X>>, i: int) -> bool {
    &&& !(state_before(s, outs, i) is Ready)
    &&& outs[i] is Ok
}

/// What the `i`-th call of a run gets from its critical section.
pub open spec fn section_result<C, E, X>(
    s: InitState<C, E>,
    outs: Seq<Result<E, X>>,
    i: int,
) -> Result<E, AdapterError<X>> {
    step_result(state_before(s, outs, i), outs[i])
}

/// What a whole call returns: its critical section, then, with the handle
/// it got, the lookup that the engine answered with `looked`.
pub open spec fn call_result<C, E, X, T>(
    s: InitState<C, E>,
    built: Result<E, X>,
    looked: Result<T, X>,
) -> Result<T, AdapterError<X>> {
    match step_result(s, built) {
        Ok(_) => lookup_result(looked),
        Err(err) => Err(err),
    }
}

proof fn lemma_run_take<C, E, X>(s: InitState<C, E>, outs: Seq<Result<E, X>>, i: int)
    requires
        0 <= i < outs.len(),
    ensures
        state_before(s, outs, i + 1) == step(state_before(s, outs, i), outs[i]),
{
    assert(outs.take(i + 1).drop_last() =~= outs.take(i));
    assert(outs.take(i + 1).last() == outs[i]);
}

proof fn lemma_ready_stays<C, E, X>(s: InitState<C, E>, outs: Seq<Result<E, X>>, i: int, j: int)
    requires
        0 <= i <= j <= outs.len(),
        state_before(s, outs, i) is Ready,
    ensures
        state_before(s, outs, j) == state_before(s, outs, i),
    decreases j - i,
{
    if j > i {
        lemma_ready_stays(s, outs, i, j - 1);
        lemma_run_take(s, outs, j - 1);
    }
}

proof fn lemma_unchanged_until_install<C, E, X>(s: InitState<C, E>, outs: Seq<Result<E, X>>, i: int)
    requires
        0 <= i <= outs.len(),
        !(s is Ready),
        forall|k: int| 0 <= k < i ==> !#[trigger] installs(s, outs, k),
    ensures
        state_before(s, outs, i) == s,
    decreases i,
{
    if i == 0 {
        assert(outs.take(0) =~= Seq::<Result<E, X>>::empty());
    } else {
        lemma_unchanged_until_install(s, outs, i - 1);
        lemma_run_take(s, outs, i - 1);
        assert(!installs(s, outs, i - 1));
    }
}

/// Single-flight construction: in any run of calls on an adapter whose engine
/// is not built yet, at most one critical section publishes an engine; every
/// later call gets that same handle; a failed construction fails only its own
/// call and leaves the state as it found it, and until some construction
/// succeeds the state stays the unbuilt one that the run started from.
pub proof fn lemma_single_flight<C, E, X>(s: InitState<C, E>, outs: Seq<Result<E, X>>)
    requires
        !(s is Ready),
    ensures
        forall|i: int, j: int|
            0 <= i < outs.len() && 0 <= j < outs.len() && #[trigger] installs(s, outs, i)
                && #[trigger] installs(s, outs, j) ==> i == j,
        forall|i: int, j: int|
            0 <= i < j < outs.len() && #[trigger] installs(s, outs, i) ==> #[trigger] section_result(
                s,
                outs,
                j,
            ) == Ok::<E, AdapterError<X>>(outs[i]->Ok_0),
        forall|i: int|
            0 <= i < outs.len() && !(state_before(s, outs, i) is Ready) && outs[i] is Err ==> {
                &&& state_before(s, outs, i + 1) == #[trigger] state_before(s, outs, i)
                &&& section_result(s, outs, i) == Err::<E, AdapterError<X>>(
                    AdapterError::Construction(outs[i]->Err_0),
                )
            },
        forall|i: int|
            0 <= i <= outs.len() && (forall|k: int| 0 <= k < i ==> !#[trigger] installs(s, outs, k))
                ==> #[trigger] state_before(s, outs, i) == s,
{
    assert forall|i: int, j: int|
        0 <= i < j < outs.len() && #[trigger] installs(s, outs, i) implies #[trigger] section_result(
        s,
        outs,
        j,
    ) == Ok::<E, AdapterError<X>>(outs[i]->Ok_0) && !installs(s, outs, j) by {
        lemma_run_take(s, outs, i);
        lemma_ready_stays(s, outs, i + 1, j);
    }
    assert forall|i: int, j: int|
        0 <= i < outs.len() && 0 <= j < outs.len() && #[trigger] installs(s, outs, i)
            && #[trigger] installs(s, outs, j) implies i == j by {
        if i < j {
            lemma_run_take(s, outs, i);
            lemma_ready_stays(s, outs, i + 1, j);
        } else if j < i {
            lemma_run_take(s, outs, j);
            lemma_ready_stays(s, outs, j + 1, i);
        }
    }
    assert forall|i: int|
        0 <= i < outs.len() && !(state_before(s, outs, i) is Ready) && outs[i] is Err implies {
        &&& state_before(s, outs, i + 1) == #[trigger] state_before(s, outs, i)
        &&& section_result(s, outs, i) == Err::<E, AdapterError<X>>(
            AdapterError::Construction(outs[i]->Err_0),
        )
    } by {
        lemma_run_take(s, outs, i);
    }
    assert forall|i: int|
        0 <= i <= outs.len() && (forall|k: int| 0 <= k < i ==> !#[trigger] installs(s, outs, k))
            implies #[trigger] state_before(s, outs, i) == s by {
        lemma_unchanged_until_install(s, outs, i);
    }
}

/// Once the engine is built the state never changes again: no later call
/// attempts a construction, and every one gets the published handle.
pub proof fn lemma_ready_is_final<C, E, X>(e: E, outs: Seq<Result<E, X>>)
    ensures
        run(InitState::<C, E>::Ready(e), outs) == InitState::<C, E>::Ready(e),
        forall|i: int|
            0 <= i <= outs.len() ==> #[trigger] state_before(InitState::<C, E>::Ready(e), outs, i)
                == InitState::<C, E>::Ready(e),
        forall|i: int|
            0 <= i < outs.len() ==> {
                &&& plan_of(#[trigger] state_before(InitState::<C, E>::Ready(e), outs, i))
                    == Plan::UseEngine
                &&& section_result(InitState::<C, E>::Ready(e), outs, i) == Ok::<
                    E,
                    AdapterError<X>,
                >(e)
            },
{
    let r = InitState::<C, E>::Ready(e);
    assert(outs.take(0) =~= Seq::<Result<E, X>>::empty());
    assert forall|i: int| 0 <= i <= outs.len() implies #[trigger] state_before(r, outs, i) == r by {
        lemma_ready_stays(r, outs, 0, i);
    }
    assert(outs.take(outs.len() as int) =~= outs);
    assert(state_before(r, outs, outs.len() as int) == r);
}

/// A default-constructed adapter fails at construction, with a
/// configuration-read error, exactly when the system configuration could not
/// be read; once constructed, no call on it ever fails with that error.
pub proof fn lemma_config_failure_only_at_construction<C, E, X, T>(
    system: Result<(), X>,
    outs: Seq<Result<E, X>>,
    built: Result<E, X>,
    looked: Result<T, X>,
)
    ensures
        system is Err <==> default_state::<C, E, X>(system) is Err,
        system is Err ==> default_state::<C, E, X>(system) == Err::<
            InitState<C, E>,
            AdapterError<X>,
        >(AdapterError::ConfigRead(system->Err_0)),
        system is Ok ==> default_state::<C, E, X>(system) == Ok::<
            InitState<C, E>,
            AdapterError<X>,
        >(InitState::Uninitialized),
        forall|i: int|
            0 <= i < outs.len() ==> !(#[trigger] section_result(
                InitState::<C, E>::Uninitialized,
                outs,
                i,
            ) matches Err(AdapterError::ConfigRead(_))),
        forall|s: InitState<C, E>|
            !(#[trigger] call_result(s, built, looked) matches Err(AdapterError::ConfigRead(_))),
{
}

proof fn lemma_explicit_states<C, E, X>(c: C, outs: Seq<Result<E, X>>, i: int)
    requires
        0 <= i <= outs.len(),
    ensures
        state_before(InitState::<C, E>::WithConfig(c), outs, i) == InitState::<C, E>::WithConfig(c)
            || state_before(InitState::<C, E>::WithConfig(c), outs, i) is Ready,
    decreases i,
{
    if i == 0 {
        assert(outs.take(0) =~= Seq::<Result<E, X>>::empty());
    } else {
        lemma_explicit_states(c, outs, i - 1);
        lemma_run_take(InitState::<C, E>::WithConfig(c), outs, i - 1);
    }
}

/// An adapter given an explicit configuration never builds from the system
/// configuration: every call finds either that configuration or the built
/// engine.
pub proof fn lemma_explicit_config_never_reads_system<C, E, X>(c: C, outs: Seq<Result<E, X>>)
    ensures
        forall|i: int|
            0 <= i <= outs.len() ==> {
                ||| #[trigger] state_before(InitState::<C, E>::WithConfig(c), outs, i)
                    == InitState::<C, E>::WithConfig(c)
                ||| state_before(InitState::<C, E>::WithConfig(c), outs, i) is Ready
            },
        forall|i: int|
            0 <= i <= outs.len() ==> plan_of(
                #[trigger] state_before(InitState::<C, E>::WithConfig(c), outs, i),
            ) != Plan::BuildFromSystem,
{
    assert forall|i: int| 0 <= i <= outs.len() implies {
        ||| #[trigger] state_before(InitState::<C, E>::WithConfig(c), outs, i)
            == InitState::<C, E>::WithConfig(c)
        ||| state_before(InitState::<C, E>::WithConfig(c), outs, i) is Ready
    } by {
        lemma_explicit_states(c, outs, i);
    }
}

/// A failed lookup fails only its own call, wrapped as a lookup error: the
/// state that call leaves does not depend on it, and the next call, whatever
/// its construction outcome, returns what its own lookup found.
pub proof fn lemma_lookup_failure_is_isolated<C, E, X, T>(
    s: InitState<C, E>,
    built: Result<E, X>,
    x: X,
    next_built: Result<E, X>,
    found: T,
)
    requires
        step_result(s, built) is Ok,
    ensures
        call_result(s, built, Err::<T, X>(x)) == Err::<T, AdapterError<X>>(AdapterError::Lookup(x)),
        step(s, built) is Ready,
        call_result(step(s, built), next_built, Ok::<T, X>(found)) == Ok::<T, AdapterError<X>>(
            found,
        ),
{
}

/// A call whose engine is available hands back exactly the addresses that the
/// engine found, as a finite sequence that can be walked again.
pub proof fn lemma_round_trip<C, E, X, A>(s: InitState<C, E>, built: Result<E, X>, found: Seq<A>)
    requires
        step_result(s, built) is Ok,
    ensures
        call_result(s, built, Ok::<Seq<A>, X>(found)) == Ok::<Seq<A>, AdapterError<X>>(found),
{
}

} // verus!
