//! The laws the controller obeys: proof functions relating the transition
//! engine's steps across whole runs, stated over the spec-level model in
//! [`crate::machine`].

use vstd::prelude::*;

use crate::machine::{
    current_floor_of, dest_floor_of, direction_of, door_motion_exclusive, initial_state,
    spec_arrived, spec_step, valid_dest, wf, Direction, State,
};

verus! {

/// The state after feeding each request of `reqs` to the engine, in order.
pub open spec fn run(s: State, reqs: Seq<(Option<i8>, Option<Direction>)>) -> State
    decreases reqs.len(),
{
    if reqs.len() == 0 {
        s
    } else {
        run(spec_step(s, reqs[0].0, reqs[0].1), reqs.drop_first())
    }
}

/// A state is reachable when some finite request sequence leads to it from
/// the initial state.
pub open spec fn reachable(s: State) -> bool {
    exists|reqs: Seq<(Option<i8>, Option<Direction>)>| s == run(initial_state(), reqs)
}

/// The state after `n` ticks, each fed one and the same request.
pub open spec fn run_same(s: State, df: Option<i8>, dir: Option<Direction>, n: nat) -> State
    decreases n,
{
    if n == 0 {
        s
    } else {
        run_same(spec_step(s, df, dir), df, dir, (n - 1) as nat)
    }
}

/// How many floors apart two floor values lie.
pub open spec fn dist(c: int, d: int) -> int {
    if c <= d {
        d - c
    } else {
        c - d
    }
}

/// One tick keeps door and motor mutually exclusive, whatever the request:
/// every state the table constructs carries flags that agree with its tag,
/// and the fallback returns the state unchanged.
pub proof fn lemma_step_preserves_exclusion(s: State, df: Option<i8>, dir: Option<Direction>)
    requires
        door_motion_exclusive(s),
    ensures
        door_motion_exclusive(spec_step(s, df, dir)),
{
}

/// A whole run keeps door and motor mutually exclusive.
pub proof fn lemma_run_preserves_exclusion(s: State, reqs: Seq<(Option<i8>, Option<Direction>)>)
    requires
        door_motion_exclusive(s),
    ensures
        door_motion_exclusive(run(s, reqs)),
    decreases reqs.len(),
{
    if reqs.len() > 0 {
        lemma_step_preserves_exclusion(s, reqs[0].0, reqs[0].1);
        lemma_run_preserves_exclusion(spec_step(s, reqs[0].0, reqs[0].1), reqs.drop_first());
    }
}

/// Mutual exclusion invariant: in every reachable state, the door being
/// open and the car moving never hold together.
pub proof fn lemma_reachable_exclusion(s: State)
    requires
        reachable(s),
    ensures
        door_motion_exclusive(s),
{
    let reqs = choose|reqs: Seq<(Option<i8>, Option<Direction>)>|
        s == run(initial_state(), reqs);
    lemma_run_preserves_exclusion(initial_state(), reqs);
}

/// One tick from a well-formed state, on a valid destination choice,
/// yields a well-formed state: the data-model invariants are inductive.
pub proof fn lemma_step_preserves_wf(s: State, df: Option<i8>, dir: Option<Direction>)
    requires
        wf(s),
        valid_dest(df),
    ensures
        wf(spec_step(s, df, dir)),
{
}

/// A request sequence is valid when every destination choice in it names a
/// legal floor.
pub open spec fn all_valid(reqs: Seq<(Option<i8>, Option<Direction>)>) -> bool {
    forall|i: int| 0 <= i < reqs.len() ==> valid_dest(#[trigger] reqs[i].0)
}

/// A whole run of valid requests keeps the state well-formed.
pub proof fn lemma_run_preserves_wf(s: State, reqs: Seq<(Option<i8>, Option<Direction>)>)
    requires
        wf(s),
        all_valid(reqs),
    ensures
        wf(run(s, reqs)),
    decreases reqs.len(),
{
    if reqs.len() > 0 {
        lemma_step_preserves_wf(s, reqs[0].0, reqs[0].1);
        assert forall|i: int| 0 <= i < reqs.drop_first().len() implies valid_dest(
            #[trigger] reqs.drop_first()[i].0,
        ) by {
            assert(reqs.drop_first()[i] == reqs[i + 1]);
        }
        lemma_run_preserves_wf(spec_step(s, reqs[0].0, reqs[0].1), reqs.drop_first());
    }
}

/// The data-model invariants hold in every state reached from the initial
/// state by valid requests.
pub proof fn lemma_reachable_wf(reqs: Seq<(Option<i8>, Option<Direction>)>)
    requires
        all_valid(reqs),
    ensures
        wf(run(initial_state(), reqs)),
{
    lemma_run_preserves_wf(initial_state(), reqs);
}

/// Idle no-op: a closed car handed an empty request is left exactly as it
/// was.
pub proof fn lemma_idle_noop(s: State)
    requires
        s is Closed,
    ensures
        spec_step(s, None, None) == s,
{
}

/// Arrival opens the door: a travelling car standing at its destination
/// stops there on the next tick, door open, floor and destination kept.
pub proof fn lemma_arrival_opens(s: State, df: Option<i8>, dir: Option<Direction>)
    requires
        wf(s),
        s is Moving,
        current_floor_of(s) == dest_floor_of(s),
    ensures
        spec_arrived(spec_step(s, df, dir)),
        spec_step(s, df, dir) is Open,
        current_floor_of(spec_step(s, df, dir)) == current_floor_of(s),
        dest_floor_of(spec_step(s, df, dir)) == dest_floor_of(s),
{
}

/// One tick of travel short of the destination moves the car one floor
/// closer: still `Moving`, destination and latched direction kept, and the
/// distance to the destination down by exactly one.
pub proof fn lemma_moving_tick(s: State, df: Option<i8>, dir: Option<Direction>)
    requires
        wf(s),
        s is Moving,
        current_floor_of(s) != dest_floor_of(s),
    ensures
        spec_step(s, df, dir) is Moving,
        wf(spec_step(s, df, dir)),
        dest_floor_of(spec_step(s, df, dir)) == dest_floor_of(s),
        direction_of(spec_step(s, df, dir)) == direction_of(s),
        dist(
            (current_floor_of(spec_step(s, df, dir))->0) as int,
            (dest_floor_of(s)->0) as int,
        ) == dist((current_floor_of(s)->0) as int, (dest_floor_of(s)->0) as int) - 1,
{
}

/// Monotonic convergence: repeating one and the same request drives a
/// travelling car to its destination, one floor per tick. After as many
/// ticks as the car stands floors away it is still `Moving` but at the
/// destination, and the very next tick opens the door there.
pub proof fn lemma_moving_converges(s: State, df: Option<i8>, dir: Option<Direction>)
    requires
        wf(s),
        s is Moving,
        current_floor_of(s) != dest_floor_of(s),
    ensures
        ({
            let n = dist((current_floor_of(s)->0) as int, (dest_floor_of(s)->0) as int);
            &&& run_same(s, df, dir, n as nat) is Moving
            &&& current_floor_of(run_same(s, df, dir, n as nat)) == dest_floor_of(s)
            &&& dest_floor_of(run_same(s, df, dir, n as nat)) == dest_floor_of(s)
            &&& spec_arrived(run_same(s, df, dir, (n + 1) as nat))
            &&& current_floor_of(run_same(s, df, dir, (n + 1) as nat)) == dest_floor_of(s)
        }),
    decreases dist((current_floor_of(s)->0) as int, (dest_floor_of(s)->0) as int),
{
    let n: int = dist((current_floor_of(s)->0) as int, (dest_floor_of(s)->0) as int);
    let s1 = spec_step(s, df, dir);
    lemma_moving_tick(s, df, dir);
    assert(run_same(s, df, dir, n as nat) == run_same(s1, df, dir, (n - 1) as nat));
    assert(run_same(s, df, dir, (n + 1) as nat) == run_same(s1, df, dir, n as nat));
    if n == 1 {
        assert(run_same(s1, df, dir, 1) == run_same(spec_step(s1, df, dir), df, dir, 0));
        assert(run_same(s1, df, dir, 1) == spec_step(s1, df, dir));
        lemma_arrival_opens(s1, df, dir);
    } else {
        lemma_moving_converges(s1, df, dir);
    }
}

} // verus!
