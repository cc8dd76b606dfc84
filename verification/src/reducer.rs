//! The pure reducer: one turn of the game.

use vstd::prelude::*;

use crate::state::{Action, FOOD_PER_HUNT, HEALTH_CAP, State};

verus! {

/// The day number `d` fits the date field.
pub open spec fn date_in_range(d: int) -> bool {
    i64::MIN <= d <= i64::MAX
}

/// The state after traveling for `days` over `distance` miles: the date moves
/// forward by the duration and the remaining miles shrink by the distance.
/// A distance beyond the remaining miles leaves zero, never a wrapped value.
pub open spec fn travel_next(s: State, days: i64, distance: u64) -> State {
    State {
        date: (s.date + days) as i64,
        miles: if distance <= s.miles { (s.miles - distance) as u64 } else { 0 },
        ..s
    }
}

/// The state after resting for `days`: the date moves forward by the
/// duration and one point of health comes back, up to the cap.
pub open spec fn rest_next(s: State, days: i64) -> State {
    State {
        date: (s.date + days) as i64,
        health: if s.health < HEALTH_CAP {
            (s.health + 1) as u64
        } else {
            s.health
        },
        ..s
    }
}

/// The state after one hunt: the date moves forward by the state's own
/// `hunt_days` and the food grows by [`FOOD_PER_HUNT`].
pub open spec fn hunt_next(s: State) -> State {
    State {
        date: (s.date + s.hunt_days) as i64,
        food: (s.food + FOOD_PER_HUNT) as u64,
        ..s
    }
}

/// What [`root_reducer`] asks of its caller: the date arithmetic of the turn
/// stays within the day-number type, a hunt's food gain fits, and a callback
/// is safe to call on the current state.
pub open spec fn reduce_req<F: Fn(State) -> State>(s: State, a: Action<F>) -> bool {
    match a {
        Action::Travel(days, _) => date_in_range(s.date + days),
        Action::Rest(days) => date_in_range(s.date + days),
        Action::Hunt => date_in_range(s.date + s.hunt_days) && s.food + FOOD_PER_HUNT <= u64::MAX,
        Action::Status(f) => call_requires(f, (s,)),
        Action::Help(f) => call_requires(f, (s,)),
        Action::Quit(f) => call_requires(f, (s,)),
    }
}

/// What [`root_reducer`] returns: the exact next state for `Travel`, `Rest`
/// and `Hunt`, and for the observer actions a value that the callback itself
/// can return for the unchanged current state.
pub open spec fn reduce_post<F: Fn(State) -> State>(s: State, a: Action<F>, r: State) -> bool {
    match a {
        Action::Travel(days, distance) => r == travel_next(s, days, distance),
        Action::Rest(days) => r == rest_next(s, days),
        Action::Hunt => r == hunt_next(s),
        Action::Status(f) => call_ensures(f, (s,), r),
        Action::Help(f) => call_ensures(f, (s,), r),
        Action::Quit(f) => call_ensures(f, (s,), r),
    }
}

/// One turn of the game: the next state from the current state and an action.
///
/// Pure: no shared mutable state, and for `Travel`, `Rest` and `Hunt` the
/// result is a function of the inputs alone. The observer actions `Status`,
/// `Help` and `Quit` invoke their callback once with the current state and
/// return whatever it returns.
pub fn root_reducer<F: Fn(State) -> State>(state: &State, action: &Action<F>) -> (r: State)
    requires
        reduce_req(*state, *action),
    ensures
        reduce_post(*state, *action, r),
{
    match action {
        Action::Travel(days, distance) => State {
            date: state.date + *days,
            miles: if *distance <= state.miles {
                state.miles - *distance
            } else {
                0
            },
            ..*state
        },
        Action::Rest(days) => State {
            date: state.date + *days,
            health: if state.health < HEALTH_CAP {
                state.health + 1
            } else {
                state.health
            },
            ..*state
        },
        Action::Hunt => State {
            date: state.date + state.hunt_days,
            food: state.food + FOOD_PER_HUNT,
            ..*state
        },
        Action::Status(status_function) => status_function(*state),
        Action::Help(help_function) => help_function(*state),
        Action::Quit(quit_mock) => quit_mock(*state),
    }
}

/// Travel moves the date forward by exactly the duration and takes exactly
/// the distance off the remaining miles whenever the distance does not exceed
/// them; every other field is unchanged.
pub proof fn lemma_travel_step(s: State, days: i64, distance: u64)
    requires
        distance <= s.miles,
        date_in_range(s.date + days),
    ensures
        travel_next(s, days, distance).date == s.date + days,
        travel_next(s, days, distance).miles == s.miles - distance,
        travel_next(s, days, distance).food == s.food,
        travel_next(s, days, distance).health == s.health,
        travel_next(s, days, distance).hunt_days == s.hunt_days,
{
}

/// Rest moves the date forward by exactly the duration and brings back one
/// point of health below the cap; at the cap (or above) health is unchanged,
/// so resting at full health is idempotent on health. Every other field is
/// unchanged.
pub proof fn lemma_rest_step(s: State, days: i64)
    requires
        date_in_range(s.date + days),
    ensures
        rest_next(s, days).date == s.date + days,
        s.health < HEALTH_CAP ==> rest_next(s, days).health == s.health + 1,
        s.health >= HEALTH_CAP ==> rest_next(s, days).health == s.health,
        rest_next(s, days).miles == s.miles,
        rest_next(s, days).food == s.food,
        rest_next(s, days).hunt_days == s.hunt_days,
{
}

/// Hunt adds exactly [`FOOD_PER_HUNT`] pounds of food and moves the date
/// forward by exactly the state's own `hunt_days` — a hunt has no parameters
/// of its own to consult. Every other field is unchanged.
pub proof fn lemma_hunt_step(s: State)
    requires
        date_in_range(s.date + s.hunt_days),
        s.food + FOOD_PER_HUNT <= u64::MAX,
    ensures
        hunt_next(s).date == s.date + s.hunt_days,
        hunt_next(s).food == s.food + FOOD_PER_HUNT,
        hunt_next(s).miles == s.miles,
        hunt_next(s).health == s.health,
        hunt_next(s).hunt_days == s.hunt_days,
{
}

/// The health bound is an invariant of every turn that does not run a
/// callback: a well-formed state stays well-formed under travel, rest and
/// hunt.
pub proof fn lemma_step_preserves_wf(s: State, days: i64, distance: u64)
    requires
        s.wf(),
    ensures
        travel_next(s, days, distance).wf(),
        rest_next(s, days).wf(),
        hunt_next(s).wf(),
{
}

/// An observer turn with an identity callback leaves the state as it was:
/// if the only value the callback can return for input `s` is `s` itself,
/// then whatever the reducer returned for it equals `s`.
pub proof fn lemma_identity_observer<F: Fn(State) -> State>(f: F, s: State, r: State)
    requires
        call_ensures(f, (s,), r),
        forall|t: State| call_ensures(f, (s,), t) ==> t == s,
    ensures
        r == s,
{
}

} // verus!
