//! A small single-player trail simulation: a traveler advances along a
//! fixed-distance trail by spending turns on travel, resting, or hunting.
//! Each turn a pure reducer maps the current [`state::State`] and an
//! [`state::Action`] to the next state.

pub mod reducer;
pub mod state;
