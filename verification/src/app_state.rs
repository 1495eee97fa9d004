//! The screens of the application and the events that lead from one to the
//! next.

use vstd::prelude::*;

verus! {

/// The screen that the application currently shows.
#[derive(Clone, Copy, Debug, PartialEq, Eq, Hash, Structural)]
pub enum AppState {
    Splash,
    Slides,
    Game,
    /// The map on which a challenge is picked.
    ChallengeMap,
}

impl Default for AppState {
    /// The application starts on the splash screen.
    fn default() -> (state: AppState)
        ensures
            state == AppState::Splash,
    {
        AppState::Splash
    }
}

/// What can move the application from one screen to another.
#[derive(Clone, Copy, Debug, PartialEq, Eq, Hash, Structural)]
pub enum AppEvent {
    /// The splash delay has run out.
    SplashTimerExpired,
    /// The user asked to leave the slideshow.
    SlideSkipRequested,
    /// A challenge picked on the map has been created.
    ChallengeSelected,
}

/// Where the splash screen leads.
#[derive(Clone, Copy, Debug, PartialEq, Eq, Hash, Structural)]
pub enum FlowVariant {
    /// The splash screen leads straight into the game screen.
    Minimal,
    /// The splash screen leads into the slideshow, which leads to the map.
    Full,
}

impl Default for FlowVariant {
    fn default() -> (variant: FlowVariant)
        ensures
            variant == FlowVariant::Minimal,
    {
        FlowVariant::Minimal
    }
}

/// The screen that follows the splash screen in the given variant.
pub open spec fn after_splash(variant: FlowVariant) -> AppState {
    match variant {
        FlowVariant::Minimal => AppState::Game,
        FlowVariant::Full => AppState::Slides,
    }
}

/// The state that follows `current` when `event` arrives. An event that the
/// current screen does not handle leaves the state as it is.
pub open spec fn next_state(variant: FlowVariant, current: AppState, event: AppEvent) -> AppState {
    match (current, event) {
        (AppState::Splash, AppEvent::SplashTimerExpired) => after_splash(variant),
        (AppState::Slides, AppEvent::SlideSkipRequested) => AppState::ChallengeMap,
        (AppState::ChallengeMap, AppEvent::ChallengeSelected) => AppState::Game,
        _ => current,
    }
}

/// Whether the flow of the given variant has an edge from `from` to `to`.
pub open spec fn is_flow_edge(variant: FlowVariant, from: AppState, to: AppState) -> bool {
    ||| from == AppState::Splash && to == after_splash(variant)
    ||| from == AppState::Slides && to == AppState::ChallengeMap
    ||| from == AppState::ChallengeMap && to == AppState::Game
}

/// Whether the screen `state` reacts to `event`.
pub open spec fn handles(state: AppState, event: AppEvent) -> bool {
    ||| state == AppState::Splash && event == AppEvent::SplashTimerExpired
    ||| state == AppState::Slides && event == AppEvent::SlideSkipRequested
    ||| state == AppState::ChallengeMap && event == AppEvent::ChallengeSelected
}

/// Applies one event to the current state.
pub fn transition(variant: FlowVariant, current: AppState, event: AppEvent) -> (next: AppState)
    ensures
        next == next_state(variant, current, event),
{
    match (current, event) {
        (AppState::Splash, AppEvent::SplashTimerExpired) => match variant {
            FlowVariant::Minimal => AppState::Game,
            FlowVariant::Full => AppState::Slides,
        },
        (AppState::Slides, AppEvent::SlideSkipRequested) => AppState::ChallengeMap,
        (AppState::ChallengeMap, AppEvent::ChallengeSelected) => AppState::Game,
        _ => current,
    }
}

/// Every step either stays where it is or follows an edge of the flow, and
/// it stays exactly when the current screen does not handle the event.
pub proof fn lemma_transition_follows_flow(variant: FlowVariant, current: AppState, event: AppEvent)
    ensures
        handles(current, event) ==> is_flow_edge(
            variant,
            current,
            next_state(variant, current, event),
        ),
        !handles(current, event) ==> next_state(variant, current, event) == current,
        next_state(variant, current, event) != AppState::Splash || current == AppState::Splash,
{
}

/// Once an event has been handled, delivering it again changes nothing: the
/// screen that handled it has been left.
pub proof fn lemma_event_applies_once(variant: FlowVariant, current: AppState, event: AppEvent)
    ensures
        next_state(variant, next_state(variant, current, event), event) == next_state(
            variant,
            current,
            event,
        ),
{
}

} // verus!
