use konnektoren_game::app_state::{transition, AppEvent, AppState, FlowVariant};

const STATES: [AppState; 4] =
    [AppState::Splash, AppState::Slides, AppState::Game, AppState::ChallengeMap];
const EVENTS: [AppEvent; 3] =
    [AppEvent::SplashTimerExpired, AppEvent::SlideSkipRequested, AppEvent::ChallengeSelected];
const VARIANTS: [FlowVariant; 2] = [FlowVariant::Minimal, FlowVariant::Full];

#[test]
fn application_starts_on_the_splash_screen() {
    assert_eq!(AppState::default(), AppState::Splash);
    assert_eq!(FlowVariant::default(), FlowVariant::Minimal);
}

#[test]
fn splash_leads_to_game_in_the_minimal_flow() {
    assert_eq!(
        transition(FlowVariant::Minimal, AppState::Splash, AppEvent::SplashTimerExpired),
        AppState::Game
    );
}

#[test]
fn splash_leads_to_slides_in_the_full_flow() {
    assert_eq!(
        transition(FlowVariant::Full, AppState::Splash, AppEvent::SplashTimerExpired),
        AppState::Slides
    );
}

#[test]
fn skipping_the_slides_leads_to_the_map() {
    for variant in VARIANTS {
        assert_eq!(
            transition(variant, AppState::Slides, AppEvent::SlideSkipRequested),
            AppState::ChallengeMap
        );
    }
}

#[test]
fn selecting_a_challenge_leads_from_the_map_to_the_game() {
    for variant in VARIANTS {
        assert_eq!(
            transition(variant, AppState::ChallengeMap, AppEvent::ChallengeSelected),
            AppState::Game
        );
    }
}

#[test]
fn unhandled_events_change_nothing() {
    for variant in VARIANTS {
        for state in STATES {
            for event in EVENTS {
                let handled = matches!(
                    (state, event),
                    (AppState::Splash, AppEvent::SplashTimerExpired)
                        | (AppState::Slides, AppEvent::SlideSkipRequested)
                        | (AppState::ChallengeMap, AppEvent::ChallengeSelected)
                );
                let next = transition(variant, state, event);
                if handled {
                    assert_ne!(next, state);
                } else {
                    assert_eq!(next, state);
                }
            }
        }
    }
}

#[test]
fn an_event_delivered_twice_acts_once() {
    for variant in VARIANTS {
        for state in STATES {
            for event in EVENTS {
                let once = transition(variant, state, event);
                assert_eq!(transition(variant, once, event), once);
            }
        }
    }
}

#[test]
fn no_event_leads_back_to_the_splash_screen() {
    for variant in VARIANTS {
        for state in [AppState::Slides, AppState::Game, AppState::ChallengeMap] {
            for event in EVENTS {
                assert_ne!(transition(variant, state, event), AppState::Splash);
            }
        }
    }
}
