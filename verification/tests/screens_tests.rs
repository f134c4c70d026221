use twin_type::in_game::Level;
use twin_type::screens::{
    force_end_button, main_menu_button, result_screen_button, AppState, BorderTone, ButtonResponse,
    Interaction,
};

#[test]
fn main_menu_start_button() {
    assert_eq!(
        main_menu_button(Interaction::Pressed),
        ButtonResponse { next_state: Some(AppState::InGame), level: Some(Level::Hard), border: None }
    );
    assert_eq!(
        main_menu_button(Interaction::Hovered),
        ButtonResponse { next_state: None, level: None, border: Some(BorderTone::White) }
    );
    assert_eq!(
        main_menu_button(Interaction::Idle),
        ButtonResponse { next_state: None, level: None, border: Some(BorderTone::Black) }
    );
}

#[test]
fn result_screen_back_button() {
    assert_eq!(
        result_screen_button(Interaction::Pressed),
        ButtonResponse { next_state: Some(AppState::MainMenu), level: None, border: None }
    );
    assert_eq!(result_screen_button(Interaction::Hovered).border, Some(BorderTone::White));
    assert_eq!(result_screen_button(Interaction::Idle).border, Some(BorderTone::Black));
}

#[test]
fn force_end_button_shows_results() {
    assert_eq!(force_end_button(Interaction::Pressed), Some(AppState::ResultScreen));
    assert_eq!(force_end_button(Interaction::Hovered), None);
    assert_eq!(force_end_button(Interaction::Idle), None);
}

#[test]
fn screens_cycle() {
    let mut state = AppState::default();
    assert_eq!(state, AppState::MainMenu);
    state = main_menu_button(Interaction::Pressed).next_state.unwrap();
    assert_eq!(state, AppState::InGame);
    state = force_end_button(Interaction::Pressed).unwrap();
    assert_eq!(state, AppState::ResultScreen);
    state = result_screen_button(Interaction::Pressed).next_state.unwrap();
    assert_eq!(state, AppState::MainMenu);
}
