//! The screens of the game and what their buttons do.

use crate::in_game::Level;
use vstd::prelude::*;

verus! {

/// The screens of the game: the main menu, the game itself and the results.
#[derive(Clone, Copy, Debug, PartialEq, Eq, Hash, Structural)]
pub enum AppState {
    MainMenu,
    InGame,
    ResultScreen,
}

impl Default for AppState {
    fn default() -> (res: Self)
        ensures
            res == AppState::MainMenu,
    {
        AppState::MainMenu
    }
}

/// What the pointer does with a button.
#[derive(Clone, Copy, Debug, PartialEq, Eq, Structural)]
pub enum Interaction {
    Pressed,
    Hovered,
    /// Neither pressed nor hovered.
    Idle,
}

/// The colour of a button's border.
#[derive(Clone, Copy, Debug, PartialEq, Eq, Structural)]
pub enum BorderTone {
    White,
    Black,
}

/// What a button's interaction changes: the next screen, the level to
/// play, the colour of its border.
#[derive(Clone, Copy, Debug, PartialEq, Eq, Structural)]
pub struct ButtonResponse {
    pub next_state: Option<AppState>,
    pub level: Option<Level>,
    pub border: Option<BorderTone>,
}

/// The border follows the pointer: white while hovered, black otherwise.
pub open spec fn hover_border(interaction: Interaction) -> Option<BorderTone> {
    match interaction {
        Interaction::Pressed => None,
        Interaction::Hovered => Some(BorderTone::White),
        Interaction::Idle => Some(BorderTone::Black),
    }
}

/// A hovered button gets a white border, an idle one a black border, and a
/// pressed one keeps its border.
pub proof fn lemma_hover_border(interaction: Interaction)
    ensures
        hover_border(interaction) == Some(BorderTone::White) <==> interaction == Interaction::Hovered,
        hover_border(interaction) == Some(BorderTone::Black) <==> interaction == Interaction::Idle,
        hover_border(interaction) is None <==> interaction == Interaction::Pressed,
{
}

/// The start button of the main menu: pressing it starts a game on the hard
/// level.
pub fn main_menu_button(interaction: Interaction) -> (res: ButtonResponse)
    ensures
        res.next_state == (if interaction == Interaction::Pressed { Some(AppState::InGame) } else { None::<AppState> }),
        res.level == (if interaction == Interaction::Pressed { Some(Level::Hard) } else { None::<Level> }),
        res.border == hover_border(interaction),
{
    match interaction {
        Interaction::Pressed => ButtonResponse {
            next_state: Some(AppState::InGame),
            level: Some(Level::Hard),
            border: None,
        },
        Interaction::Hovered => ButtonResponse {
            next_state: None,
            level: None,
            border: Some(BorderTone::White),
        },
        Interaction::Idle => ButtonResponse {
            next_state: None,
            level: None,
            border: Some(BorderTone::Black),
        },
    }
}

/// The button of the result screen: pressing it goes back to the main menu.
pub fn result_screen_button(interaction: Interaction) -> (res: ButtonResponse)
    ensures
        res.next_state == (if interaction == Interaction::Pressed { Some(AppState::MainMenu) } else { None::<AppState> }),
        res.level is None,
        res.border == hover_border(interaction),
{
    match interaction {
        Interaction::Pressed => ButtonResponse {
            next_state: Some(AppState::MainMenu),
            level: None,
            border: None,
        },
        Interaction::Hovered => ButtonResponse {
            next_state: None,
            level: None,
            border: Some(BorderTone::White),
        },
        Interaction::Idle => ButtonResponse {
            next_state: None,
            level: None,
            border: Some(BorderTone::Black),
        },
    }
}

/// The button that ends a game early: pressing it shows the results.
pub fn force_end_button(interaction: Interaction) -> (res: Option<AppState>)
    ensures
        res == (if interaction == Interaction::Pressed { Some(AppState::ResultScreen) } else { None::<AppState> }),
{
    match interaction {
        Interaction::Pressed => Some(AppState::ResultScreen),
        _ => None,
    }
}

} // verus!
