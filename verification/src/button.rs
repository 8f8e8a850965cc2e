//! How the menu's button looks and what a press of it asks for.

use crate::state::AppState;
use vstd::prelude::*;

verus! {

/// What the pointer does to a button.
#[derive(Debug, Clone, Copy, PartialEq, Eq, Structural, Hash)]
pub enum Interaction {
    /// The button is being pressed.
    Pressed,
    /// The pointer is over the button.
    Hovered,
    /// Nothing happens to the button.
    Idle,
}

/// A colour that a button is drawn in.
#[derive(Debug, Clone, Copy, PartialEq, Eq, Structural, Hash)]
pub enum ButtonColor {
    White,
    Gray,
    Green,
    Black,
}

/// The background of a button that nothing happens to.
pub const NORMAL_BUTTON: ButtonColor = ButtonColor::White;

/// The background of a button under the pointer.
pub const HOVERED_BUTTON: ButtonColor = ButtonColor::Gray;

/// The background of a button that is being pressed.
pub const PRESSED_BUTTON: ButtonColor = ButtonColor::Green;

/// The text on a button.
#[derive(Debug, Clone, Copy, PartialEq, Eq, Structural, Hash)]
pub enum ButtonLabel {
    Press,
    Hover,
    Game,
    MainMenu,
}

impl ButtonLabel {
    /// The characters of the label.
    pub open spec fn spec_text(self) -> Seq<char> {
        match self {
            ButtonLabel::Press => "Press"@,
            ButtonLabel::Hover => "Hover"@,
            ButtonLabel::Game => "Game"@,
            ButtonLabel::MainMenu => "MainMenu"@,
        }
    }

    /// The label as text.
    pub fn text(self) -> (text: &'static str)
        ensures
            text@ == self.spec_text(),
    {
        match self {
            ButtonLabel::Press => "Press",
            ButtonLabel::Hover => "Hover",
            ButtonLabel::Game => "Game",
            ButtonLabel::MainMenu => "MainMenu",
        }
    }
}

/// The label that names a state.
pub open spec fn state_label(state: AppState) -> ButtonLabel {
    match state {
        AppState::Game => ButtonLabel::Game,
        AppState::MainMenu => ButtonLabel::MainMenu,
    }
}

/// The look of a button: its text and its two colours.
#[derive(Debug, Clone, Copy, PartialEq, Eq, Structural, Hash)]
pub struct ButtonStyle {
    pub label: ButtonLabel,
    pub background: ButtonColor,
    pub border: ButtonColor,
}

/// The look of a button under `interaction` while the application is in
/// `current`: a pressed button is green and says so, a hovered one is gray
/// with a black border and says so, and a button left alone is white and
/// names the current state.
pub open spec fn spec_button_style(interaction: Interaction, current: AppState) -> ButtonStyle {
    match interaction {
        Interaction::Pressed => ButtonStyle {
            label: ButtonLabel::Press,
            background: PRESSED_BUTTON,
            border: ButtonColor::White,
        },
        Interaction::Hovered => ButtonStyle {
            label: ButtonLabel::Hover,
            background: HOVERED_BUTTON,
            border: ButtonColor::Black,
        },
        Interaction::Idle => ButtonStyle {
            label: state_label(current),
            background: NORMAL_BUTTON,
            border: ButtonColor::White,
        },
    }
}

/// Computes the look of one button.
#[verifier::when_used_as_spec(spec_button_style)]
pub fn button_style(interaction: Interaction, current: AppState) -> (style: ButtonStyle)
    ensures
        style == spec_button_style(interaction, current),
{
    match interaction {
        Interaction::Pressed => ButtonStyle {
            label: ButtonLabel::Press,
            background: PRESSED_BUTTON,
            border: ButtonColor::White,
        },
        Interaction::Hovered => ButtonStyle {
            label: ButtonLabel::Hover,
            background: HOVERED_BUTTON,
            border: ButtonColor::Black,
        },
        Interaction::Idle => {
            let label = match current {
                AppState::Game => ButtonLabel::Game,
                AppState::MainMenu => ButtonLabel::MainMenu,
            };
            ButtonStyle { label, background: NORMAL_BUTTON, border: ButtonColor::White }
        },
    }
}

/// What one run over the changed buttons comes to.
#[derive(Debug)]
pub struct ButtonFrame {
    /// The new look of each button, in the order the buttons were given.
    pub styles: Vec<ButtonStyle>,
    /// The state to request from the engine, if a button was pressed.
    pub next_state: Option<AppState>,
}

/// The state that a run over `interactions` requests: the other state when
/// any button is pressed, none otherwise.
pub open spec fn pressed_target(
    interactions: Seq<Interaction>,
    current: AppState,
) -> Option<AppState> {
    if interactions.contains(Interaction::Pressed) {
        Some(current.toggled())
    } else {
        None
    }
}

/// Runs over the buttons whose interaction changed in this frame, given in
/// `interactions`. Each button gets the look that goes with its interaction,
/// and every pressed button asks for the state other than `current`.
pub fn button_system(interactions: &[Interaction], current: AppState) -> (frame: ButtonFrame)
    ensures
        frame.styles@ == interactions@.map_values(
            |interaction: Interaction| spec_button_style(interaction, current),
        ),
        frame.next_state == pressed_target(interactions@, current),
{
    let mut styles: Vec<ButtonStyle> = Vec::new();
    let mut next_state: Option<AppState> = None;
    let mut done: usize = 0;
    while done < interactions.len()
        invariant
            done <= interactions.len(),
            styles@ == interactions@.take(done as int).map_values(
                |interaction: Interaction| spec_button_style(interaction, current),
            ),
            next_state == pressed_target(interactions@.take(done as int), current),
        decreases interactions.len() - done,
    {
        let interaction = interactions[done];
        proof {
            interactions@.lemma_take_succ_push(done as int);
            interactions@.take(done as int).lemma_push_map_commute(
                |interaction: Interaction| spec_button_style(interaction, current),
                interaction,
            );
            vstd::seq_lib::lemma_seq_contains_after_push(
                interactions@.take(done as int),
                interaction,
                Interaction::Pressed,
            );
        }
        styles.push(button_style(interaction, current));
        if interaction == Interaction::Pressed {
            next_state = Some(current.toggled());
        }
        done += 1;
    }
    proof {
        interactions@.lemma_take_len();
    }
    ButtonFrame { styles, next_state }
}

} // verus!
