use menu_core::{
    button_style, button_system, AppState, ButtonColor, ButtonLabel, ButtonStyle, Interaction,
    MainCamera, HOVERED_BUTTON, NORMAL_BUTTON, PRESSED_BUTTON,
};

#[test]
fn the_three_backgrounds() {
    assert_eq!(NORMAL_BUTTON, ButtonColor::White);
    assert_eq!(HOVERED_BUTTON, ButtonColor::Gray);
    assert_eq!(PRESSED_BUTTON, ButtonColor::Green);
}

#[test]
fn labels_as_text() {
    assert_eq!(ButtonLabel::Press.text(), "Press");
    assert_eq!(ButtonLabel::Hover.text(), "Hover");
    assert_eq!(ButtonLabel::Game.text(), "Game");
    assert_eq!(ButtonLabel::MainMenu.text(), "MainMenu");
}

#[test]
fn a_pressed_button_is_green_with_a_white_border() {
    let expected = ButtonStyle {
        label: ButtonLabel::Press,
        background: ButtonColor::Green,
        border: ButtonColor::White,
    };
    assert_eq!(button_style(Interaction::Pressed, AppState::MainMenu), expected);
    assert_eq!(button_style(Interaction::Pressed, AppState::Game), expected);
}

#[test]
fn a_hovered_button_is_gray_with_a_black_border() {
    let expected = ButtonStyle {
        label: ButtonLabel::Hover,
        background: ButtonColor::Gray,
        border: ButtonColor::Black,
    };
    assert_eq!(button_style(Interaction::Hovered, AppState::MainMenu), expected);
    assert_eq!(button_style(Interaction::Hovered, AppState::Game), expected);
}

#[test]
fn an_idle_button_names_the_state() {
    assert_eq!(
        button_style(Interaction::Idle, AppState::MainMenu),
        ButtonStyle {
            label: ButtonLabel::MainMenu,
            background: ButtonColor::White,
            border: ButtonColor::White,
        }
    );
    assert_eq!(
        button_style(Interaction::Idle, AppState::Game),
        ButtonStyle {
            label: ButtonLabel::Game,
            background: ButtonColor::White,
            border: ButtonColor::White,
        }
    );
}

#[test]
fn no_changed_button_changes_nothing() {
    let frame = button_system(&vec![], AppState::Game);
    assert!(frame.styles.is_empty());
    assert_eq!(frame.next_state, None);
}

#[test]
fn a_press_in_the_main_menu_asks_for_the_game() {
    let frame = button_system(&vec![Interaction::Pressed], AppState::MainMenu);
    assert_eq!(frame.styles, vec![button_style(Interaction::Pressed, AppState::MainMenu)]);
    assert_eq!(frame.next_state, Some(AppState::Game));
}

#[test]
fn a_press_in_the_game_asks_for_the_main_menu() {
    let frame = button_system(&vec![Interaction::Pressed], AppState::Game);
    assert_eq!(frame.next_state, Some(AppState::MainMenu));
}

#[test]
fn hovering_and_leaving_ask_for_no_state() {
    let frame = button_system(&vec![Interaction::Hovered, Interaction::Idle], AppState::Game);
    assert_eq!(frame.next_state, None);
    assert_eq!(
        frame.styles,
        vec![
            ButtonStyle {
                label: ButtonLabel::Hover,
                background: ButtonColor::Gray,
                border: ButtonColor::Black,
            },
            ButtonStyle {
                label: ButtonLabel::Game,
                background: ButtonColor::White,
                border: ButtonColor::White,
            },
        ]
    );
}

#[test]
fn styles_keep_the_order_of_the_buttons() {
    let interactions = vec![
        Interaction::Idle,
        Interaction::Pressed,
        Interaction::Hovered,
        Interaction::Pressed,
        Interaction::Idle,
    ];
    let frame = button_system(&interactions, AppState::MainMenu);
    assert_eq!(frame.styles.len(), interactions.len());
    for (style, interaction) in frame.styles.iter().zip(interactions.iter()) {
        assert_eq!(*style, button_style(*interaction, AppState::MainMenu));
    }
    let labels: Vec<&str> = frame.styles.iter().map(|style| style.label.text()).collect();
    assert_eq!(labels, vec!["MainMenu", "Press", "Hover", "Press", "MainMenu"]);
}

#[test]
fn two_presses_ask_for_the_same_state_as_one() {
    let once = button_system(&vec![Interaction::Pressed], AppState::MainMenu);
    let twice = button_system(
        &vec![Interaction::Pressed, Interaction::Hovered, Interaction::Pressed],
        AppState::MainMenu,
    );
    assert_eq!(once.next_state, Some(AppState::Game));
    assert_eq!(twice.next_state, Some(AppState::Game));
}

#[test]
fn a_press_counts_wherever_it_stands() {
    for position in 0..3 {
        let mut interactions = vec![Interaction::Idle, Interaction::Hovered, Interaction::Idle];
        interactions[position] = Interaction::Pressed;
        let frame = button_system(&interactions, AppState::Game);
        assert_eq!(frame.next_state, Some(AppState::MainMenu));
    }
}

#[test]
fn the_camera_marker_is_a_plain_value() {
    assert_eq!(MainCamera, MainCamera);
}
