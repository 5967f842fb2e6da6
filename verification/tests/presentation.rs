use indium::action::Action;
use indium::placement::{minus, Point, Size};
use indium::playback::{PlaybackState, State};
use indium::theme::{theme, Color, Palette};
use indium::view::{view, Button, BUTTON_WIDTH};
use indium::window::{window_settings, WindowSettings, WINDOW_HEIGHT, WINDOW_WIDTH};

fn row_with(middle: &'static str) -> Vec<Button> {
    vec![
        Button {
            label: "<<",
            centered: false,
            on_press: Action::Backward,
            width: 40,
            corner_radius: 0,
        },
        Button {
            label: middle,
            centered: true,
            on_press: Action::PlayPause,
            width: 40,
            corner_radius: 0,
        },
        Button {
            label: ">>",
            centered: false,
            on_press: Action::Forward,
            width: 40,
            corner_radius: 0,
        },
    ]
}

#[test]
fn paused_row() {
    let state = State { media_state: PlaybackState::Paused };
    assert_eq!(view(&state), row_with("||"));
}

#[test]
fn playing_row() {
    let state = State { media_state: PlaybackState::Playing };
    assert_eq!(view(&state), row_with("|>"));
}

#[test]
fn the_initial_state_renders_as_paused() {
    let paused = State { media_state: PlaybackState::Paused };
    assert_eq!(view(&State::default()), view(&paused));
    assert_eq!(view(&State::default())[1].label, "||");
}

#[test]
fn every_button_is_square_and_of_the_common_width() {
    for playback in [PlaybackState::Paused, PlaybackState::Playing] {
        for button in view(&State { media_state: playback }) {
            assert_eq!(button.corner_radius, 0);
            assert_eq!(button.width, BUTTON_WIDTH);
        }
    }
    assert_eq!(BUTTON_WIDTH, 40);
}

#[test]
fn the_theme_is_white_on_black_with_red_for_errors() {
    let black = Color { r: 0, g: 0, b: 0, a: 255 };
    let white = Color { r: 255, g: 255, b: 255, a: 255 };
    let red = Color { r: 255, g: 0, b: 0, a: 255 };
    let found = theme(&State::default());
    assert_eq!(found.name, "Custom Dark");
    assert_eq!(
        found.palette,
        Palette { background: black, text: white, primary: white, success: white, danger: red }
    );
}

#[test]
fn the_theme_is_the_same_in_every_state() {
    let paused = theme(&State { media_state: PlaybackState::Paused });
    let playing = theme(&State { media_state: PlaybackState::Playing });
    assert_eq!(paused, playing);
}

#[test]
fn the_window_is_a_bare_fixed_overlay() {
    assert_eq!(
        window_settings(),
        WindowSettings {
            size: Size { width: 120, height: 30 },
            decorations: false,
            transparent: true,
            resizable: false,
            always_on_top: true,
        }
    );
    assert_eq!(WINDOW_WIDTH, 120);
    assert_eq!(WINDOW_HEIGHT, 30);
}

#[test]
fn the_overlay_window_on_a_full_hd_screen() {
    let screen = Size { width: 1920, height: 1080 };
    assert_eq!(minus(window_settings().size, screen), Point { x: 1800, y: 1050 });
}
