use gbcemu::config::{
    controller_button_to_joypad_input, is_white_space, keycode_to_joypad_input, parse_entries,
    string_to_controller_button, Button, Config, KEY_DOWN, KEY_RETURN, KEY_S, KEY_TAB, KEY_X,
    KEY_Z,
};
use gbcemu::gameboy::Gameboy;
use gbcemu::joypad::{JoypadEvent, JoypadInput};
use gbcemu::ui::{
    UiAction, UiEvent, UiState, KEY_0, KEY_EQUALS, KEY_ESCAPE, KEY_K, KEY_L, KEY_MINUS, KEY_O,
    KEY_P, KEY_SEMICOLON, MAX_QUEUED_BYTES,
};

fn pairs(text: &str) -> Vec<(String, String)> {
    parse_entries(text)
        .into_iter()
        .map(|(k, v)| (k.into_iter().collect(), v.into_iter().collect()))
        .collect()
}

/// Loads a text with a stand-in for the lookup of key names: the name is the code.
fn load(text: &str) -> Config {
    let codes: Vec<Option<i32>> = Config::key_values(text)
        .into_iter()
        .map(|value| value.and_then(|name| name.parse::<i32>().ok()))
        .collect();
    Config::load(text, &codes)
}

#[test]
fn lines_are_names_and_values() {
    let text = "# comment\n\n  key_a = Z  \r\nno sign\nctrl_b=A=B\n\t# also = comment\nlast = x";
    assert_eq!(
        pairs(text),
        vec![
            ("key_a".to_string(), "Z".to_string()),
            ("ctrl_b".to_string(), "A=B".to_string()),
            ("last".to_string(), "x".to_string()),
        ]
    );
    assert!(pairs("").is_empty());
    assert!(pairs("\n\n").is_empty());
    assert_eq!(pairs(" = "), vec![(String::new(), String::new())]);
}

#[test]
fn new_file_binds_nothing() {
    assert!(pairs(Config::default_config_text()).is_empty());
    assert!(Config::default_config_text().starts_with("# GBC Emulator Input Configuration\n"));
    assert_eq!(load(Config::default_config_text()), Config::default());
}

#[test]
fn white_space_is_that_of_the_standard_library() {
    for n in 0..=0x10FFFFu32 {
        if let Some(c) = char::from_u32(n) {
            assert_eq!(is_white_space(c), c.is_whitespace());
        }
    }
}

#[test]
fn buttons_have_names() {
    assert_eq!(string_to_controller_button("A"), Some(Button::A));
    assert_eq!(string_to_controller_button("DPadLeft"), Some(Button::DPadLeft));
    assert_eq!(string_to_controller_button("Touchpad"), Some(Button::Touchpad));
    assert_eq!(string_to_controller_button("Paddle4"), Some(Button::Paddle4));
    assert_eq!(string_to_controller_button("a"), None);
    assert_eq!(string_to_controller_button(""), None);
}

#[test]
fn standard_bindings() {
    let config = Config::default();
    assert_eq!(config.key_a, KEY_Z);
    assert_eq!(config.key_r, KEY_S);
    assert_eq!(config.key_ff, KEY_TAB);
    assert_eq!(config.ctrl_a, Button::B);
    assert_eq!(config.ctrl_ff, Button::Y);
    assert_eq!(keycode_to_joypad_input(KEY_Z, &config), Some(JoypadInput::A));
    assert_eq!(keycode_to_joypad_input(KEY_X, &config), Some(JoypadInput::B));
    assert_eq!(keycode_to_joypad_input(KEY_RETURN, &config), Some(JoypadInput::Start));
    assert_eq!(keycode_to_joypad_input(KEY_DOWN, &config), Some(JoypadInput::Down));
    assert_eq!(keycode_to_joypad_input(KEY_S, &config), None);
    assert_eq!(controller_button_to_joypad_input(Button::B, &config), Some(JoypadInput::A));
    assert_eq!(
        controller_button_to_joypad_input(Button::DPadUp, &config),
        Some(JoypadInput::Up)
    );
    assert_eq!(controller_button_to_joypad_input(Button::Guide, &config), None);
}

#[test]
fn entries_change_bindings() {
    let config = load("key_a = 65\nkey_a = 66\nkey_b = nothing\nctrl_a = X\nctrl_b = none\n");
    // The later entry counts
    assert_eq!(config.key_a, 66);
    // A value without a meaning changes nothing
    assert_eq!(config.key_b, KEY_X);
    assert_eq!(config.ctrl_a, Button::X);
    assert_eq!(config.ctrl_b, Button::A);
    // Even if an earlier entry had one
    let config = load("key_a = 65\nkey_a = nothing\n");
    assert_eq!(config.key_a, KEY_Z);
}

#[test]
fn only_the_last_value_of_a_key_is_looked_up() {
    let text = "title = \u{E9}\nkey_b = ~\nkey_ff = Left Shift\nkey_b = Q\nctrl_a = X\n";
    let values = Config::key_values(text);
    assert_eq!(values.len(), 11);
    assert_eq!(values[0], None);
    assert_eq!(values[1], Some("Q".to_string()));
    assert_eq!(values[10], Some("Left Shift".to_string()));
    assert_eq!(values.iter().filter(|value| value.is_some()).count(), 2);
}

#[test]
fn code_without_a_value_has_no_effect() {
    let codes = vec![Some(1); 11];
    assert_eq!(Config::load("", &codes), Config::default());
    let config = Config::load("key_up = whatever\n", &codes);
    assert_eq!(config, Config { key_up: 1, ..Config::default() });
}

#[test]
fn command_keys() {
    let config = Config::default();
    let mut ui = UiState::new();
    assert_eq!(ui.handle(UiEvent::Quit, &config), UiAction::Quit);
    assert_eq!(ui.handle(UiEvent::KeyDown(KEY_ESCAPE), &config), UiAction::Quit);
    assert_eq!(ui.handle(UiEvent::KeyDown(KEY_SEMICOLON), &config), UiAction::Reset);
    assert_eq!(ui.handle(UiEvent::KeyDown(KEY_K), &config), UiAction::SaveState);
    assert_eq!(ui.handle(UiEvent::KeyDown(KEY_L), &config), UiAction::LoadState);
    assert_eq!(ui, UiState::new());
    ui.handle(UiEvent::KeyDown(KEY_EQUALS), &config);
    ui.handle(UiEvent::KeyDown(KEY_EQUALS), &config);
    assert_eq!(ui.speed, 3);
    assert_eq!(ui.frame_time(), Gameboy::FRAME_DURATION / 3);
    ui.handle(UiEvent::KeyDown(KEY_MINUS), &config);
    assert_eq!(ui.speed, 2);
    ui.handle(UiEvent::KeyDown(KEY_0), &config);
    assert_eq!(ui.speed, 1);
    ui.handle(UiEvent::KeyDown(KEY_P), &config);
    assert!(ui.paused && !ui.is_running());
    ui.handle(UiEvent::KeyDown(KEY_P), &config);
    assert!(ui.is_running());
    ui.handle(UiEvent::KeyDown(KEY_O), &config);
    assert!(ui.outline);
}

#[test]
fn fast_forward_lasts_while_its_key_is_held() {
    let config = Config::default();
    let mut ui = UiState::new();
    assert_eq!(ui.handle(UiEvent::KeyDown(KEY_TAB), &config), UiAction::RestartCount);
    assert!(ui.fast_forward);
    // The speed keys have no effect meanwhile, nor has the key itself
    ui.handle(UiEvent::KeyDown(KEY_EQUALS), &config);
    assert_eq!(ui.speed, 1);
    assert_eq!(ui.handle(UiEvent::KeyDown(KEY_TAB), &config), UiAction::Nothing);
    assert_eq!(ui.rest_time(100, 10), 0);
    assert!(ui.drops_queue(false, 0));
    assert_eq!(ui.handle(UiEvent::KeyUp(KEY_TAB), &config), UiAction::RestartCount);
    assert_eq!(ui, UiState::new());
    assert_eq!(ui.handle(UiEvent::ButtonDown(Button::Y), &config), UiAction::RestartCount);
    assert!(ui.fast_forward);
    assert_eq!(ui.handle(UiEvent::ButtonUp(Button::Y), &config), UiAction::RestartCount);
    assert!(!ui.fast_forward);
}

#[test]
fn joypad_keys_and_buttons() {
    let config = Config::default();
    let mut ui = UiState::new();
    assert_eq!(
        ui.handle(UiEvent::KeyDown(KEY_Z), &config),
        UiAction::Joypad(JoypadEvent::Down(JoypadInput::A))
    );
    assert_eq!(
        ui.handle(UiEvent::KeyUp(KEY_Z), &config),
        UiAction::Joypad(JoypadEvent::Up(JoypadInput::A))
    );
    assert_eq!(
        ui.handle(UiEvent::ButtonDown(Button::Start), &config),
        UiAction::Joypad(JoypadEvent::Down(JoypadInput::Start))
    );
    assert_eq!(
        ui.handle(UiEvent::ButtonUp(Button::Start), &config),
        UiAction::Joypad(JoypadEvent::Up(JoypadInput::Start))
    );
    assert_eq!(ui.handle(UiEvent::KeyUp(KEY_P), &config), UiAction::Nothing);
    assert_eq!(ui.handle(UiEvent::Other, &config), UiAction::Nothing);
}

#[test]
fn window_and_controllers() {
    let config = Config::default();
    let mut ui = UiState::new();
    assert_eq!(ui.handle(UiEvent::Hidden, &config), UiAction::Nothing);
    assert!(!ui.is_running());
    assert_eq!(ui.handle(UiEvent::Shown, &config), UiAction::RenewTexture);
    assert!(ui.is_running());
    assert_eq!(
        ui.handle(UiEvent::ControllerAdded(2), &config),
        UiAction::OpenController(2)
    );
    assert_eq!(ui.handle(UiEvent::ControllerRemoved, &config), UiAction::CloseControllers);
}

#[test]
fn pacing_and_sound_queue() {
    let ui = UiState::new();
    assert_eq!(Gameboy::FRAME_DURATION, 16_750_418);
    assert_eq!(ui.frame_time(), 16_750_418);
    assert_eq!(ui.rest_time(100, 30), 70);
    assert_eq!(ui.rest_time(100, 100), 0);
    assert_eq!(ui.rest_time(100, 130), 0);
    assert!(!ui.drops_queue(true, MAX_QUEUED_BYTES));
    assert!(ui.drops_queue(true, MAX_QUEUED_BYTES + 1));
    assert!(!ui.drops_queue(false, MAX_QUEUED_BYTES + 1));
}
