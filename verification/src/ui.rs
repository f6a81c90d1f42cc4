//! Decisions of the window: what its events do, and how frames are paced.
use vstd::prelude::*;

use crate::config::{controller_button_to_joypad_input, keycode_to_joypad_input, Button, Config};
use crate::gameboy::Gameboy;
use crate::joypad::JoypadEvent;

verus! {

/// Codes of the command keys.
pub const KEY_ESCAPE: i32 = 27;

pub const KEY_MINUS: i32 = 45;

pub const KEY_0: i32 = 48;

pub const KEY_SEMICOLON: i32 = 59;

pub const KEY_EQUALS: i32 = 61;

pub const KEY_K: i32 = 107;

pub const KEY_L: i32 = 108;

pub const KEY_O: i32 = 111;

pub const KEY_P: i32 = 112;

/// Bytes of queued sound, about three frames' worth, above which the queue is dropped.
pub const MAX_QUEUED_BYTES: usize = 8868;

/// What happened to the window, the keyboard or a controller.
#[derive(Clone, Copy, Debug, PartialEq, Eq, Structural)]
pub enum UiEvent {
    Quit,
    KeyDown(i32),
    KeyUp(i32),
    ButtonDown(Button),
    ButtonUp(Button),
    ControllerAdded(u32),
    ControllerRemoved,
    /// The window was minimized or lost the focus.
    Hidden,
    /// The window was restored or exposed, or gained the focus.
    Shown,
    Other,
}

/// What is to be done about an event.
#[derive(Clone, Copy, Debug, PartialEq, Eq, Structural)]
pub enum UiAction {
    Nothing,
    Quit,
    Reset,
    /// The count of frames starts anew.
    RestartCount,
    SaveState,
    LoadState,
    Joypad(JoypadEvent),
    OpenController(u32),
    CloseControllers,
    RenewTexture,
}

/// State of the window.
#[derive(Clone, Copy, Debug, PartialEq, Eq, Structural)]
pub struct UiState {
    /// Frames that are run in the time of one.
    pub speed: u8,
    pub paused: bool,
    /// A grid is drawn over the frame.
    pub outline: bool,
    pub fast_forward: bool,
    /// The window is hidden.
    pub minimized: bool,
}

impl UiState {
    /// The state and the action when a key goes down. Quitting and resetting come first, the
    /// speed keys and the fast-forward key count only out of fast-forward, and a key that is
    /// no command may be a joypad button.
    pub open spec fn after_key_down(self, code: i32, config: Config) -> (UiState, UiAction) {
        if code == KEY_ESCAPE {
            (self, UiAction::Quit)
        } else if code == KEY_SEMICOLON {
            (self, UiAction::Reset)
        } else if code == KEY_EQUALS && !self.fast_forward {
            (UiState { speed: self.speed.wrapping_add(1), ..self }, UiAction::Nothing)
        } else if code == KEY_MINUS && !self.fast_forward {
            (UiState { speed: self.speed.wrapping_sub(1), ..self }, UiAction::Nothing)
        } else if code == KEY_0 && !self.fast_forward {
            (UiState { speed: 1, ..self }, UiAction::Nothing)
        } else if code == config.key_ff && !self.fast_forward {
            (UiState { fast_forward: true, ..self }, UiAction::RestartCount)
        } else if code == KEY_P {
            (UiState { paused: !self.paused, ..self }, UiAction::Nothing)
        } else if code == KEY_O {
            (UiState { outline: !self.outline, ..self }, UiAction::Nothing)
        } else if code == KEY_K {
            (self, UiAction::SaveState)
        } else if code == KEY_L {
            (self, UiAction::LoadState)
        } else {
            match config.input_of_key(code) {
                Some(input) => (self, UiAction::Joypad(JoypadEvent::Down(input))),
                None => (self, UiAction::Nothing),
            }
        }
    }

    /// The state and the action when a key goes up.
    pub open spec fn after_key_up(self, code: i32, config: Config) -> (UiState, UiAction) {
        if code == config.key_ff && self.fast_forward {
            (UiState { fast_forward: false, ..self }, UiAction::RestartCount)
        } else {
            match config.input_of_key(code) {
                Some(input) => (self, UiAction::Joypad(JoypadEvent::Up(input))),
                None => (self, UiAction::Nothing),
            }
        }
    }

    /// The state and the action when a controller button goes down.
    pub open spec fn after_button_down(self, button: Button, config: Config) -> (
        UiState,
        UiAction,
    ) {
        if button == config.ctrl_ff && !self.fast_forward {
            (UiState { fast_forward: true, ..self }, UiAction::RestartCount)
        } else {
            match config.input_of_button(button) {
                Some(input) => (self, UiAction::Joypad(JoypadEvent::Down(input))),
                None => (self, UiAction::Nothing),
            }
        }
    }

    /// The state and the action when a controller button goes up.
    pub open spec fn after_button_up(self, button: Button, config: Config) -> (UiState, UiAction) {
        if button == config.ctrl_ff && self.fast_forward {
            (UiState { fast_forward: false, ..self }, UiAction::RestartCount)
        } else {
            match config.input_of_button(button) {
                Some(input) => (self, UiAction::Joypad(JoypadEvent::Up(input))),
                None => (self, UiAction::Nothing),
            }
        }
    }

    /// The state and the action after an event.
    pub open spec fn after(self, event: UiEvent, config: Config) -> (UiState, UiAction) {
        match event {
            UiEvent::Quit => (self, UiAction::Quit),
            UiEvent::KeyDown(code) => self.after_key_down(code, config),
            UiEvent::KeyUp(code) => self.after_key_up(code, config),
            UiEvent::ButtonDown(button) => self.after_button_down(button, config),
            UiEvent::ButtonUp(button) => self.after_button_up(button, config),
            UiEvent::ControllerAdded(which) => (self, UiAction::OpenController(which)),
            UiEvent::ControllerRemoved => (self, UiAction::CloseControllers),
            UiEvent::Hidden => (UiState { minimized: true, ..self }, UiAction::Nothing),
            UiEvent::Shown => (UiState { minimized: false, ..self }, UiAction::RenewTexture),
            UiEvent::Other => (self, UiAction::Nothing),
        }
    }

    /// The machine runs.
    pub open spec fn runs(self) -> bool {
        !self.paused && !self.minimized
    }

    pub fn new() -> (r: Self)
        ensures
            r == (UiState {
                speed: 1,
                paused: false,
                outline: false,
                fast_forward: false,
                minimized: false,
            }),
    {
        Self { speed: 1, paused: false, outline: false, fast_forward: false, minimized: false }
    }

    fn key_down(&mut self, code: i32, config: &Config) -> (r: UiAction)
        ensures
            (*final(self), r) == old(self).after_key_down(code, *config),
    {
        if code == KEY_ESCAPE {
            UiAction::Quit
        } else if code == KEY_SEMICOLON {
            UiAction::Reset
        } else if code == KEY_EQUALS && !self.fast_forward {
            self.speed = self.speed.wrapping_add(1);
            UiAction::Nothing
        } else if code == KEY_MINUS && !self.fast_forward {
            self.speed = self.speed.wrapping_sub(1);
            UiAction::Nothing
        } else if code == KEY_0 && !self.fast_forward {
            self.speed = 1;
            UiAction::Nothing
        } else if !self.fast_forward && code == config.key_ff {
            self.fast_forward = true;
            UiAction::RestartCount
        } else if code == KEY_P {
            self.paused = !self.paused;
            UiAction::Nothing
        } else if code == KEY_O {
            self.outline = !self.outline;
            UiAction::Nothing
        } else if code == KEY_K {
            UiAction::SaveState
        } else if code == KEY_L {
            UiAction::LoadState
        } else {
            match keycode_to_joypad_input(code, config) {
                Some(input) => UiAction::Joypad(JoypadEvent::Down(input)),
                None => UiAction::Nothing,
            }
        }
    }

    fn key_up(&mut self, code: i32, config: &Config) -> (r: UiAction)
        ensures
            (*final(self), r) == old(self).after_key_up(code, *config),
    {
        if self.fast_forward && code == config.key_ff {
            self.fast_forward = false;
            UiAction::RestartCount
        } else {
            match keycode_to_joypad_input(code, config) {
                Some(input) => UiAction::Joypad(JoypadEvent::Up(input)),
                None => UiAction::Nothing,
            }
        }
    }

    fn button_down(&mut self, button: Button, config: &Config) -> (r: UiAction)
        ensures
            (*final(self), r) == old(self).after_button_down(button, *config),
    {
        if !self.fast_forward && button == config.ctrl_ff {
            self.fast_forward = true;
            UiAction::RestartCount
        } else {
            match controller_button_to_joypad_input(button, config) {
                Some(input) => UiAction::Joypad(JoypadEvent::Down(input)),
                None => UiAction::Nothing,
            }
        }
    }

    fn button_up(&mut self, button: Button, config: &Config) -> (r: UiAction)
        ensures
            (*final(self), r) == old(self).after_button_up(button, *config),
    {
        if self.fast_forward && button == config.ctrl_ff {
            self.fast_forward = false;
            UiAction::RestartCount
        } else {
            match controller_button_to_joypad_input(button, config) {
                Some(input) => UiAction::Joypad(JoypadEvent::Up(input)),
                None => UiAction::Nothing,
            }
        }
    }

    /// Takes an event and says what is to be done about it.
    pub fn handle(&mut self, event: UiEvent, config: &Config) -> (r: UiAction)
        ensures
            (*final(self), r) == old(self).after(event, *config),
    {
        match event {
            UiEvent::Quit => UiAction::Quit,
            UiEvent::KeyDown(code) => self.key_down(code, config),
            UiEvent::KeyUp(code) => self.key_up(code, config),
            UiEvent::ButtonDown(button) => self.button_down(button, config),
            UiEvent::ButtonUp(button) => self.button_up(button, config),
            UiEvent::ControllerAdded(which) => UiAction::OpenController(which),
            UiEvent::ControllerRemoved => UiAction::CloseControllers,
            UiEvent::Hidden => {
                self.minimized = true;
                UiAction::Nothing
            },
            UiEvent::Shown => {
                self.minimized = false;
                UiAction::RenewTexture
            },
            UiEvent::Other => UiAction::Nothing,
        }
    }

    /// The machine runs.
    pub fn is_running(&self) -> (r: bool)
        ensures
            r == self.runs(),
    {
        !self.paused && !self.minimized
    }

    /// Time of a frame at this speed, in nanoseconds.
    pub fn frame_time(&self) -> (r: u64)
        requires
            self.speed != 0,
        ensures
            r == Gameboy::FRAME_DURATION / self.speed as u64,
            r == 16_750_418int / self.speed as int,
    {
        Gameboy::FRAME_DURATION / self.speed as u64
    }

    /// Time to sleep at the end of a frame, in nanoseconds.
    pub fn rest_time(&self, frame_time: u64, elapsed: u64) -> (r: u64)
        ensures
            r == if self.fast_forward || elapsed >= frame_time {
                0
            } else {
                frame_time - elapsed
            },
    {
        if !self.fast_forward && elapsed < frame_time {
            frame_time - elapsed
        } else {
            0
        }
    }

    /// The queued sound is dropped: when fast-forwarding, and when new samples come while
    /// too much is queued.
    pub fn drops_queue(&self, has_samples: bool, queued: usize) -> (r: bool)
        ensures
            r == (self.fast_forward || (has_samples && queued > MAX_QUEUED_BYTES)),
            r <==> self.fast_forward || (has_samples && queued > 8868),
    {
        self.fast_forward || (has_samples && queued > MAX_QUEUED_BYTES)
    }

    /// The speed stays as it is while fast-forwarding.
    pub proof fn law_speed_is_fixed_in_fast_forward(self, event: UiEvent, config: Config)
        requires
            self.fast_forward,
        ensures
            self.after(event, config).0.speed == self.speed,
    {
    }

    /// Fast-forward lasts as long as its key is held down, if that key is no command that
    /// comes first.
    pub proof fn law_fast_forward_while_held(self, config: Config)
        requires
            !self.fast_forward,
            config.key_ff != KEY_ESCAPE,
            config.key_ff != KEY_SEMICOLON,
            config.key_ff != KEY_EQUALS,
            config.key_ff != KEY_MINUS,
            config.key_ff != KEY_0,
        ensures
            ({
                let held = self.after(UiEvent::KeyDown(config.key_ff), config).0;
                &&& held.fast_forward
                &&& held.after(UiEvent::KeyUp(config.key_ff), config).0 == self
            }),
    {
    }

    /// The pause key and the outline key undo themselves, unless one of them is bound to
    /// fast-forward.
    pub proof fn law_toggles_undo_themselves(self, config: Config)
        requires
            config.key_ff != KEY_P,
            config.key_ff != KEY_O,
        ensures
            ({
                let paused = self.after(UiEvent::KeyDown(KEY_P), config).0;
                &&& paused.paused != self.paused
                &&& paused.after(UiEvent::KeyDown(KEY_P), config).0 == self
            }),
            ({
                let outlined = self.after(UiEvent::KeyDown(KEY_O), config).0;
                &&& outlined.outline != self.outline
                &&& outlined.after(UiEvent::KeyDown(KEY_O), config).0 == self
            }),
    {
    }

    /// A hidden window stops the machine.
    pub proof fn law_hidden_stops(self, config: Config)
        ensures
            !self.after(UiEvent::Hidden, config).0.runs(),
            self.after(UiEvent::Shown, config).0.runs() == !self.paused,
    {
    }
}

impl UiState {
    /// The command keys: escape quits, the semicolon resets, `P` pauses, `O` draws the grid,
    /// `K` saves and `L` loads. None of them is passed on to the joypad, and the last four
    /// give way to fast-forward if that is bound to them.
    pub proof fn law_command_keys(self, config: Config)
        ensures
            ({
                let press = |code: i32| self.after(UiEvent::KeyDown(code), config);
                let free = |code: i32| config.key_ff != code || self.fast_forward;
                &&& press(27) == (self, UiAction::Quit)
                &&& press(59) == (self, UiAction::Reset)
                &&& free(112) ==> press(112) == (
                    UiState { paused: !self.paused, ..self },
                    UiAction::Nothing,
                )
                &&& free(111) ==> press(111) == (
                    UiState { outline: !self.outline, ..self },
                    UiAction::Nothing,
                )
                &&& free(107) ==> press(107) == (self, UiAction::SaveState)
                &&& free(108) ==> press(108) == (self, UiAction::LoadState)
            }),
    {
    }

    /// The speed keys: the equals key raises the speed by one, the minus key lowers it by one,
    /// and zero sets it to one.
    pub proof fn law_speed_keys(self, config: Config)
        requires
            !self.fast_forward,
        ensures
            ({
                let press = |code: i32| self.after(UiEvent::KeyDown(code), config);
                let at = |speed: int| UiState { speed: speed as u8, ..self };
                &&& self.speed < 255 ==> press(61) == (at(self.speed + 1), UiAction::Nothing)
                &&& self.speed > 0 ==> press(45) == (at(self.speed - 1), UiAction::Nothing)
                &&& press(48) == (at(1), UiAction::Nothing)
            }),
    {
    }

    /// A key that is no command presses the button it is bound to when it goes down, and lets
    /// it go when it goes up.
    pub proof fn law_keys_reach_joypad(self, code: i32, config: Config)
        requires
            code != config.key_ff,
            code != 27 && code != 59 && code != 61 && code != 45 && code != 48,
            code != 112 && code != 111 && code != 107 && code != 108,
        ensures
            ({
                let down = self.after(UiEvent::KeyDown(code), config);
                let up = self.after(UiEvent::KeyUp(code), config);
                &&& down.0 == self && up.0 == self
                &&& match config.input_of_key(code) {
                    Some(input) => down.1 == UiAction::Joypad(JoypadEvent::Down(input)) && up.1
                        == UiAction::Joypad(JoypadEvent::Up(input)),
                    None => down.1 == UiAction::Nothing && up.1 == UiAction::Nothing,
                }
            }),
    {
    }

    /// Controller buttons do the same, and the one for fast-forward starts it when it goes
    /// down and ends it when it goes up.
    pub proof fn law_controls_reach_joypad(self, button: Button, config: Config)
        ensures
            ({
                let down = self.after(UiEvent::ButtonDown(button), config);
                let up = self.after(UiEvent::ButtonUp(button), config);
                &&& button != config.ctrl_ff ==> down.0 == self && up.0 == self && (
                match config.input_of_button(button) {
                    Some(input) => down.1 == UiAction::Joypad(JoypadEvent::Down(input)) && up.1
                        == UiAction::Joypad(JoypadEvent::Up(input)),
                    None => down.1 == UiAction::Nothing && up.1 == UiAction::Nothing,
                })
                &&& button == config.ctrl_ff && !self.fast_forward ==> down == (
                    UiState { fast_forward: true, ..self },
                    UiAction::RestartCount,
                )
                &&& button == config.ctrl_ff && self.fast_forward ==> up == (
                    UiState { fast_forward: false, ..self },
                    UiAction::RestartCount,
                )
            }),
    {
    }

    /// Events of the window and of the list of controllers.
    pub proof fn law_other_events(self, which: u32, config: Config)
        ensures
            self.after(UiEvent::Quit, config) == (self, UiAction::Quit),
            self.after(UiEvent::ControllerAdded(which), config) == (
                self,
                UiAction::OpenController(which),
            ),
            self.after(UiEvent::ControllerRemoved, config) == (self, UiAction::CloseControllers),
            self.after(UiEvent::Hidden, config) == (
                UiState { minimized: true, ..self },
                UiAction::Nothing,
            ),
            self.after(UiEvent::Shown, config) == (
                UiState { minimized: false, ..self },
                UiAction::RenewTexture,
            ),
            self.after(UiEvent::Other, config) == (self, UiAction::Nothing),
            self.runs() <==> !self.paused && !self.minimized,
    {
    }
}

} // verus!
