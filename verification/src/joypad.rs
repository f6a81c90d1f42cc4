//! Buttons of the machine.
use vstd::prelude::*;

use crate::bits::{bit, lemma_mask_tests_bit};

verus! {

/// Buttons.
#[derive(Clone, Copy, Debug, PartialEq, Eq, Structural)]
pub enum JoypadInput {
    A,
    B,
    Select,
    Start,
    Right,
    Left,
    Up,
    Down,
}

/// A button went up or down.
#[derive(Clone, Copy, Debug, PartialEq, Eq, Structural)]
pub enum JoypadEvent {
    Up(JoypadInput),
    Down(JoypadInput),
}

/// Joypad register. The program selects one or both rows of buttons and reads a zero for
/// each button that is held down.
#[derive(Clone, Copy, Debug, PartialEq, Eq, Structural)]
pub struct Joypad {
    /// Bits four and five as written: a zero selects the directions, or the buttons.
    pub select: u8,
    /// Buttons that are held down: A, B, select, start, from the lowest bit up.
    pub buttons: u8,
    /// Directions that are held down: right, left, up, down, from the lowest bit up.
    pub directions: u8,
}

impl JoypadInput {
    /// The button lies in the row of directions.
    pub open spec fn is_direction(self) -> bool {
        self == JoypadInput::Right || self == JoypadInput::Left || self == JoypadInput::Up || self
            == JoypadInput::Down
    }

    /// The button's bit in its row.
    pub open spec fn spec_mask(self) -> u8 {
        match self {
            JoypadInput::A | JoypadInput::Right => 1,
            JoypadInput::B | JoypadInput::Left => 2,
            JoypadInput::Select | JoypadInput::Up => 4,
            JoypadInput::Start | JoypadInput::Down => 8,
        }
    }

    fn direction(self) -> (r: bool)
        ensures
            r == self.is_direction(),
    {
        match self {
            JoypadInput::Right | JoypadInput::Left | JoypadInput::Up | JoypadInput::Down => true,
            _ => false,
        }
    }

    fn mask(self) -> (r: u8)
        ensures
            r == self.spec_mask(),
    {
        match self {
            JoypadInput::A | JoypadInput::Right => 1,
            JoypadInput::B | JoypadInput::Left => 2,
            JoypadInput::Select | JoypadInput::Up => 4,
            JoypadInput::Start | JoypadInput::Down => 8,
        }
    }
}

impl Joypad {
    /// Bytes of the stored form.
    pub open spec fn spec_len() -> int {
        3
    }

    /// No row selected, no button down.
    pub open spec fn idle() -> Joypad {
        Joypad { select: 0x30, buttons: 0, directions: 0 }
    }

    /// The button is held down.
    pub open spec fn holds(self, input: JoypadInput) -> bool {
        let row = if input.is_direction() { self.directions } else { self.buttons };
        row & input.spec_mask() != 0
    }

    /// The joypad after an event.
    pub open spec fn after(self, event: JoypadEvent) -> Joypad {
        match event {
            JoypadEvent::Down(input) => if input.is_direction() {
                Joypad { directions: self.directions | input.spec_mask(), ..self }
            } else {
                Joypad { buttons: self.buttons | input.spec_mask(), ..self }
            },
            JoypadEvent::Up(input) => if input.is_direction() {
                Joypad { directions: self.directions & !input.spec_mask(), ..self }
            } else {
                Joypad { buttons: self.buttons & !input.spec_mask(), ..self }
            },
        }
    }

    /// The event presses a button that was not held down.
    pub open spec fn pressed_by(self, event: JoypadEvent) -> bool {
        event matches JoypadEvent::Down(input) && !self.holds(input)
    }

    /// The value of the register.
    pub open spec fn register(self) -> u8 {
        let buttons = if self.select & 0x20 == 0 { self.buttons } else { 0 };
        let directions = if self.select & 0x10 == 0 { self.directions } else { 0 };
        0xC0 | self.select | (!(buttons | directions) & 0x0F)
    }

    /// The joypad after a write to the register.
    pub open spec fn written(self, value: u8) -> Joypad {
        Joypad { select: value & 0x30, ..self }
    }

    /// The stored form.
    pub open spec fn encode(self) -> Seq<u8> {
        seq![self.select, self.buttons, self.directions]
    }

    /// What is stored at `i`.
    pub open spec fn decode(s: Seq<u8>, i: int) -> Joypad {
        Joypad { select: s[i], buttons: s[i + 1], directions: s[i + 2] }
    }

    pub fn new() -> (r: Self)
        ensures
            r == Self::idle(),
    {
        Self { select: 0x30, buttons: 0, directions: 0 }
    }

    /// Takes an event and says whether it presses a button.
    pub fn handle_event(&mut self, event: &JoypadEvent) -> (r: bool)
        ensures
            *final(self) == old(self).after(*event),
            r == old(self).pressed_by(*event),
    {
        match *event {
            JoypadEvent::Down(input) => {
                let mask = input.mask();
                if input.direction() {
                    let pressed = self.directions & mask == 0;
                    self.directions = self.directions | mask;
                    pressed
                } else {
                    let pressed = self.buttons & mask == 0;
                    self.buttons = self.buttons | mask;
                    pressed
                }
            },
            JoypadEvent::Up(input) => {
                let mask = input.mask();
                if input.direction() {
                    self.directions = self.directions & !mask;
                } else {
                    self.buttons = self.buttons & !mask;
                }
                false
            },
        }
    }

    /// Reads the register.
    pub fn read(&self) -> (r: u8)
        ensures
            r == self.register(),
    {
        let buttons: u8 = if self.select & 0x20 == 0 { self.buttons } else { 0 };
        let directions: u8 = if self.select & 0x10 == 0 { self.directions } else { 0 };
        0xC0 | self.select | (!(buttons | directions) & 0x0F)
    }

    /// Writes the register.
    pub fn write(&mut self, value: u8)
        ensures
            *final(self) == old(self).written(value),
    {
        self.select = value & 0x30;
    }

    /// A button is held down from the event that presses it to the one that lets it go, and
    /// other buttons are not touched.
    pub proof fn law_event_holds(self, input: JoypadInput, other: JoypadInput)
        ensures
            self.after(JoypadEvent::Down(input)).holds(input),
            !self.after(JoypadEvent::Up(input)).holds(input),
            other != input ==> self.after(JoypadEvent::Down(input)).holds(other) == self.holds(
                other,
            ),
            other != input ==> self.after(JoypadEvent::Up(input)).holds(other) == self.holds(other),
    {
        let row = if input.is_direction() { self.directions } else { self.buttons };
        lemma_mask(row, input.spec_mask(), other.spec_mask());
    }
}

proof fn lemma_mask(row: u8, m: u8, o: u8)
    by (bit_vector)
    requires
        m == 1 || m == 2 || m == 4 || m == 8,
        o == 1 || o == 2 || o == 4 || o == 8,
    ensures
        (row | m) & m != 0,
        (row & !m) & m == 0,
        m != o ==> (row | m) & o == row & o,
        m != o ==> (row & !m) & o == row & o,
{
}

impl Joypad {
    /// The bits that the buttons have in their rows: A, B, select, start, and right, left, up,
    /// down, from the lowest. An event sets or clears the bit of its button and no other.
    pub proof fn law_button_bits(self)
        ensures
            ({
                let down = |input: JoypadInput| self.after(JoypadEvent::Down(input));
                let up = |input: JoypadInput| self.after(JoypadEvent::Up(input));
                let b = self.buttons;
                let d = self.directions;
                &&& down(JoypadInput::A) == (Joypad { buttons: b | 0x01, ..self })
                &&& down(JoypadInput::B) == (Joypad { buttons: b | 0x02, ..self })
                &&& down(JoypadInput::Select) == (Joypad { buttons: b | 0x04, ..self })
                &&& down(JoypadInput::Start) == (Joypad { buttons: b | 0x08, ..self })
                &&& down(JoypadInput::Right) == (Joypad { directions: d | 0x01, ..self })
                &&& down(JoypadInput::Left) == (Joypad { directions: d | 0x02, ..self })
                &&& down(JoypadInput::Up) == (Joypad { directions: d | 0x04, ..self })
                &&& down(JoypadInput::Down) == (Joypad { directions: d | 0x08, ..self })
                &&& up(JoypadInput::A) == (Joypad { buttons: b & 0xFE, ..self })
                &&& up(JoypadInput::B) == (Joypad { buttons: b & 0xFD, ..self })
                &&& up(JoypadInput::Select) == (Joypad { buttons: b & 0xFB, ..self })
                &&& up(JoypadInput::Start) == (Joypad { buttons: b & 0xF7, ..self })
                &&& up(JoypadInput::Right) == (Joypad { directions: d & 0xFE, ..self })
                &&& up(JoypadInput::Left) == (Joypad { directions: d & 0xFD, ..self })
                &&& up(JoypadInput::Up) == (Joypad { directions: d & 0xFB, ..self })
                &&& up(JoypadInput::Down) == (Joypad { directions: d & 0xF7, ..self })
            }),
    {
        assert(!1u8 == 0xFE && !2u8 == 0xFD && !4u8 == 0xFB && !8u8 == 0xF7) by (bit_vector);
    }

    /// Bits 4 and 5 of the register are those written last. A clear bit 5 shows the buttons, a
    /// clear bit 4 the directions: each of bits 0 to 3 is clear exactly where a row that is
    /// shown has a button held down. Bits 6 and 7 are set.
    pub proof fn law_register_shows_rows(self, v: u8, n: int)
        requires
            0 <= n < 4,
        ensures
            ({
                let s = self.written(v);
                let r = s.register();
                &&& bit(r, 7) && bit(r, 6)
                &&& bit(r, 5) == bit(v, 5)
                &&& bit(r, 4) == bit(v, 4)
                &&& bit(r, n) <==> !((!bit(v, 5) && bit(self.buttons, n)) || (!bit(v, 4) && bit(
                    self.directions,
                    n,
                )))
                &&& s == (Joypad { select: s.select, ..self })
            }),
    {
        let s = self.written(v);
        lemma_mask_tests_bit(v);
        lemma_mask_tests_bit(s.select);
        lemma_mask_tests_bit(s.register());
        lemma_mask_tests_bit(self.buttons);
        lemma_mask_tests_bit(self.directions);
        lemma_rows(v, self.buttons, self.directions);
    }

    /// A press is the event that takes down a button that was up.
    pub proof fn law_press_is_down_of_released(self, input: JoypadInput)
        ensures
            !self.pressed_by(JoypadEvent::Up(input)),
            !self.after(JoypadEvent::Down(input)).pressed_by(JoypadEvent::Down(input)),
            self.after(JoypadEvent::Up(input)).pressed_by(JoypadEvent::Down(input)),
    {
        self.law_event_holds(input, input);
    }
}

proof fn lemma_rows(v: u8, b: u8, d: u8)
    by (bit_vector)
    ensures
        ({
            let select = v & 0x30;
            let buttons = if select & 0x20 == 0 { b } else { 0 };
            let directions = if select & 0x10 == 0 { d } else { 0 };
            let r = 0xC0 | select | (!(buttons | directions) & 0x0F);
            &&& r & 0x80 != 0 && r & 0x40 != 0
            &&& (r & 0x20 != 0) == (v & 0x20 != 0)
            &&& (r & 0x10 != 0) == (v & 0x10 != 0)
            &&& (select & 0x20 != 0) == (v & 0x20 != 0)
            &&& (select & 0x10 != 0) == (v & 0x10 != 0)
            &&& (r & 1 != 0) == !((v & 0x20 == 0 && b & 1 != 0) || (v & 0x10 == 0 && d & 1 != 0))
            &&& (r & 2 != 0) == !((v & 0x20 == 0 && b & 2 != 0) || (v & 0x10 == 0 && d & 2 != 0))
            &&& (r & 4 != 0) == !((v & 0x20 == 0 && b & 4 != 0) || (v & 0x10 == 0 && d & 4 != 0))
            &&& (r & 8 != 0) == !((v & 0x20 == 0 && b & 8 != 0) || (v & 0x10 == 0 && d & 8 != 0))
        }),
{
}

} // verus!
