//! What bindings mean, and what a text binds.
use vstd::prelude::*;

use crate::config::{
    button_named, entries_from, entry_of, is_space, key_names, last_of, place_of, trimmed,
    trimmed_end, trimmed_start, Button, Config,
};
use crate::joypad::JoypadInput;

verus! {

impl Config {
    /// No two of the eight keys that stand for a button are the same.
    pub open spec fn keys_differ(self) -> bool {
        let keys = seq![
            self.key_a,
            self.key_b,
            self.key_select,
            self.key_start,
            self.key_right,
            self.key_left,
            self.key_up,
            self.key_down,
        ];
        forall|i: int, j: int| 0 <= i < j < 8 ==> keys[i] != keys[j]
    }

    /// Each key gives the button that its binding is named after.
    pub proof fn law_keys_give_their_buttons(self)
        requires
            self.keys_differ(),
        ensures
            self.input_of_key(self.key_a) == Some(JoypadInput::A),
            self.input_of_key(self.key_b) == Some(JoypadInput::B),
            self.input_of_key(self.key_select) == Some(JoypadInput::Select),
            self.input_of_key(self.key_start) == Some(JoypadInput::Start),
            self.input_of_key(self.key_right) == Some(JoypadInput::Right),
            self.input_of_key(self.key_left) == Some(JoypadInput::Left),
            self.input_of_key(self.key_up) == Some(JoypadInput::Up),
            self.input_of_key(self.key_down) == Some(JoypadInput::Down),
    {
        let keys = seq![
            self.key_a,
            self.key_b,
            self.key_select,
            self.key_start,
            self.key_right,
            self.key_left,
            self.key_up,
            self.key_down,
        ];
        assert(keys[0] == self.key_a && keys[1] == self.key_b && keys[2] == self.key_select
            && keys[3] == self.key_start && keys[4] == self.key_right && keys[5] == self.key_left
            && keys[6] == self.key_up && keys[7] == self.key_down);
        assert(forall|i: int, j: int| 0 <= i < j < 8 ==> #[trigger] keys[i] != #[trigger] keys[j]);
    }

    /// A key that is bound to none of the eight buttons gives none, and one that gives a
    /// button is bound to it: of two buttons with one key the first of A, B, start, select, up,
    /// down, left and right counts.
    pub proof fn law_only_bound_keys_give_buttons(self, code: i32)
        ensures
            ({
                let given = self.input_of_key(code);
                let a = code == self.key_a;
                let b = code == self.key_b;
                let start = code == self.key_start;
                let select = code == self.key_select;
                let up = code == self.key_up;
                let down = code == self.key_down;
                let left = code == self.key_left;
                let right = code == self.key_right;
                let buttons = a || b || start || select;
                &&& given is Some <==> buttons || up || down || left || right
                &&& given == Some(JoypadInput::A) <==> a
                &&& given == Some(JoypadInput::B) <==> b && !a
                &&& given == Some(JoypadInput::Start) <==> start && !a && !b
                &&& given == Some(JoypadInput::Select) <==> select && !a && !b && !start
                &&& given == Some(JoypadInput::Up) <==> up && !buttons
                &&& given == Some(JoypadInput::Down) <==> down && !buttons && !up
                &&& given == Some(JoypadInput::Left) <==> left && !buttons && !up && !down
                &&& given == Some(JoypadInput::Right) <==> right && !buttons && !up && !down
                    && !left
            }),
    {
    }

    /// No two of the eight controller buttons that stand for a button are the same.
    pub open spec fn controls_differ(self) -> bool {
        let controls = seq![
            self.ctrl_a,
            self.ctrl_b,
            self.ctrl_select,
            self.ctrl_start,
            self.ctrl_right,
            self.ctrl_left,
            self.ctrl_up,
            self.ctrl_down,
        ];
        forall|i: int, j: int| 0 <= i < j < 8 ==> controls[i] != controls[j]
    }

    /// Each controller button gives the button that its binding is named after.
    pub proof fn law_controls_give_their_buttons(self)
        requires
            self.controls_differ(),
        ensures
            self.input_of_button(self.ctrl_a) == Some(JoypadInput::A),
            self.input_of_button(self.ctrl_b) == Some(JoypadInput::B),
            self.input_of_button(self.ctrl_select) == Some(JoypadInput::Select),
            self.input_of_button(self.ctrl_start) == Some(JoypadInput::Start),
            self.input_of_button(self.ctrl_right) == Some(JoypadInput::Right),
            self.input_of_button(self.ctrl_left) == Some(JoypadInput::Left),
            self.input_of_button(self.ctrl_up) == Some(JoypadInput::Up),
            self.input_of_button(self.ctrl_down) == Some(JoypadInput::Down),
    {
        let controls = seq![
            self.ctrl_a,
            self.ctrl_b,
            self.ctrl_select,
            self.ctrl_start,
            self.ctrl_right,
            self.ctrl_left,
            self.ctrl_up,
            self.ctrl_down,
        ];
        assert(controls[0] == self.ctrl_a && controls[1] == self.ctrl_b && controls[2]
            == self.ctrl_select && controls[3] == self.ctrl_start && controls[4] == self.ctrl_right
            && controls[5] == self.ctrl_left && controls[6] == self.ctrl_up && controls[7]
            == self.ctrl_down);
        assert(forall|i: int, j: int|
            0 <= i < j < 8 ==> #[trigger] controls[i] != #[trigger] controls[j]);
    }

    /// The same of controller buttons that are bound to none, or to two of the eight.
    pub proof fn law_only_bound_controls_give_buttons(self, button: Button)
        ensures
            ({
                let given = self.input_of_button(button);
                let a = button == self.ctrl_a;
                let b = button == self.ctrl_b;
                let start = button == self.ctrl_start;
                let select = button == self.ctrl_select;
                let up = button == self.ctrl_up;
                let down = button == self.ctrl_down;
                let left = button == self.ctrl_left;
                let right = button == self.ctrl_right;
                let buttons = a || b || start || select;
                &&& given is Some <==> buttons || up || down || left || right
                &&& given == Some(JoypadInput::A) <==> a
                &&& given == Some(JoypadInput::B) <==> b && !a
                &&& given == Some(JoypadInput::Start) <==> start && !a && !b
                &&& given == Some(JoypadInput::Select) <==> select && !a && !b && !start
                &&& given == Some(JoypadInput::Up) <==> up && !buttons
                &&& given == Some(JoypadInput::Down) <==> down && !buttons && !up
                &&& given == Some(JoypadInput::Left) <==> left && !buttons && !up && !down
                &&& given == Some(JoypadInput::Right) <==> right && !buttons && !up && !down
                    && !left
            }),
    {
    }

    /// The standard bindings: `Z` and `X`, the right shift key and return, the arrow keys, `S`
    /// and `A`, and tab; of the controller, its buttons of the same names, with A and B the
    /// other way round. All of them differ.
    pub proof fn law_standard_bindings()
        ensures
            ({
                let c = Config::standard();
                &&& c.key_a == 'z' as i32 && c.key_b == 'x' as i32
                &&& c.key_r == 's' as i32 && c.key_l == 'a' as i32
                &&& c.key_start == 13 && c.key_ff == 9
                &&& c.key_right == 0x4000_0000 + 79 && c.key_left == 0x4000_0000 + 80
                &&& c.key_down == 0x4000_0000 + 81 && c.key_up == 0x4000_0000 + 82
                &&& c.key_select == 0x4000_0000 + 229
                &&& c.ctrl_a == Button::B && c.ctrl_b == Button::A
                &&& c.ctrl_select == Button::Back && c.ctrl_start == Button::Start
                &&& c.ctrl_right == Button::DPadRight && c.ctrl_left == Button::DPadLeft
                &&& c.ctrl_up == Button::DPadUp && c.ctrl_down == Button::DPadDown
                &&& c.ctrl_r == Button::RightShoulder && c.ctrl_l == Button::LeftShoulder
                &&& c.ctrl_ff == Button::Y
                &&& c.keys_differ() && c.controls_differ()
            }),
    {
    }

    /// One more entry changes the binding that it names and no other: a key to what its value
    /// was found to name, a controller button to the one that its value names. A value that
    /// names no button leaves the standard one.
    pub proof fn law_entry_binds_its_name(
        entries: Seq<(Seq<char>, Seq<char>)>,
        codes: Seq<Option<i32>>,
        name: Seq<char>,
        value: Seq<char>,
    )
        ensures
            ({
                let had = Config::bound(entries, codes);
                let c = Config::bound(entries.push((name, value)), codes);
                &&& c.key_a == (if name == "key_a"@ && codes[0] is Some {
                    codes[0]->0
                } else {
                    had.key_a
                })
                &&& c.key_b == (if name == "key_b"@ && codes[1] is Some {
                    codes[1]->0
                } else {
                    had.key_b
                })
                &&& c.key_select == (if name == "key_select"@ && codes[2] is Some {
                    codes[2]->0
                } else {
                    had.key_select
                })
                &&& c.key_start == (if name == "key_start"@ && codes[3] is Some {
                    codes[3]->0
                } else {
                    had.key_start
                })
                &&& c.key_right == (if name == "key_right"@ && codes[4] is Some {
                    codes[4]->0
                } else {
                    had.key_right
                })
                &&& c.key_left == (if name == "key_left"@ && codes[5] is Some {
                    codes[5]->0
                } else {
                    had.key_left
                })
                &&& c.key_up == (if name == "key_up"@ && codes[6] is Some {
                    codes[6]->0
                } else {
                    had.key_up
                })
                &&& c.key_down == (if name == "key_down"@ && codes[7] is Some {
                    codes[7]->0
                } else {
                    had.key_down
                })
                &&& c.key_r == (if name == "key_r"@ && codes[8] is Some {
                    codes[8]->0
                } else {
                    had.key_r
                })
                &&& c.key_l == (if name == "key_l"@ && codes[9] is Some {
                    codes[9]->0
                } else {
                    had.key_l
                })
                &&& c.key_ff == (if name == "key_ff"@ && codes[10] is Some {
                    codes[10]->0
                } else {
                    had.key_ff
                })
                &&& c.ctrl_a == (if name == "ctrl_a"@ {
                    button_or(value, Config::standard().ctrl_a)
                } else {
                    had.ctrl_a
                })
                &&& c.ctrl_b == (if name == "ctrl_b"@ {
                    button_or(value, Config::standard().ctrl_b)
                } else {
                    had.ctrl_b
                })
                &&& c.ctrl_select == (if name == "ctrl_select"@ {
                    button_or(value, Config::standard().ctrl_select)
                } else {
                    had.ctrl_select
                })
                &&& c.ctrl_start == (if name == "ctrl_start"@ {
                    button_or(value, Config::standard().ctrl_start)
                } else {
                    had.ctrl_start
                })
                &&& c.ctrl_right == (if name == "ctrl_right"@ {
                    button_or(value, Config::standard().ctrl_right)
                } else {
                    had.ctrl_right
                })
                &&& c.ctrl_left == (if name == "ctrl_left"@ {
                    button_or(value, Config::standard().ctrl_left)
                } else {
                    had.ctrl_left
                })
                &&& c.ctrl_up == (if name == "ctrl_up"@ {
                    button_or(value, Config::standard().ctrl_up)
                } else {
                    had.ctrl_up
                })
                &&& c.ctrl_down == (if name == "ctrl_down"@ {
                    button_or(value, Config::standard().ctrl_down)
                } else {
                    had.ctrl_down
                })
                &&& c.ctrl_r == (if name == "ctrl_r"@ {
                    button_or(value, Config::standard().ctrl_r)
                } else {
                    had.ctrl_r
                })
                &&& c.ctrl_l == (if name == "ctrl_l"@ {
                    button_or(value, Config::standard().ctrl_l)
                } else {
                    had.ctrl_l
                })
                &&& c.ctrl_ff == (if name == "ctrl_ff"@ {
                    button_or(value, Config::standard().ctrl_ff)
                } else {
                    had.ctrl_ff
                })
            }),
    {
        lemma_pushed(entries, name, value, "key_a"@);
        lemma_pushed(entries, name, value, "key_b"@);
        lemma_pushed(entries, name, value, "key_select"@);
        lemma_pushed(entries, name, value, "key_start"@);
        lemma_pushed(entries, name, value, "key_right"@);
        lemma_pushed(entries, name, value, "key_left"@);
        lemma_pushed(entries, name, value, "key_up"@);
        lemma_pushed(entries, name, value, "key_down"@);
        lemma_pushed(entries, name, value, "key_r"@);
        lemma_pushed(entries, name, value, "key_l"@);
        lemma_pushed(entries, name, value, "key_ff"@);
        lemma_pushed(entries, name, value, "ctrl_a"@);
        lemma_pushed(entries, name, value, "ctrl_b"@);
        lemma_pushed(entries, name, value, "ctrl_select"@);
        lemma_pushed(entries, name, value, "ctrl_start"@);
        lemma_pushed(entries, name, value, "ctrl_right"@);
        lemma_pushed(entries, name, value, "ctrl_left"@);
        lemma_pushed(entries, name, value, "ctrl_up"@);
        lemma_pushed(entries, name, value, "ctrl_down"@);
        lemma_pushed(entries, name, value, "ctrl_r"@);
        lemma_pushed(entries, name, value, "ctrl_l"@);
        lemma_pushed(entries, name, value, "ctrl_ff"@);
    }
}

/// The keys are looked up in this order: what is found for the name at a place of the list is
/// bound to the key of that name.
pub proof fn law_keys_are_looked_up_in_order()
    ensures
        key_names() == seq![
            "key_a"@,
            "key_b"@,
            "key_select"@,
            "key_start"@,
            "key_right"@,
            "key_left"@,
            "key_up"@,
            "key_down"@,
            "key_r"@,
            "key_l"@,
            "key_ff"@,
        ],
        key_names().len() == 11,
{
}

/// The button of this name, or another one if there is none.
pub open spec fn button_or(value: Seq<char>, other: Button) -> Button {
    match button_named(value) {
        Some(button) => button,
        None => other,
    }
}

proof fn lemma_pushed(
    entries: Seq<(Seq<char>, Seq<char>)>,
    name: Seq<char>,
    value: Seq<char>,
    other: Seq<char>,
)
    ensures
        ({
            let more = entries.push((name, value));
            &&& other == name ==> last_of(more, other) == Some(entries.len() as int)
            &&& other != name ==> last_of(more, other) == last_of(entries, other)
            &&& last_of(entries, other) matches Some(i) ==> 0 <= i < entries.len() && more[i]
                == entries[i]
            &&& more[entries.len() as int] == (name, value)
        }),
{
    Config::law_later_entry_counts(entries, name, value, other);
    lemma_last_within(entries, other);
}

proof fn lemma_last_within(entries: Seq<(Seq<char>, Seq<char>)>, name: Seq<char>)
    ensures
        last_of(entries, name) matches Some(i) ==> 0 <= i < entries.len(),
    decreases entries.len(),
{
    if entries.len() > 0 && entries.last().0 != name {
        lemma_last_within(entries.drop_last(), name);
    }
}

/// The text is all white space.
pub open spec fn blank(s: Seq<char>) -> bool {
    forall|i: int| 0 <= i < s.len() ==> is_space(#[trigger] s[i])
}

/// The text is not empty, and neither starts nor ends with white space.
pub open spec fn bare(s: Seq<char>) -> bool {
    s.len() > 0 && !is_space(s[0]) && !is_space(s.last())
}

/// A line of a name, an equals sign and a value binds that name to that value, whatever
/// white space stands around the two.
pub proof fn law_line_binds_name_to_value(
    name: Seq<char>,
    value: Seq<char>,
    before: Seq<char>,
    behind_name: Seq<char>,
    behind_sign: Seq<char>,
    behind: Seq<char>,
)
    requires
        bare(name),
        bare(value),
        name[0] != '#',
        !name.contains('='),
        blank(before),
        blank(behind_name),
        blank(behind_sign),
        blank(behind),
    ensures
        entry_of(before + name + behind_name + seq!['='] + behind_sign + value + behind) == Some(
            (name, value),
        ),
{
    let line = before + name + behind_name + seq!['='] + behind_sign + value + behind;
    let left = name + behind_name;
    let right = behind_sign + value;
    let core = left + seq!['='] + right;
    assert(line =~= before + (core + behind));
    assert(core[0] == name[0]);
    assert(core.last() == value.last());
    lemma_padded(before, core, behind);
    let t = trimmed(line);
    assert(t == core);
    assert forall|i: int| 0 <= i < left.len() implies core[i] != '=' by {
        if i < name.len() {
            assert(core[i] == name[i]);
            if name[i] == '=' {
                assert(name.contains('='));
            }
        } else {
            assert(core[i] == behind_name[i - name.len()]);
            assert(is_space(behind_name[i - name.len()]));
            assert(!is_space('='));
        }
    }
    assert(core[left.len() as int] == '=');
    lemma_first_place(core, '=', 0, left.len() as int);
    assert(core.take(left.len() as int) =~= left);
    assert(core.skip(left.len() as int + 1) =~= right);
    let empty = Seq::<char>::empty();
    lemma_padded(empty, name, behind_name);
    assert(empty + (name + behind_name) =~= left);
    lemma_padded(behind_sign, value, empty);
    assert(behind_sign + (value + empty) =~= right);
}

/// A text is read line by line: what its first line binds comes before what the lines behind
/// it bind.
pub proof fn law_text_is_read_by_lines(line: Seq<char>, rest: Seq<char>)
    requires
        !line.contains('\n'),
    ensures
        entries_from(line + seq!['\n'] + rest, 0) == (match entry_of(line) {
            Some(entry) => seq![entry] + entries_from(rest, 0),
            None => entries_from(rest, 0),
        }),
{
    let s = line + seq!['\n'] + rest;
    let n = line.len() as int;
    assert forall|i: int| 0 <= i < n implies s[i] != '\n' by {
        assert(s[i] == line[i]);
        if line[i] == '\n' {
            assert(line.contains('\n'));
        }
    }
    assert(s[n] == '\n');
    lemma_first_place(s, '\n', 0, n);
    assert(s.subrange(0, n) =~= line);
    assert(s.skip(n + 1) =~= rest);
    lemma_entries_of_suffix(s, n + 1, 0);
}

/// A line without an equals sign binds nothing, and neither does one that is blank.
pub proof fn law_line_without_sign_binds_nothing(line: Seq<char>)
    requires
        !line.contains('=') || blank(line),
    ensures
        entry_of(line) is None,
{
    lemma_trimmed_is_part(line);
    let t = trimmed(line);
    if blank(line) {
        lemma_blank_is_trimmed(line);
    } else {
        assert forall|i: int| 0 <= i < t.len() implies t[i] != '=' by {
            assert(line.contains(t[i]));
        }
        lemma_no_place(t, '=', 0);
    }
}

/// White space is the space, the characters from tab to carriage return, and the other
/// characters that Unicode calls white space.
pub proof fn law_white_space(c: char)
    ensures
        is_space(c) <==> (c == ' ' || c == '\t' || c == '\n' || c == '\r' || c == '\u{0b}' || c
            == '\u{0c}' || c == '\u{85}' || c == '\u{a0}' || c == '\u{1680}' || c == '\u{2000}' || c
            == '\u{2001}' || c == '\u{2002}' || c == '\u{2003}' || c == '\u{2004}' || c
            == '\u{2005}' || c == '\u{2006}' || c == '\u{2007}' || c == '\u{2008}' || c
            == '\u{2009}' || c == '\u{200a}' || c == '\u{2028}' || c == '\u{2029}' || c
            == '\u{202f}' || c == '\u{205f}' || c == '\u{3000}'),
{
}

proof fn lemma_padded(before: Seq<char>, core: Seq<char>, behind: Seq<char>)
    requires
        blank(before),
        blank(behind),
        bare(core),
    ensures
        trimmed(before + (core + behind)) == core,
{
    let tail = core + behind;
    assert(tail[0] == core[0]);
    lemma_start(before, tail);
    lemma_end(core, behind);
}

proof fn lemma_start(before: Seq<char>, s: Seq<char>)
    requires
        blank(before),
        s.len() > 0,
        !is_space(s[0]),
    ensures
        trimmed_start(before + s) == s,
    decreases before.len(),
{
    if before.len() > 0 {
        assert(is_space(before[0]));
        assert((before + s)[0] == before[0]);
        assert((before + s).drop_first() =~= before.drop_first() + s);
        assert(blank(before.drop_first())) by {
            assert forall|i: int| 0 <= i < before.drop_first().len() implies is_space(
                #[trigger] before.drop_first()[i],
            ) by {
                assert(is_space(before[i + 1]));
            }
        }
        lemma_start(before.drop_first(), s);
    } else {
        assert(before + s =~= s);
    }
}

proof fn lemma_end(s: Seq<char>, behind: Seq<char>)
    requires
        blank(behind),
        s.len() > 0,
        !is_space(s.last()),
    ensures
        trimmed_end(s + behind) == s,
    decreases behind.len(),
{
    if behind.len() > 0 {
        assert(is_space(behind[behind.len() - 1]));
        assert((s + behind).last() == behind.last());
        assert((s + behind).drop_last() =~= s + behind.drop_last());
        assert(blank(behind.drop_last())) by {
            assert forall|i: int| 0 <= i < behind.drop_last().len() implies is_space(
                #[trigger] behind.drop_last()[i],
            ) by {
                assert(is_space(behind[i]));
            }
        }
        lemma_end(s, behind.drop_last());
    } else {
        assert(s + behind =~= s);
    }
}

proof fn lemma_first_place(s: Seq<char>, c: char, i: int, at: int)
    requires
        0 <= i <= at < s.len(),
        s[at] == c,
        forall|k: int| i <= k < at ==> s[k] != c,
    ensures
        place_of(s, c, i) == at,
    decreases at - i,
{
    if i < at {
        lemma_first_place(s, c, i + 1, at);
    }
}

proof fn lemma_no_place(s: Seq<char>, c: char, i: int)
    requires
        0 <= i <= s.len(),
        forall|k: int| i <= k < s.len() ==> s[k] != c,
    ensures
        place_of(s, c, i) == s.len(),
    decreases s.len() - i,
{
    if i < s.len() {
        lemma_no_place(s, c, i + 1);
    }
}

proof fn lemma_place_in_suffix(s: Seq<char>, c: char, from: int, i: int)
    requires
        0 <= from <= s.len(),
        0 <= i,
    ensures
        from + i <= s.len() ==> place_of(s, c, from + i) == from + place_of(s.skip(from), c, i),
    decreases s.len() - from - i,
{
    if from + i < s.len() {
        assert(s.skip(from)[i] == s[from + i]);
        lemma_place_in_suffix(s, c, from, i + 1);
    }
}

proof fn lemma_entries_of_suffix(s: Seq<char>, from: int, i: int)
    requires
        0 <= from <= s.len(),
        0 <= i,
    ensures
        entries_from(s, from + i) == entries_from(s.skip(from), i),
    decreases s.len() + 1 - from - i,
{
    if from + i < s.len() {
        crate::config::lemma_place_of(s, '\n', from + i);
        lemma_place_in_suffix(s, '\n', from, i);
        let end = place_of(s, '\n', from + i);
        assert(s.subrange(from + i, end) =~= s.skip(from).subrange(i, end - from));
        lemma_entries_of_suffix(s, from, end - from + 1);
    }
}

proof fn lemma_trimmed_is_part(s: Seq<char>)
    ensures
        forall|i: int| 0 <= i < trimmed(s).len() ==> s.contains(#[trigger] trimmed(s)[i]),
{
    lemma_start_is_part(s);
    lemma_end_is_part(trimmed_start(s));
    let t = trimmed(s);
    assert forall|i: int| 0 <= i < t.len() implies s.contains(#[trigger] t[i]) by {
        assert(trimmed_start(s).contains(t[i]));
        let k = choose|k: int| 0 <= k < trimmed_start(s).len() && trimmed_start(s)[k] == t[i];
        assert(s.contains(trimmed_start(s)[k]));
    }
}

proof fn lemma_start_is_part(s: Seq<char>)
    ensures
        forall|i: int|
            0 <= i < trimmed_start(s).len() ==> s.contains(#[trigger] trimmed_start(s)[i]),
    decreases s.len(),
{
    if s.len() > 0 && is_space(s[0]) {
        let d = s.drop_first();
        lemma_start_is_part(d);
        assert forall|i: int| 0 <= i < trimmed_start(s).len() implies s.contains(
            #[trigger] trimmed_start(s)[i],
        ) by {
            assert(d.contains(trimmed_start(d)[i]));
            let k = choose|k: int| 0 <= k < d.len() && d[k] == trimmed_start(d)[i];
            assert(s[k + 1] == d[k]);
        }
    }
}

proof fn lemma_end_is_part(s: Seq<char>)
    ensures
        forall|i: int| 0 <= i < trimmed_end(s).len() ==> s.contains(#[trigger] trimmed_end(s)[i]),
    decreases s.len(),
{
    if s.len() > 0 && is_space(s.last()) {
        let d = s.drop_last();
        lemma_end_is_part(d);
        assert forall|i: int| 0 <= i < trimmed_end(s).len() implies s.contains(
            #[trigger] trimmed_end(s)[i],
        ) by {
            assert(d.contains(trimmed_end(d)[i]));
            let k = choose|k: int| 0 <= k < d.len() && d[k] == trimmed_end(d)[i];
            assert(s[k] == d[k]);
        }
    }
}

proof fn lemma_blank_is_trimmed(s: Seq<char>)
    requires
        blank(s),
    ensures
        trimmed(s).len() == 0,
    decreases s.len(),
{
    if s.len() > 0 {
        assert(is_space(s[0]));
        assert(blank(s.drop_first())) by {
            assert forall|i: int| 0 <= i < s.drop_first().len() implies is_space(
                #[trigger] s.drop_first()[i],
            ) by {
                assert(is_space(s[i + 1]));
            }
        }
        lemma_blank_is_trimmed(s.drop_first());
    }
}

/// Each button has its own name, and no other text names a button.
pub proof fn law_button_names(s: Seq<char>)
    ensures
        button_named("A"@) == Some(Button::A),
        button_named("B"@) == Some(Button::B),
        button_named("X"@) == Some(Button::X),
        button_named("Y"@) == Some(Button::Y),
        button_named("Back"@) == Some(Button::Back),
        button_named("Start"@) == Some(Button::Start),
        button_named("Guide"@) == Some(Button::Guide),
        button_named("LeftShoulder"@) == Some(Button::LeftShoulder),
        button_named("RightShoulder"@) == Some(Button::RightShoulder),
        button_named("LeftStick"@) == Some(Button::LeftStick),
        button_named("RightStick"@) == Some(Button::RightStick),
        button_named("DPadUp"@) == Some(Button::DPadUp),
        button_named("DPadDown"@) == Some(Button::DPadDown),
        button_named("DPadLeft"@) == Some(Button::DPadLeft),
        button_named("DPadRight"@) == Some(Button::DPadRight),
        button_named("Misc1"@) == Some(Button::Misc1),
        button_named("Paddle1"@) == Some(Button::Paddle1),
        button_named("Paddle2"@) == Some(Button::Paddle2),
        button_named("Paddle3"@) == Some(Button::Paddle3),
        button_named("Paddle4"@) == Some(Button::Paddle4),
        button_named("Touchpad"@) == Some(Button::Touchpad),
        button_named(s) is Some ==> s == name_of(button_named(s)->0),
{
    reveal_strlit("A");
    assert("A"@.len() == 1);
    reveal_strlit("B");
    assert("B"@.len() == 1);
    reveal_strlit("X");
    assert("X"@.len() == 1);
    reveal_strlit("Y");
    assert("Y"@.len() == 1);
    reveal_strlit("Back");
    assert("Back"@.len() == 4);
    reveal_strlit("Start");
    assert("Start"@.len() == 5);
    reveal_strlit("Guide");
    assert("Guide"@.len() == 5);
    reveal_strlit("LeftShoulder");
    assert("LeftShoulder"@.len() == 12);
    reveal_strlit("RightShoulder");
    assert("RightShoulder"@.len() == 13);
    reveal_strlit("LeftStick");
    assert("LeftStick"@.len() == 9);
    reveal_strlit("RightStick");
    assert("RightStick"@.len() == 10);
    reveal_strlit("DPadUp");
    assert("DPadUp"@.len() == 6);
    reveal_strlit("DPadDown");
    assert("DPadDown"@.len() == 8);
    reveal_strlit("DPadLeft");
    assert("DPadLeft"@.len() == 8);
    reveal_strlit("DPadRight");
    assert("DPadRight"@.len() == 9);
    reveal_strlit("Misc1");
    assert("Misc1"@.len() == 5);
    reveal_strlit("Paddle1");
    assert("Paddle1"@.len() == 7);
    reveal_strlit("Paddle2");
    assert("Paddle2"@.len() == 7);
    reveal_strlit("Paddle3");
    assert("Paddle3"@.len() == 7);
    reveal_strlit("Paddle4");
    assert("Paddle4"@.len() == 7);
    reveal_strlit("Touchpad");
    assert("Touchpad"@.len() == 8);
    assert("A"@[0] != "B"@[0]);
    assert("A"@[0] != "X"@[0]);
    assert("A"@[0] != "Y"@[0]);
    assert("B"@[0] != "X"@[0]);
    assert("B"@[0] != "Y"@[0]);
    assert("X"@[0] != "Y"@[0]);
    assert("Start"@[0] != "Guide"@[0]);
    assert("Start"@[0] != "Misc1"@[0]);
    assert("Guide"@[0] != "Misc1"@[0]);
    assert("LeftStick"@[0] != "DPadRight"@[0]);
    assert("DPadDown"@[4] != "DPadLeft"@[4]);
    assert("DPadDown"@[0] != "Touchpad"@[0]);
    assert("DPadLeft"@[0] != "Touchpad"@[0]);
    assert("Paddle1"@[6] != "Paddle2"@[6]);
    assert("Paddle1"@[6] != "Paddle3"@[6]);
    assert("Paddle1"@[6] != "Paddle4"@[6]);
    assert("Paddle2"@[6] != "Paddle3"@[6]);
    assert("Paddle2"@[6] != "Paddle4"@[6]);
    assert("Paddle3"@[6] != "Paddle4"@[6]);
}

/// The name of a button.
pub open spec fn name_of(button: Button) -> Seq<char> {
    match button {
        Button::A => "A"@,
        Button::B => "B"@,
        Button::X => "X"@,
        Button::Y => "Y"@,
        Button::Back => "Back"@,
        Button::Start => "Start"@,
        Button::Guide => "Guide"@,
        Button::LeftShoulder => "LeftShoulder"@,
        Button::RightShoulder => "RightShoulder"@,
        Button::LeftStick => "LeftStick"@,
        Button::RightStick => "RightStick"@,
        Button::DPadUp => "DPadUp"@,
        Button::DPadDown => "DPadDown"@,
        Button::DPadLeft => "DPadLeft"@,
        Button::DPadRight => "DPadRight"@,
        Button::Misc1 => "Misc1"@,
        Button::Paddle1 => "Paddle1"@,
        Button::Paddle2 => "Paddle2"@,
        Button::Paddle3 => "Paddle3"@,
        Button::Paddle4 => "Paddle4"@,
        Button::Touchpad => "Touchpad"@,
    }
}

} // verus!
