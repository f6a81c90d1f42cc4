//! Bindings of keys and controller buttons.
//!
//! A configuration is a text of lines `name = value`. Empty lines, lines that start with a
//! hash sign and lines without an equals sign are passed over; of two lines with one name
//! the later counts.
use vstd::prelude::*;

use crate::joypad::JoypadInput;

pub mod laws;

verus! {

/// Buttons of a game controller.
#[derive(Clone, Copy, Debug, PartialEq, Eq, Structural)]
pub enum Button {
    A,
    B,
    X,
    Y,
    Back,
    Start,
    Guide,
    LeftShoulder,
    RightShoulder,
    LeftStick,
    RightStick,
    DPadUp,
    DPadDown,
    DPadLeft,
    DPadRight,
    Misc1,
    Paddle1,
    Paddle2,
    Paddle3,
    Paddle4,
    Touchpad,
}

/// Key codes of the keys that are bound by default.
pub const KEY_TAB: i32 = 9;

pub const KEY_RETURN: i32 = 13;

pub const KEY_A: i32 = 97;

pub const KEY_S: i32 = 115;

pub const KEY_X: i32 = 120;

pub const KEY_Z: i32 = 122;

pub const KEY_RIGHT: i32 = 1_073_741_903;

pub const KEY_LEFT: i32 = 1_073_741_904;

pub const KEY_DOWN: i32 = 1_073_741_905;

pub const KEY_UP: i32 = 1_073_741_906;

pub const KEY_RSHIFT: i32 = 1_073_742_053;

/// Bindings, by key code and by button.
#[derive(Clone, Copy, Debug, PartialEq, Eq, Structural)]
pub struct Config {
    pub key_a: i32,
    pub key_b: i32,
    pub key_select: i32,
    pub key_start: i32,
    pub key_right: i32,
    pub key_left: i32,
    pub key_up: i32,
    pub key_down: i32,
    pub key_r: i32,
    pub key_l: i32,
    pub key_ff: i32,
    pub ctrl_a: Button,
    pub ctrl_b: Button,
    pub ctrl_select: Button,
    pub ctrl_start: Button,
    pub ctrl_right: Button,
    pub ctrl_left: Button,
    pub ctrl_up: Button,
    pub ctrl_down: Button,
    pub ctrl_r: Button,
    pub ctrl_l: Button,
    pub ctrl_ff: Button,
}

/// Text of a new configuration file. It binds nothing and shows how to.
pub const DEFAULT_TEXT: &'static str = "# GBC Emulator Input Configuration
# Uncomment and edit lines to change button bindings.
# Keyboard mappings (SDL2 scancode names)
#   key_a       = Z
#   key_b       = X
#   key_select  = RShift
#   key_start   = Return
#   key_right   = Right
#   key_left    = Left
#   key_up      = Up
#   key_down    = Down
#   key_r       = S
#   key_l       = A
#
# Controller mappings (SDL2 controller button names)
#   ctrl_a       = B
#   ctrl_b       = A
#   ctrl_select  = Back
#   ctrl_start   = Start
#   ctrl_right   = DPadRight
#   ctrl_left    = DPadLeft
#   ctrl_up      = DPadUp
#   ctrl_down    = DPadDown
#   ctrl_r       = RightShoulder
#   ctrl_l       = LeftShoulder
#
# Fast Forward key/button (held to speed up emulation)
#   key_ff      = Tab
#   ctrl_ff     = Y
";

/// White space.
pub open spec fn is_space(c: char) -> bool {
    let n = c as u32;
    ||| 0x09 <= n <= 0x0D
    ||| n == 0x20
    ||| n == 0x85
    ||| n == 0xA0
    ||| n == 0x1680
    ||| 0x2000 <= n <= 0x200A
    ||| 0x2028 <= n <= 0x2029
    ||| n == 0x202F
    ||| n == 0x205F
    ||| n == 0x3000
}

/// A text without the white space at its start.
pub open spec fn trimmed_start(s: Seq<char>) -> Seq<char>
    decreases s.len(),
{
    if s.len() > 0 && is_space(s[0]) {
        trimmed_start(s.drop_first())
    } else {
        s
    }
}

/// A text without the white space at its end.
pub open spec fn trimmed_end(s: Seq<char>) -> Seq<char>
    decreases s.len(),
{
    if s.len() > 0 && is_space(s.last()) {
        trimmed_end(s.drop_last())
    } else {
        s
    }
}

/// A text without the white space around it.
pub open spec fn trimmed(s: Seq<char>) -> Seq<char> {
    trimmed_end(trimmed_start(s))
}

/// Place of the first such character from `i` on; the length if there is none.
pub open spec fn place_of(s: Seq<char>, c: char, i: int) -> int
    decreases s.len() - i,
{
    if i < 0 || i >= s.len() {
        s.len() as int
    } else if s[i] == c {
        i
    } else {
        place_of(s, c, i + 1)
    }
}

/// What a line binds.
pub open spec fn entry_of(line: Seq<char>) -> Option<(Seq<char>, Seq<char>)> {
    let t = trimmed(line);
    let eq = place_of(t, '=', 0);
    if t.len() == 0 || t[0] == '#' || eq == t.len() {
        None
    } else {
        Some((trimmed(t.take(eq)), trimmed(t.skip(eq + 1))))
    }
}

/// What the lines of a text, from `i` on, bind, in order.
pub open spec fn entries_from(s: Seq<char>, i: int) -> Seq<(Seq<char>, Seq<char>)>
    decreases s.len() + 1 - i,
{
    if i < 0 || i >= s.len() {
        Seq::empty()
    } else {
        proof {
            lemma_place_of(s, '\n', i);
        }
        let end = place_of(s, '\n', i);
        let rest = entries_from(s, end + 1);
        match entry_of(s.subrange(i, end)) {
            Some(entry) => seq![entry] + rest,
            None => rest,
        }
    }
}

pub proof fn lemma_place_of(s: Seq<char>, c: char, i: int)
    requires
        0 <= i,
    ensures
        i < s.len() ==> i <= place_of(s, c, i) <= s.len(),
        i >= s.len() ==> place_of(s, c, i) == s.len(),
    decreases s.len() - i,
{
    if i < s.len() && s[i] != c {
        lemma_place_of(s, c, i + 1);
    }
}

/// The value of a name that comes last, with its place; none if the name does not occur.
pub open spec fn last_of(entries: Seq<(Seq<char>, Seq<char>)>, name: Seq<char>) -> Option<int>
    decreases entries.len(),
{
    if entries.len() == 0 {
        None
    } else if entries.last().0 == name {
        Some(entries.len() - 1)
    } else {
        last_of(entries.drop_last(), name)
    }
}

/// The button of this name.
pub open spec fn button_named(s: Seq<char>) -> Option<Button> {
    if s == "A"@ {
        Some(Button::A)
    } else if s == "B"@ {
        Some(Button::B)
    } else if s == "X"@ {
        Some(Button::X)
    } else if s == "Y"@ {
        Some(Button::Y)
    } else if s == "Back"@ {
        Some(Button::Back)
    } else if s == "Start"@ {
        Some(Button::Start)
    } else if s == "Guide"@ {
        Some(Button::Guide)
    } else if s == "LeftShoulder"@ {
        Some(Button::LeftShoulder)
    } else if s == "RightShoulder"@ {
        Some(Button::RightShoulder)
    } else if s == "LeftStick"@ {
        Some(Button::LeftStick)
    } else if s == "RightStick"@ {
        Some(Button::RightStick)
    } else if s == "DPadUp"@ {
        Some(Button::DPadUp)
    } else if s == "DPadDown"@ {
        Some(Button::DPadDown)
    } else if s == "DPadLeft"@ {
        Some(Button::DPadLeft)
    } else if s == "DPadRight"@ {
        Some(Button::DPadRight)
    } else if s == "Misc1"@ {
        Some(Button::Misc1)
    } else if s == "Paddle1"@ {
        Some(Button::Paddle1)
    } else if s == "Paddle2"@ {
        Some(Button::Paddle2)
    } else if s == "Paddle3"@ {
        Some(Button::Paddle3)
    } else if s == "Paddle4"@ {
        Some(Button::Paddle4)
    } else if s == "Touchpad"@ {
        Some(Button::Touchpad)
    } else {
        None
    }
}

/// White space.
pub fn is_white_space(c: char) -> (r: bool)
    ensures
        r == is_space(c),
{
    let n: u32 = c as u32;
    (0x09 <= n && n <= 0x0D) || n == 0x20 || n == 0x85 || n == 0xA0 || n == 0x1680 || (0x2000 <= n
        && n <= 0x200A) || n == 0x2028 || n == 0x2029 || n == 0x202F || n == 0x205F || n == 0x3000
}

/// Both texts are the same.
fn same_text(s: &[char], word: &str) -> (r: bool)
    ensures
        r == (s@ == word@),
{
    let n: usize = word.unicode_len();
    if s.len() != n {
        return false;
    }
    let mut i: usize = 0;
    while i < n
        invariant
            i <= n,
            n == word@.len(),
            n == s@.len(),
            forall|k: int| 0 <= k < i ==> s@[k] == word@[k],
        decreases n - i,
    {
        if s[i] != word.get_char(i) {
            return false;
        }
        i = i + 1;
    }
    assert(s@ =~= word@);
    true
}

/// The characters from `from` to `to` without the white space around them.
fn trim(s: &[char], from: usize, to: usize) -> (r: Vec<char>)
    requires
        from <= to <= s@.len(),
    ensures
        r@ == trimmed(s@.subrange(from as int, to as int)),
{
    let mut a: usize = from;
    let ghost whole = s@.subrange(from as int, to as int);
    while a < to && is_white_space(s[a])
        invariant
            from <= a <= to <= s@.len(),
            trimmed_start(s@.subrange(a as int, to as int)) == trimmed_start(whole),
        decreases to - a,
    {
        assert(s@.subrange(a as int, to as int).drop_first() =~= s@.subrange(a + 1, to as int));
        a = a + 1;
    }
    let ghost started = s@.subrange(a as int, to as int);
    assert(started == trimmed_start(whole));
    let mut b: usize = to;
    while a < b && is_white_space(s[b - 1])
        invariant
            from <= a <= b <= to <= s@.len(),
            trimmed_end(s@.subrange(a as int, b as int)) == trimmed_end(started),
        decreases b - a,
    {
        assert(s@.subrange(a as int, b as int).drop_last() =~= s@.subrange(a as int, b - 1));
        b = b - 1;
    }
    assert(s@.subrange(a as int, b as int) == trimmed(whole));
    let mut r: Vec<char> = Vec::new();
    let mut i: usize = a;
    while i < b
        invariant
            a <= i <= b <= s@.len(),
            r@ == s@.subrange(a as int, i as int),
        decreases b - i,
    {
        r.push(s[i]);
        i = i + 1;
        assert(r@ =~= s@.subrange(a as int, i as int));
    }
    r
}

/// Place of the first such character from `from` on; the length if there is none.
fn find(s: &[char], c: char, from: usize) -> (r: usize)
    requires
        from <= s@.len(),
    ensures
        r == place_of(s@, c, from as int),
        from <= r <= s@.len(),
{
    let mut i: usize = from;
    while i < s.len() && s[i] != c
        invariant
            from <= i <= s@.len(),
            place_of(s@, c, i as int) == place_of(s@, c, from as int),
        decreases s@.len() - i,
    {
        i = i + 1;
    }
    i
}

/// What a line binds.
fn parse_line(s: &[char], from: usize, to: usize) -> (r: Option<(Vec<char>, Vec<char>)>)
    requires
        from <= to <= s@.len(),
    ensures
        r is Some <==> entry_of(s@.subrange(from as int, to as int)) is Some,
        r matches Some(entry) ==> (entry.0@, entry.1@) == entry_of(
            s@.subrange(from as int, to as int),
        )->0,
{
    let line = trim(s, from, to);
    if line.len() == 0 || line[0] == '#' {
        return None;
    }
    let eq = find(line.as_slice(), '=', 0);
    if eq == line.len() {
        return None;
    }
    assert(line@.subrange(0, eq as int) =~= line@.take(eq as int));
    assert(line@.subrange(eq + 1, line@.len() as int) =~= line@.skip(eq + 1));
    let key = trim(line.as_slice(), 0, eq);
    let value = trim(line.as_slice(), eq + 1, line.len());
    Some((key, value))
}

/// The names and values in a list of entries.
pub open spec fn entries_view(entries: Seq<(Vec<char>, Vec<char>)>) -> Seq<
    (Seq<char>, Seq<char>),
> {
    Seq::new(entries.len(), |i: int| (entries[i].0@, entries[i].1@))
}

/// The characters of a text.
fn chars_of(text: &str) -> (r: Vec<char>)
    ensures
        r@ == text@,
{
    let mut r: Vec<char> = Vec::new();
    for c in iter: text.chars()
        invariant
            r@ == iter.seq().take(iter.index() as int),
            iter.seq() == text@,
    {
        r.push(c);
    }
    assert(r@ =~= text@);
    r
}

/// What the lines of a text bind, in order.
pub fn parse_entries(text: &str) -> (r: Vec<(Vec<char>, Vec<char>)>)
    ensures
        entries_view(r@) == entries_from(text@, 0),
{
    let chars = chars_of(text);
    let s: &[char] = chars.as_slice();
    let mut entries: Vec<(Vec<char>, Vec<char>)> = Vec::new();
    let total: usize = s.len();
    let mut at: usize = 0;
    assert(entries_view(entries@) + entries_from(s@, 0) =~= entries_from(s@, 0));
    while at < total
        invariant
            total == s@.len(),
            s@ == text@,
            at <= total,
            entries_view(entries@) + entries_from(s@, at as int) == entries_from(s@, 0),
        decreases total - at,
    {
        let end = find(s, '\n', at);
        let ghost before = entries_view(entries@);
        let ghost rest = entries_from(s@, end + 1);
        let ghost bound = entry_of(s@.subrange(at as int, end as int));
        match parse_line(s, at, end) {
            Some(entry) => {
                entries.push(entry);
                assert(entries_view(entries@) =~= before.push(bound->0));
                assert(before.push(bound->0) + rest =~= before + (seq![bound->0] + rest));
            },
            None => {},
        }
        if end == total {
            assert(entries_view(entries@) + Seq::empty() =~= entries_view(entries@));
            return entries;
        }
        at = end + 1;
    }
    assert(entries_view(entries@) + Seq::empty() =~= entries_view(entries@));
    entries
}

/// The place of the last entry with this name.
fn find_last(entries: &Vec<(Vec<char>, Vec<char>)>, name: &str) -> (r: Option<usize>)
    ensures
        r is Some <==> last_of(entries_view(entries@), name@) is Some,
        r matches Some(i) ==> last_of(entries_view(entries@), name@) == Some(i as int) && i
            < entries@.len(),
{
    let ghost all = entries_view(entries@);
    let mut n: usize = entries.len();
    assert(all.take(n as int) =~= all);
    while n > 0
        invariant
            n <= entries@.len(),
            all == entries_view(entries@),
            last_of(all.take(n as int), name@) == last_of(all, name@),
        decreases n,
    {
        if same_text(entries[n - 1].0.as_slice(), name) {
            return Some(n - 1);
        }
        assert(all.take(n as int).drop_last() =~= all.take(n - 1));
        n = n - 1;
    }
    None
}

/// The value of the last entry with this name.
fn find_value(entries: &Vec<(Vec<char>, Vec<char>)>, name: &str) -> (r: Option<String>)
    ensures
        r is Some <==> value_of(entries_view(entries@), name@) is Some,
        r matches Some(value) ==> value_of(entries_view(entries@), name@) == Some(value@),
{
    match find_last(entries, name) {
        Some(i) => {
            let value = &entries[i].1;
            let mut r = String::new();
            let mut k: usize = 0;
            while k < value.len()
                invariant
                    k <= value@.len(),
                    r@ == value@.take(k as int),
                decreases value@.len() - k,
            {
                r.push(value[k]);
                k = k + 1;
                assert(r@ =~= value@.take(k as int));
            }
            assert(value@.take(k as int) =~= value@);
            Some(r)
        },
        None => None,
    }
}

/// The button of this name.
pub fn string_to_controller_button(s: &str) -> (r: Option<Button>)
    ensures
        r == button_named(s@),
{
    let name = chars_of(s);
    find_button(name.as_slice())
}

fn find_button(s: &[char]) -> (r: Option<Button>)
    ensures
        r == button_named(s@),
{
    if same_text(s, "A") {
        Some(Button::A)
    } else if same_text(s, "B") {
        Some(Button::B)
    } else if same_text(s, "X") {
        Some(Button::X)
    } else if same_text(s, "Y") {
        Some(Button::Y)
    } else if same_text(s, "Back") {
        Some(Button::Back)
    } else if same_text(s, "Start") {
        Some(Button::Start)
    } else if same_text(s, "Guide") {
        Some(Button::Guide)
    } else if same_text(s, "LeftShoulder") {
        Some(Button::LeftShoulder)
    } else if same_text(s, "RightShoulder") {
        Some(Button::RightShoulder)
    } else if same_text(s, "LeftStick") {
        Some(Button::LeftStick)
    } else if same_text(s, "RightStick") {
        Some(Button::RightStick)
    } else if same_text(s, "DPadUp") {
        Some(Button::DPadUp)
    } else if same_text(s, "DPadDown") {
        Some(Button::DPadDown)
    } else if same_text(s, "DPadLeft") {
        Some(Button::DPadLeft)
    } else if same_text(s, "DPadRight") {
        Some(Button::DPadRight)
    } else if same_text(s, "Misc1") {
        Some(Button::Misc1)
    } else if same_text(s, "Paddle1") {
        Some(Button::Paddle1)
    } else if same_text(s, "Paddle2") {
        Some(Button::Paddle2)
    } else if same_text(s, "Paddle3") {
        Some(Button::Paddle3)
    } else if same_text(s, "Paddle4") {
        Some(Button::Paddle4)
    } else if same_text(s, "Touchpad") {
        Some(Button::Touchpad)
    } else {
        None
    }
}

/// The value of the last entry with this name.
pub open spec fn value_of(entries: Seq<(Seq<char>, Seq<char>)>, name: Seq<char>) -> Option<
    Seq<char>,
> {
    match last_of(entries, name) {
        Some(i) => Some(entries[i].1),
        None => None,
    }
}

/// Names of the keys that can be bound, in the order in which they are looked up.
pub open spec fn key_names() -> Seq<Seq<char>> {
    seq![
        "key_a"@,
        "key_b"@,
        "key_select"@,
        "key_start"@,
        "key_right"@,
        "key_left"@,
        "key_up"@,
        "key_down"@,
        "key_r"@,
        "key_l"@,
        "key_ff"@,
    ]
}

/// The key bound to a name: the key that the value of the last entry with that name was
/// found to name; else the one it had.
pub open spec fn key_bound(
    entries: Seq<(Seq<char>, Seq<char>)>,
    name: Seq<char>,
    found: Option<i32>,
    had: i32,
) -> i32 {
    match (last_of(entries, name), found) {
        (Some(_), Some(code)) => code,
        _ => had,
    }
}

/// The button bound to a name: that of the last entry with that name, if its value names a
/// button; else the one it had.
pub open spec fn button_bound(
    entries: Seq<(Seq<char>, Seq<char>)>,
    name: Seq<char>,
    had: Button,
) -> Button {
    match last_of(entries, name) {
        Some(i) => match button_named(entries[i].1) {
            Some(button) => button,
            None => had,
        },
        None => had,
    }
}

fn bind_key(
    entries: &Vec<(Vec<char>, Vec<char>)>,
    name: &str,
    found: Option<i32>,
    had: i32,
) -> (r: i32)
    ensures
        r == key_bound(entries_view(entries@), name@, found, had),
{
    match (find_last(entries, name), found) {
        (Some(_), Some(code)) => code,
        _ => had,
    }
}

fn bind_button(entries: &Vec<(Vec<char>, Vec<char>)>, name: &str, had: Button) -> (r: Button)
    ensures
        r == button_bound(entries_view(entries@), name@, had),
{
    match find_last(entries, name) {
        Some(i) => match find_button(entries[i].1.as_slice()) {
            Some(button) => button,
            None => had,
        },
        None => had,
    }
}

impl Config {
    pub open spec fn standard() -> Config {
        Config {
            key_a: KEY_Z,
            key_b: KEY_X,
            key_select: KEY_RSHIFT,
            key_start: KEY_RETURN,
            key_right: KEY_RIGHT,
            key_left: KEY_LEFT,
            key_up: KEY_UP,
            key_down: KEY_DOWN,
            key_r: KEY_S,
            key_l: KEY_A,
            key_ff: KEY_TAB,
            ctrl_a: Button::B,
            ctrl_b: Button::A,
            ctrl_select: Button::Back,
            ctrl_start: Button::Start,
            ctrl_right: Button::DPadRight,
            ctrl_left: Button::DPadLeft,
            ctrl_up: Button::DPadUp,
            ctrl_down: Button::DPadDown,
            ctrl_r: Button::RightShoulder,
            ctrl_l: Button::LeftShoulder,
            ctrl_ff: Button::Y,
        }
    }

    /// The standard bindings with those of some entries put in. `codes` holds, for each of
    /// the names of keys, the key that its value was found to name, if it names one.
    pub open spec fn bound(
        entries: Seq<(Seq<char>, Seq<char>)>,
        codes: Seq<Option<i32>>,
    ) -> Config {
        let c = Self::standard();
        Config {
            key_a: key_bound(entries, "key_a"@, codes[0], c.key_a),
            key_b: key_bound(entries, "key_b"@, codes[1], c.key_b),
            key_select: key_bound(entries, "key_select"@, codes[2], c.key_select),
            key_start: key_bound(entries, "key_start"@, codes[3], c.key_start),
            key_right: key_bound(entries, "key_right"@, codes[4], c.key_right),
            key_left: key_bound(entries, "key_left"@, codes[5], c.key_left),
            key_up: key_bound(entries, "key_up"@, codes[6], c.key_up),
            key_down: key_bound(entries, "key_down"@, codes[7], c.key_down),
            key_r: key_bound(entries, "key_r"@, codes[8], c.key_r),
            key_l: key_bound(entries, "key_l"@, codes[9], c.key_l),
            key_ff: key_bound(entries, "key_ff"@, codes[10], c.key_ff),
            ctrl_a: button_bound(entries, "ctrl_a"@, c.ctrl_a),
            ctrl_b: button_bound(entries, "ctrl_b"@, c.ctrl_b),
            ctrl_select: button_bound(entries, "ctrl_select"@, c.ctrl_select),
            ctrl_start: button_bound(entries, "ctrl_start"@, c.ctrl_start),
            ctrl_right: button_bound(entries, "ctrl_right"@, c.ctrl_right),
            ctrl_left: button_bound(entries, "ctrl_left"@, c.ctrl_left),
            ctrl_up: button_bound(entries, "ctrl_up"@, c.ctrl_up),
            ctrl_down: button_bound(entries, "ctrl_down"@, c.ctrl_down),
            ctrl_r: button_bound(entries, "ctrl_r"@, c.ctrl_r),
            ctrl_l: button_bound(entries, "ctrl_l"@, c.ctrl_l),
            ctrl_ff: button_bound(entries, "ctrl_ff"@, c.ctrl_ff),
        }
    }

    /// The text of a new configuration file.
    pub fn default_config_text() -> (r: &'static str)
        ensures
            r@ == DEFAULT_TEXT@,
    {
        DEFAULT_TEXT
    }

    /// The values that a configuration gives to the names of keys, in their order. Each is
    /// the name of a key that is to be looked up.
    pub fn key_values(text: &str) -> (r: Vec<Option<String>>)
        ensures
            r@.len() == key_names().len(),
            forall|i: int|
                0 <= i < r@.len() ==> match #[trigger] r@[i] {
                    Some(value) => value_of(entries_from(text@, 0), key_names()[i]) == Some(
                        value@,
                    ),
                    None => value_of(entries_from(text@, 0), key_names()[i]) is None,
                },
    {
        let entries = parse_entries(text);
        let mut r: Vec<Option<String>> = Vec::new();
        r.push(find_value(&entries, "key_a"));
        r.push(find_value(&entries, "key_b"));
        r.push(find_value(&entries, "key_select"));
        r.push(find_value(&entries, "key_start"));
        r.push(find_value(&entries, "key_right"));
        r.push(find_value(&entries, "key_left"));
        r.push(find_value(&entries, "key_up"));
        r.push(find_value(&entries, "key_down"));
        r.push(find_value(&entries, "key_r"));
        r.push(find_value(&entries, "key_l"));
        r.push(find_value(&entries, "key_ff"));
        r
    }

    /// The bindings of a configuration. `codes` holds what the lookup of the keys' values
    /// gave, in their order; a code without a value has no effect.
    pub fn load(text: &str, codes: &Vec<Option<i32>>) -> (r: Self)
        requires
            codes@.len() == key_names().len(),
        ensures
            r == Self::bound(entries_from(text@, 0), codes@),
    {
        let entries = parse_entries(text);
        let c = Self::default();
        Self {
            key_a: bind_key(&entries, "key_a", codes[0], c.key_a),
            key_b: bind_key(&entries, "key_b", codes[1], c.key_b),
            key_select: bind_key(&entries, "key_select", codes[2], c.key_select),
            key_start: bind_key(&entries, "key_start", codes[3], c.key_start),
            key_right: bind_key(&entries, "key_right", codes[4], c.key_right),
            key_left: bind_key(&entries, "key_left", codes[5], c.key_left),
            key_up: bind_key(&entries, "key_up", codes[6], c.key_up),
            key_down: bind_key(&entries, "key_down", codes[7], c.key_down),
            key_r: bind_key(&entries, "key_r", codes[8], c.key_r),
            key_l: bind_key(&entries, "key_l", codes[9], c.key_l),
            key_ff: bind_key(&entries, "key_ff", codes[10], c.key_ff),
            ctrl_a: bind_button(&entries, "ctrl_a", c.ctrl_a),
            ctrl_b: bind_button(&entries, "ctrl_b", c.ctrl_b),
            ctrl_select: bind_button(&entries, "ctrl_select", c.ctrl_select),
            ctrl_start: bind_button(&entries, "ctrl_start", c.ctrl_start),
            ctrl_right: bind_button(&entries, "ctrl_right", c.ctrl_right),
            ctrl_left: bind_button(&entries, "ctrl_left", c.ctrl_left),
            ctrl_up: bind_button(&entries, "ctrl_up", c.ctrl_up),
            ctrl_down: bind_button(&entries, "ctrl_down", c.ctrl_down),
            ctrl_r: bind_button(&entries, "ctrl_r", c.ctrl_r),
            ctrl_l: bind_button(&entries, "ctrl_l", c.ctrl_l),
            ctrl_ff: bind_button(&entries, "ctrl_ff", c.ctrl_ff),
        }
    }

    /// The joypad button that a key stands for. Of two bindings of one key the first
    /// counts.
    pub open spec fn input_of_key(self, code: i32) -> Option<JoypadInput> {
        if code == self.key_a {
            Some(JoypadInput::A)
        } else if code == self.key_b {
            Some(JoypadInput::B)
        } else if code == self.key_start {
            Some(JoypadInput::Start)
        } else if code == self.key_select {
            Some(JoypadInput::Select)
        } else if code == self.key_up {
            Some(JoypadInput::Up)
        } else if code == self.key_down {
            Some(JoypadInput::Down)
        } else if code == self.key_left {
            Some(JoypadInput::Left)
        } else if code == self.key_right {
            Some(JoypadInput::Right)
        } else {
            None
        }
    }

    /// The joypad button that a controller button stands for. Of two bindings of one button
    /// the first counts.
    pub open spec fn input_of_button(self, button: Button) -> Option<JoypadInput> {
        if button == self.ctrl_a {
            Some(JoypadInput::A)
        } else if button == self.ctrl_b {
            Some(JoypadInput::B)
        } else if button == self.ctrl_start {
            Some(JoypadInput::Start)
        } else if button == self.ctrl_select {
            Some(JoypadInput::Select)
        } else if button == self.ctrl_up {
            Some(JoypadInput::Up)
        } else if button == self.ctrl_down {
            Some(JoypadInput::Down)
        } else if button == self.ctrl_left {
            Some(JoypadInput::Left)
        } else if button == self.ctrl_right {
            Some(JoypadInput::Right)
        } else {
            None
        }
    }

    /// Of two entries with one name the later counts.
    pub proof fn law_later_entry_counts(
        entries: Seq<(Seq<char>, Seq<char>)>,
        name: Seq<char>,
        value: Seq<char>,
        other: Seq<char>,
    )
        ensures
            last_of(entries.push((name, value)), name) == Some(entries.len() as int),
            other != name ==> last_of(entries.push((name, value)), other) == last_of(
                entries,
                other,
            ),
    {
        assert(entries.push((name, value)).drop_last() =~= entries);
    }

    /// A line that starts with a hash sign binds nothing.
    pub proof fn law_comment_binds_nothing(line: Seq<char>)
        requires
            trimmed(line).len() > 0,
            trimmed(line)[0] == '#',
        ensures
            entry_of(line) is None,
    {
    }

    /// The text of a new configuration file binds nothing.
    pub proof fn law_default_text_binds_nothing()
        ensures
            entries_from(DEFAULT_TEXT@, 0) == Seq::<(Seq<char>, Seq<char>)>::empty(),
    {
        lemma_default_text_is_comment();
        lemma_comments_bind_nothing(DEFAULT_TEXT@, 0);
    }

    /// Loading the text of a new configuration file gives the standard bindings.
    pub proof fn law_default_text_is_standard(codes: Seq<Option<i32>>)
        ensures
            Self::bound(entries_from(DEFAULT_TEXT@, 0), codes) == Self::standard(),
    {
        Self::law_default_text_binds_nothing();
        Self::law_empty_is_standard(codes);
    }

    /// A key whose name has no value keeps its standard binding, whatever was looked up.
    pub proof fn law_key_without_value_stays(
        entries: Seq<(Seq<char>, Seq<char>)>,
        name: Seq<char>,
        found: Option<i32>,
        had: i32,
    )
        ensures
            value_of(entries, name) is None ==> key_bound(entries, name, found, had) == had,
            found is None ==> key_bound(entries, name, found, had) == had,
    {
    }

    /// An empty configuration gives the standard bindings.
    pub proof fn law_empty_is_standard(codes: Seq<Option<i32>>)
        ensures
            Self::bound(Seq::empty(), codes) == Self::standard(),
    {
    }
}

impl Default for Config {
    fn default() -> (r: Self)
        ensures
            r == Self::standard(),
    {
        Self {
            key_a: KEY_Z,
            key_b: KEY_X,
            key_select: KEY_RSHIFT,
            key_start: KEY_RETURN,
            key_right: KEY_RIGHT,
            key_left: KEY_LEFT,
            key_up: KEY_UP,
            key_down: KEY_DOWN,
            key_r: KEY_S,
            key_l: KEY_A,
            key_ff: KEY_TAB,
            ctrl_a: Button::B,
            ctrl_b: Button::A,
            ctrl_select: Button::Back,
            ctrl_start: Button::Start,
            ctrl_right: Button::DPadRight,
            ctrl_left: Button::DPadLeft,
            ctrl_up: Button::DPadUp,
            ctrl_down: Button::DPadDown,
            ctrl_r: Button::RightShoulder,
            ctrl_l: Button::LeftShoulder,
            ctrl_ff: Button::Y,
        }
    }
}

/// The joypad button that a key stands for.
pub fn keycode_to_joypad_input(keycode: i32, config: &Config) -> (r: Option<JoypadInput>)
    ensures
        r == config.input_of_key(keycode),
{
    if keycode == config.key_a {
        Some(JoypadInput::A)
    } else if keycode == config.key_b {
        Some(JoypadInput::B)
    } else if keycode == config.key_start {
        Some(JoypadInput::Start)
    } else if keycode == config.key_select {
        Some(JoypadInput::Select)
    } else if keycode == config.key_up {
        Some(JoypadInput::Up)
    } else if keycode == config.key_down {
        Some(JoypadInput::Down)
    } else if keycode == config.key_left {
        Some(JoypadInput::Left)
    } else if keycode == config.key_right {
        Some(JoypadInput::Right)
    } else {
        None
    }
}

/// The joypad button that a controller button stands for.
pub fn controller_button_to_joypad_input(button: Button, config: &Config) -> (r: Option<
    JoypadInput,
>)
    ensures
        r == config.input_of_button(button),
{
    if button == config.ctrl_a {
        Some(JoypadInput::A)
    } else if button == config.ctrl_b {
        Some(JoypadInput::B)
    } else if button == config.ctrl_start {
        Some(JoypadInput::Start)
    } else if button == config.ctrl_select {
        Some(JoypadInput::Select)
    } else if button == config.ctrl_up {
        Some(JoypadInput::Up)
    } else if button == config.ctrl_down {
        Some(JoypadInput::Down)
    } else if button == config.ctrl_left {
        Some(JoypadInput::Left)
    } else if button == config.ctrl_right {
        Some(JoypadInput::Right)
    } else {
        None
    }
}

/// Every line of the text starts with a hash sign.
pub open spec fn is_comment(s: Seq<char>) -> bool {
    forall|i: int|
        0 <= i < s.len() && (i == 0 || s[i - 1] == '\n') ==> #[trigger] s[i] == '#'
}

proof fn lemma_trimmed_end_keeps_first(s: Seq<char>)
    requires
        s.len() > 0,
        !is_space(s[0]),
    ensures
        trimmed_end(s).len() > 0,
        trimmed_end(s)[0] == s[0],
    decreases s.len(),
{
    if is_space(s.last()) {
        lemma_trimmed_end_keeps_first(s.drop_last());
    }
}

proof fn lemma_place_is_first(s: Seq<char>, c: char, i: int)
    requires
        0 <= i < s.len(),
    ensures
        i <= place_of(s, c, i) <= s.len(),
        place_of(s, c, i) < s.len() ==> s[place_of(s, c, i)] == c,
        s[i] != c ==> place_of(s, c, i) > i,
    decreases s.len() - i,
{
    lemma_place_of(s, c, i + 1);
    if s[i] != c && i + 1 < s.len() {
        lemma_place_is_first(s, c, i + 1);
    }
}

proof fn lemma_comments_bind_nothing(s: Seq<char>, i: int)
    requires
        is_comment(s),
        0 <= i,
        i == 0 || i > s.len() || s[i - 1] == '\n',
    ensures
        entries_from(s, i) == Seq::<(Seq<char>, Seq<char>)>::empty(),
    decreases s.len() + 1 - i,
{
    if i < s.len() {
        let end = place_of(s, '\n', i);
        let line = s.subrange(i, end);
        lemma_place_is_first(s, '\n', i);
        assert(s[i] == '#');
        assert(line[0] == '#');
        lemma_trimmed_end_keeps_first(line);
        assert(trimmed_start(line) == line);
        lemma_comments_bind_nothing(s, end + 1);
    }
}

proof fn lemma_default_text_is_comment()
    ensures
        is_comment(DEFAULT_TEXT@),
{
    reveal_strlit(
        "# GBC Emulator Input Configuration
# Uncomment and edit lines to change button bindings.
# Keyboard mappings (SDL2 scancode names)
#   key_a       = Z
#   key_b       = X
#   key_select  = RShift
#   key_start   = Return
#   key_right   = Right
#   key_left    = Left
#   key_up      = Up
#   key_down    = Down
#   key_r       = S
#   key_l       = A
#
# Controller mappings (SDL2 controller button names)
#   ctrl_a       = B
#   ctrl_b       = A
#   ctrl_select  = Back
#   ctrl_start   = Start
#   ctrl_right   = DPadRight
#   ctrl_left    = DPadLeft
#   ctrl_up      = DPadUp
#   ctrl_down    = DPadDown
#   ctrl_r       = RightShoulder
#   ctrl_l       = LeftShoulder
#
# Fast Forward key/button (held to speed up emulation)
#   key_ff      = Tab
#   ctrl_ff     = Y
",
    );
}

} // verus!
