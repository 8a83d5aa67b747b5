//! The key table: every key of the keyboard with its protocol code, and the
//! groups of keys that are told apart by code ranges.
//!
//! Related keys have consecutive codes, and the keys are declared in the
//! order of their codes. A group is therefore both a range of codes and a run
//! of the declaration order; [`lemma_group_is_run`] holds the two together.

use vstd::prelude::*;

verus! {

/// A key of the keyboard.
#[derive(Debug, Clone, Copy, PartialEq, Eq, Hash, Structural)]
pub enum KeyCode {
    A,
    B,
    C,
    D,
    E,
    F,
    G,
    H,
    I,
    J,
    K,
    L,
    M,
    N,
    O,
    P,
    Q,
    R,
    S,
    T,
    U,
    V,
    W,
    X,
    Y,
    Z,
    One,
    Two,
    Three,
    Four,
    Five,
    Six,
    Seven,
    Eight,
    Nine,
    Zero,
    Enter,
    Esc,
    Backspace,
    Tab,
    Space,
    Minus,
    Equals,
    LeftSquare,
    RightSquare,
    Backslash,
    Semicolon,
    SingleQuote,
    Backtick,
    Comma,
    Period,
    ForwardSlash,
    CapsLock,
    F1,
    F2,
    F3,
    F4,
    F5,
    F6,
    F7,
    F8,
    F9,
    F10,
    F11,
    F12,
    PrintScreen,
    ScrollLock,
    Break,
    Insert,
    Home,
    PageUp,
    Delete,
    End,
    PageDown,
    Right,
    Left,
    Down,
    Up,
    NumLock,
    KeypadSlash,
    KeypadStar,
    KeypadMinus,
    KeypadPlus,
    KeypadEnter,
    Keypad1,
    Keypad2,
    Keypad3,
    Keypad4,
    Keypad5,
    Keypad6,
    Keypad7,
    Keypad8,
    Keypad9,
    Keypad0,
    KeypadDot,
    MenuButton,
    LeftCtrl,
    LeftShift,
    LeftAlt,
    LeftWin,
    RightCtrl,
    RightShift,
    RightAlt,
    RightWin,
}

/// A named set of keys.
#[derive(Debug, Clone, Copy, PartialEq, Eq, Hash, Structural)]
pub enum KeyGroup {
    Alpha,
    AlphaNum,
    Num,
    Fn,
}

/// Number of keys in the table.
pub const KEY_COUNT: usize = 104;

impl KeyCode {
    /// The code that the protocol knows this key by.
    pub open spec fn spec_code(self) -> u8 {
        match self {
            KeyCode::A => 0x04,
            KeyCode::B => 0x05,
            KeyCode::C => 0x06,
            KeyCode::D => 0x07,
            KeyCode::E => 0x08,
            KeyCode::F => 0x09,
            KeyCode::G => 0x0a,
            KeyCode::H => 0x0b,
            KeyCode::I => 0x0c,
            KeyCode::J => 0x0d,
            KeyCode::K => 0x0e,
            KeyCode::L => 0x0f,
            KeyCode::M => 0x10,
            KeyCode::N => 0x11,
            KeyCode::O => 0x12,
            KeyCode::P => 0x13,
            KeyCode::Q => 0x14,
            KeyCode::R => 0x15,
            KeyCode::S => 0x16,
            KeyCode::T => 0x17,
            KeyCode::U => 0x18,
            KeyCode::V => 0x19,
            KeyCode::W => 0x1a,
            KeyCode::X => 0x1b,
            KeyCode::Y => 0x1c,
            KeyCode::Z => 0x1d,
            KeyCode::One => 0x1e,
            KeyCode::Two => 0x1f,
            KeyCode::Three => 0x20,
            KeyCode::Four => 0x21,
            KeyCode::Five => 0x22,
            KeyCode::Six => 0x23,
            KeyCode::Seven => 0x24,
            KeyCode::Eight => 0x25,
            KeyCode::Nine => 0x26,
            KeyCode::Zero => 0x27,
            KeyCode::Enter => 0x28,
            KeyCode::Esc => 0x29,
            KeyCode::Backspace => 0x2a,
            KeyCode::Tab => 0x2b,
            KeyCode::Space => 0x2c,
            KeyCode::Minus => 0x2d,
            KeyCode::Equals => 0x2e,
            KeyCode::LeftSquare => 0x2f,
            KeyCode::RightSquare => 0x30,
            KeyCode::Backslash => 0x31,
            KeyCode::Semicolon => 0x33,
            KeyCode::SingleQuote => 0x34,
            KeyCode::Backtick => 0x35,
            KeyCode::Comma => 0x36,
            KeyCode::Period => 0x37,
            KeyCode::ForwardSlash => 0x38,
            KeyCode::CapsLock => 0x39,
            KeyCode::F1 => 0x3a,
            KeyCode::F2 => 0x3b,
            KeyCode::F3 => 0x3c,
            KeyCode::F4 => 0x3d,
            KeyCode::F5 => 0x3e,
            KeyCode::F6 => 0x3f,
            KeyCode::F7 => 0x40,
            KeyCode::F8 => 0x41,
            KeyCode::F9 => 0x42,
            KeyCode::F10 => 0x43,
            KeyCode::F11 => 0x44,
            KeyCode::F12 => 0x45,
            KeyCode::PrintScreen => 0x46,
            KeyCode::ScrollLock => 0x47,
            KeyCode::Break => 0x48,
            KeyCode::Insert => 0x49,
            KeyCode::Home => 0x4a,
            KeyCode::PageUp => 0x4b,
            KeyCode::Delete => 0x4c,
            KeyCode::End => 0x4d,
            KeyCode::PageDown => 0x4e,
            KeyCode::Right => 0x4f,
            KeyCode::Left => 0x50,
            KeyCode::Down => 0x51,
            KeyCode::Up => 0x52,
            KeyCode::NumLock => 0x53,
            KeyCode::KeypadSlash => 0x54,
            KeyCode::KeypadStar => 0x55,
            KeyCode::KeypadMinus => 0x56,
            KeyCode::KeypadPlus => 0x57,
            KeyCode::KeypadEnter => 0x58,
            KeyCode::Keypad1 => 0x59,
            KeyCode::Keypad2 => 0x5a,
            KeyCode::Keypad3 => 0x5b,
            KeyCode::Keypad4 => 0x5c,
            KeyCode::Keypad5 => 0x5d,
            KeyCode::Keypad6 => 0x5e,
            KeyCode::Keypad7 => 0x5f,
            KeyCode::Keypad8 => 0x60,
            KeyCode::Keypad9 => 0x61,
            KeyCode::Keypad0 => 0x62,
            KeyCode::KeypadDot => 0x63,
            KeyCode::MenuButton => 0x65,
            KeyCode::LeftCtrl => 0xe0,
            KeyCode::LeftShift => 0xe1,
            KeyCode::LeftAlt => 0xe2,
            KeyCode::LeftWin => 0xe3,
            KeyCode::RightCtrl => 0xe4,
            KeyCode::RightShift => 0xe5,
            KeyCode::RightAlt => 0xe6,
            KeyCode::RightWin => 0xe7,
        }
    }

    /// The code that the protocol knows this key by.
    pub fn code(&self) -> (c: u8)
        ensures
            c == self.spec_code(),
    {
        match self {
            KeyCode::A => 0x04,
            KeyCode::B => 0x05,
            KeyCode::C => 0x06,
            KeyCode::D => 0x07,
            KeyCode::E => 0x08,
            KeyCode::F => 0x09,
            KeyCode::G => 0x0a,
            KeyCode::H => 0x0b,
            KeyCode::I => 0x0c,
            KeyCode::J => 0x0d,
            KeyCode::K => 0x0e,
            KeyCode::L => 0x0f,
            KeyCode::M => 0x10,
            KeyCode::N => 0x11,
            KeyCode::O => 0x12,
            KeyCode::P => 0x13,
            KeyCode::Q => 0x14,
            KeyCode::R => 0x15,
            KeyCode::S => 0x16,
            KeyCode::T => 0x17,
            KeyCode::U => 0x18,
            KeyCode::V => 0x19,
            KeyCode::W => 0x1a,
            KeyCode::X => 0x1b,
            KeyCode::Y => 0x1c,
            KeyCode::Z => 0x1d,
            KeyCode::One => 0x1e,
            KeyCode::Two => 0x1f,
            KeyCode::Three => 0x20,
            KeyCode::Four => 0x21,
            KeyCode::Five => 0x22,
            KeyCode::Six => 0x23,
            KeyCode::Seven => 0x24,
            KeyCode::Eight => 0x25,
            KeyCode::Nine => 0x26,
            KeyCode::Zero => 0x27,
            KeyCode::Enter => 0x28,
            KeyCode::Esc => 0x29,
            KeyCode::Backspace => 0x2a,
            KeyCode::Tab => 0x2b,
            KeyCode::Space => 0x2c,
            KeyCode::Minus => 0x2d,
            KeyCode::Equals => 0x2e,
            KeyCode::LeftSquare => 0x2f,
            KeyCode::RightSquare => 0x30,
            KeyCode::Backslash => 0x31,
            KeyCode::Semicolon => 0x33,
            KeyCode::SingleQuote => 0x34,
            KeyCode::Backtick => 0x35,
            KeyCode::Comma => 0x36,
            KeyCode::Period => 0x37,
            KeyCode::ForwardSlash => 0x38,
            KeyCode::CapsLock => 0x39,
            KeyCode::F1 => 0x3a,
            KeyCode::F2 => 0x3b,
            KeyCode::F3 => 0x3c,
            KeyCode::F4 => 0x3d,
            KeyCode::F5 => 0x3e,
            KeyCode::F6 => 0x3f,
            KeyCode::F7 => 0x40,
            KeyCode::F8 => 0x41,
            KeyCode::F9 => 0x42,
            KeyCode::F10 => 0x43,
            KeyCode::F11 => 0x44,
            KeyCode::F12 => 0x45,
            KeyCode::PrintScreen => 0x46,
            KeyCode::ScrollLock => 0x47,
            KeyCode::Break => 0x48,
            KeyCode::Insert => 0x49,
            KeyCode::Home => 0x4a,
            KeyCode::PageUp => 0x4b,
            KeyCode::Delete => 0x4c,
            KeyCode::End => 0x4d,
            KeyCode::PageDown => 0x4e,
            KeyCode::Right => 0x4f,
            KeyCode::Left => 0x50,
            KeyCode::Down => 0x51,
            KeyCode::Up => 0x52,
            KeyCode::NumLock => 0x53,
            KeyCode::KeypadSlash => 0x54,
            KeyCode::KeypadStar => 0x55,
            KeyCode::KeypadMinus => 0x56,
            KeyCode::KeypadPlus => 0x57,
            KeyCode::KeypadEnter => 0x58,
            KeyCode::Keypad1 => 0x59,
            KeyCode::Keypad2 => 0x5a,
            KeyCode::Keypad3 => 0x5b,
            KeyCode::Keypad4 => 0x5c,
            KeyCode::Keypad5 => 0x5d,
            KeyCode::Keypad6 => 0x5e,
            KeyCode::Keypad7 => 0x5f,
            KeyCode::Keypad8 => 0x60,
            KeyCode::Keypad9 => 0x61,
            KeyCode::Keypad0 => 0x62,
            KeyCode::KeypadDot => 0x63,
            KeyCode::MenuButton => 0x65,
            KeyCode::LeftCtrl => 0xe0,
            KeyCode::LeftShift => 0xe1,
            KeyCode::LeftAlt => 0xe2,
            KeyCode::LeftWin => 0xe3,
            KeyCode::RightCtrl => 0xe4,
            KeyCode::RightShift => 0xe5,
            KeyCode::RightAlt => 0xe6,
            KeyCode::RightWin => 0xe7,
        }
    }

    /// Every key, in the order of declaration.
    pub open spec fn all_keys() -> Seq<KeyCode> {
        seq![
            KeyCode::A, KeyCode::B, KeyCode::C, KeyCode::D, KeyCode::E, KeyCode::F, KeyCode::G,
            KeyCode::H, KeyCode::I, KeyCode::J, KeyCode::K, KeyCode::L, KeyCode::M, KeyCode::N,
            KeyCode::O, KeyCode::P, KeyCode::Q, KeyCode::R, KeyCode::S, KeyCode::T, KeyCode::U,
            KeyCode::V, KeyCode::W, KeyCode::X, KeyCode::Y, KeyCode::Z, KeyCode::One,
            KeyCode::Two, KeyCode::Three, KeyCode::Four, KeyCode::Five, KeyCode::Six,
            KeyCode::Seven, KeyCode::Eight, KeyCode::Nine, KeyCode::Zero, KeyCode::Enter,
            KeyCode::Esc, KeyCode::Backspace, KeyCode::Tab, KeyCode::Space, KeyCode::Minus,
            KeyCode::Equals, KeyCode::LeftSquare, KeyCode::RightSquare, KeyCode::Backslash,
            KeyCode::Semicolon, KeyCode::SingleQuote, KeyCode::Backtick, KeyCode::Comma,
            KeyCode::Period, KeyCode::ForwardSlash, KeyCode::CapsLock, KeyCode::F1, KeyCode::F2,
            KeyCode::F3, KeyCode::F4, KeyCode::F5, KeyCode::F6, KeyCode::F7, KeyCode::F8,
            KeyCode::F9, KeyCode::F10, KeyCode::F11, KeyCode::F12, KeyCode::PrintScreen,
            KeyCode::ScrollLock, KeyCode::Break, KeyCode::Insert, KeyCode::Home,
            KeyCode::PageUp, KeyCode::Delete, KeyCode::End, KeyCode::PageDown, KeyCode::Right,
            KeyCode::Left, KeyCode::Down, KeyCode::Up, KeyCode::NumLock, KeyCode::KeypadSlash,
            KeyCode::KeypadStar, KeyCode::KeypadMinus, KeyCode::KeypadPlus,
            KeyCode::KeypadEnter, KeyCode::Keypad1, KeyCode::Keypad2, KeyCode::Keypad3,
            KeyCode::Keypad4, KeyCode::Keypad5, KeyCode::Keypad6, KeyCode::Keypad7,
            KeyCode::Keypad8, KeyCode::Keypad9, KeyCode::Keypad0, KeyCode::KeypadDot,
            KeyCode::MenuButton, KeyCode::LeftCtrl, KeyCode::LeftShift, KeyCode::LeftAlt,
            KeyCode::LeftWin, KeyCode::RightCtrl, KeyCode::RightShift, KeyCode::RightAlt,
            KeyCode::RightWin,
        ]
    }

    /// Where a key stands in the order of declaration. The codes leave three
    /// gaps, which is all that tells a position from a code.
    pub open spec fn spec_position(self) -> int {
        let c = self.spec_code() as int;
        if c <= 0x31 {
            c - 4
        } else if c <= 0x63 {
            c - 5
        } else if c == 0x65 {
            95
        } else {
            c - 128
        }
    }

    /// A letter: a code from that of `A` to that of `Z`.
    pub open spec fn spec_is_alpha(self) -> bool {
        KeyCode::A.spec_code() <= self.spec_code() <= KeyCode::Z.spec_code()
    }

    /// A digit of the main block: a code from that of `One` to that of `Zero`.
    pub open spec fn spec_is_numeric(self) -> bool {
        KeyCode::One.spec_code() <= self.spec_code() <= KeyCode::Zero.spec_code()
    }

    /// A function key: a code from that of `F1` to that of `F12`.
    pub open spec fn spec_is_fn(self) -> bool {
        KeyCode::F1.spec_code() <= self.spec_code() <= KeyCode::F12.spec_code()
    }

    /// Every key, in the order of declaration.
    pub fn all() -> (keys: Vec<KeyCode>)
        ensures
            keys@ == KeyCode::all_keys(),
    {
        let keys = vec![
            KeyCode::A, KeyCode::B, KeyCode::C, KeyCode::D, KeyCode::E, KeyCode::F, KeyCode::G,
            KeyCode::H, KeyCode::I, KeyCode::J, KeyCode::K, KeyCode::L, KeyCode::M, KeyCode::N,
            KeyCode::O, KeyCode::P, KeyCode::Q, KeyCode::R, KeyCode::S, KeyCode::T, KeyCode::U,
            KeyCode::V, KeyCode::W, KeyCode::X, KeyCode::Y, KeyCode::Z, KeyCode::One,
            KeyCode::Two, KeyCode::Three, KeyCode::Four, KeyCode::Five, KeyCode::Six,
            KeyCode::Seven, KeyCode::Eight, KeyCode::Nine, KeyCode::Zero, KeyCode::Enter,
            KeyCode::Esc, KeyCode::Backspace, KeyCode::Tab, KeyCode::Space, KeyCode::Minus,
            KeyCode::Equals, KeyCode::LeftSquare, KeyCode::RightSquare, KeyCode::Backslash,
            KeyCode::Semicolon, KeyCode::SingleQuote, KeyCode::Backtick, KeyCode::Comma,
            KeyCode::Period, KeyCode::ForwardSlash, KeyCode::CapsLock, KeyCode::F1, KeyCode::F2,
            KeyCode::F3, KeyCode::F4, KeyCode::F5, KeyCode::F6, KeyCode::F7, KeyCode::F8,
            KeyCode::F9, KeyCode::F10, KeyCode::F11, KeyCode::F12, KeyCode::PrintScreen,
            KeyCode::ScrollLock, KeyCode::Break, KeyCode::Insert, KeyCode::Home,
            KeyCode::PageUp, KeyCode::Delete, KeyCode::End, KeyCode::PageDown, KeyCode::Right,
            KeyCode::Left, KeyCode::Down, KeyCode::Up, KeyCode::NumLock, KeyCode::KeypadSlash,
            KeyCode::KeypadStar, KeyCode::KeypadMinus, KeyCode::KeypadPlus,
            KeyCode::KeypadEnter, KeyCode::Keypad1, KeyCode::Keypad2, KeyCode::Keypad3,
            KeyCode::Keypad4, KeyCode::Keypad5, KeyCode::Keypad6, KeyCode::Keypad7,
            KeyCode::Keypad8, KeyCode::Keypad9, KeyCode::Keypad0, KeyCode::KeypadDot,
            KeyCode::MenuButton, KeyCode::LeftCtrl, KeyCode::LeftShift, KeyCode::LeftAlt,
            KeyCode::LeftWin, KeyCode::RightCtrl, KeyCode::RightShift, KeyCode::RightAlt,
            KeyCode::RightWin,
        ];
        assert(keys@ =~= KeyCode::all_keys());
        keys
    }

    /// Whether the key is a letter.
    pub fn is_alpha(&self) -> (b: bool)
        ensures
            b == self.spec_is_alpha(),
    {
        let c: u8 = self.code();
        KeyCode::A.code() <= c && c <= KeyCode::Z.code()
    }

    /// Whether the key is a digit of the main block.
    pub fn is_numeric(&self) -> (b: bool)
        ensures
            b == self.spec_is_numeric(),
    {
        let c: u8 = self.code();
        KeyCode::One.code() <= c && c <= KeyCode::Zero.code()
    }

    /// Whether the key is a function key.
    pub fn is_fn(&self) -> (b: bool)
        ensures
            b == self.spec_is_fn(),
    {
        let c: u8 = self.code();
        KeyCode::F1.code() <= c && c <= KeyCode::F12.code()
    }
}

impl KeyGroup {
    /// Whether `key` belongs to the group, decided by the key's code.
    pub open spec fn spec_contains(self, key: KeyCode) -> bool {
        match self {
            KeyGroup::Alpha => key.spec_is_alpha(),
            KeyGroup::AlphaNum => key.spec_is_alpha() || key.spec_is_numeric(),
            KeyGroup::Num => key.spec_is_numeric(),
            KeyGroup::Fn => key.spec_is_fn(),
        }
    }

    /// The membership test as a predicate on keys.
    pub open spec fn spec_test(self) -> spec_fn(KeyCode) -> bool {
        |key: KeyCode| self.spec_contains(key)
    }

    /// The members: the keys that pass the test, in the order of declaration.
    pub open spec fn members(self) -> Seq<KeyCode> {
        KeyCode::all_keys().filter(self.spec_test())
    }

    /// Position of the group's first key in the order of declaration.
    pub open spec fn spec_first(self) -> int {
        match self {
            KeyGroup::Alpha => 0,
            KeyGroup::AlphaNum => 0,
            KeyGroup::Num => 26,
            KeyGroup::Fn => 53,
        }
    }

    /// Position just behind the group's last key.
    pub open spec fn spec_end(self) -> int {
        match self {
            KeyGroup::Alpha => 26,
            KeyGroup::AlphaNum => 36,
            KeyGroup::Num => 36,
            KeyGroup::Fn => 65,
        }
    }

    /// Whether `key` belongs to the group.
    pub fn contains(&self, key: &KeyCode) -> (b: bool)
        ensures
            b == self.spec_contains(*key),
    {
        match self {
            KeyGroup::Alpha => key.is_alpha(),
            KeyGroup::AlphaNum => key.is_alpha() || key.is_numeric(),
            KeyGroup::Num => key.is_numeric(),
            KeyGroup::Fn => key.is_fn(),
        }
    }

    /// The keys of the group, in the order of declaration.
    pub fn to_keys(&self) -> (keys: Vec<KeyCode>)
        ensures
            keys@ == self.members(),
            keys@ == KeyCode::all_keys().subrange(self.spec_first(), self.spec_end()),
            forall|key: KeyCode| keys@.contains(key) <==> self.spec_contains(key),
            keys@.no_duplicates(),
    {
        let all = KeyCode::all();
        let mut keys: Vec<KeyCode> = Vec::new();
        let mut i: usize = 0;
        while i < all.len()
            invariant
                i <= all.len(),
                all@ == KeyCode::all_keys(),
                keys@ == all@.take(i as int).filter(self.spec_test()),
            decreases all.len() - i,
        {
            proof {
                reveal(Seq::filter);
                assert(all@.take(i + 1).drop_last() == all@.take(i as int));
            }
            if self.contains(&all[i]) {
                keys.push(all[i]);
            }
            i = i + 1;
        }
        proof {
            assert(all@.take(i as int) == all@);
            lemma_group_is_run(*self);
            lemma_members(*self);
        }
        keys
    }
}

/// Every key stands in the table, at its position and nowhere else, and the
/// codes rise along the table.
pub proof fn lemma_all_keys_complete()
    ensures
        KeyCode::all_keys().len() == KEY_COUNT,
        KeyCode::all_keys().no_duplicates(),
        forall|key: KeyCode|
            {
                &&& 0 <= #[trigger] key.spec_position() < KEY_COUNT
                &&& KeyCode::all_keys()[key.spec_position()] == key
            },
        forall|i: int|
            0 <= i < KEY_COUNT ==> (#[trigger] KeyCode::all_keys()[i]).spec_position() == i,
        forall|i: int, j: int|
            0 <= i < j < KEY_COUNT ==> (#[trigger] KeyCode::all_keys()[i]).spec_code() < (
            #[trigger] KeyCode::all_keys()[j]).spec_code(),
{
}

/// A sequence filtered by a test that holds exactly on the positions from
/// `from` up to `to` is the run of the sequence between the two.
proof fn lemma_filter_run<A>(s: Seq<A>, test: spec_fn(A) -> bool, from: int, to: int)
    requires
        0 <= from <= to <= s.len(),
        forall|i: int| 0 <= i < s.len() ==> (test(#[trigger] s[i]) <==> from <= i < to),
    ensures
        s.filter(test) == s.subrange(from, to),
    decreases s.len(),
{
    reveal(Seq::filter);
    if s.len() > 0 {
        let rest = s.drop_last();
        let last = s.len() - 1;
        assert(test(s[last]) <==> from <= last < to);
        if to == s.len() && from < to {
            lemma_filter_run(rest, test, from, to - 1);
            assert(rest.subrange(from, to - 1).push(s.last()) =~= s.subrange(from, to));
        } else if to == s.len() {
            lemma_filter_run(rest, test, last, last);
            assert(rest.subrange(last, last) =~= s.subrange(from, to));
        } else {
            lemma_filter_run(rest, test, from, to);
            assert(rest.subrange(from, to) =~= s.subrange(from, to));
        }
    } else {
        assert(s.subrange(from, to) =~= s);
    }
}

/// The keys of a group are one run of the table: a key belongs to the group
/// exactly when it stands between the group's first position and its end.
pub proof fn lemma_group_is_run(group: KeyGroup)
    ensures
        0 <= group.spec_first() <= group.spec_end() <= KEY_COUNT,
        forall|key: KeyCode|
            group.spec_contains(key) <==> group.spec_first() <= #[trigger] key.spec_position()
                < group.spec_end(),
        group.members() == KeyCode::all_keys().subrange(group.spec_first(), group.spec_end()),
{
    lemma_all_keys_complete();
    let all = KeyCode::all_keys();
    let test = group.spec_test();
    let (first, end) = (group.spec_first(), group.spec_end());
    assert forall|i: int| 0 <= i < all.len() implies (test(#[trigger] all[i]) <==> first <= i
        < end) by {
        assert(all[i].spec_position() == i);
    }
    lemma_filter_run(all, test, first, end);
}

/// The members of a group are the keys that pass its test, each once.
pub proof fn lemma_members(group: KeyGroup)
    ensures
        forall|key: KeyCode| group.members().contains(key) <==> group.spec_contains(key),
        group.members().no_duplicates(),
{
    lemma_all_keys_complete();
    lemma_group_is_run(group);
    let all = KeyCode::all_keys();
    let run = group.members();
    assert forall|key: KeyCode| group.spec_contains(key) implies run.contains(key) by {
        assert(run[key.spec_position() - group.spec_first()] == key);
    }
    assert forall|key: KeyCode| run.contains(key) implies group.spec_contains(key) by {
        let i = choose|i: int| 0 <= i < run.len() && run[i] == key;
        assert(all[i + group.spec_first()].spec_position() == i + group.spec_first());
    }
}

/// The function group is the code range of the function keys: a key is a
/// member exactly when its code lies between those of `F1` and `F12`, both
/// included, and the members are the twelve function keys.
pub proof fn lemma_function_keys(key: KeyCode)
    ensures
        KeyGroup::Fn.members().contains(key) <==> KeyCode::F1.spec_code() <= key.spec_code()
            <= KeyCode::F12.spec_code(),
        KeyGroup::Fn.members() == seq![
            KeyCode::F1,
            KeyCode::F2,
            KeyCode::F3,
            KeyCode::F4,
            KeyCode::F5,
            KeyCode::F6,
            KeyCode::F7,
            KeyCode::F8,
            KeyCode::F9,
            KeyCode::F10,
            KeyCode::F11,
            KeyCode::F12,
        ],
{
    lemma_members(KeyGroup::Fn);
    lemma_group_is_run(KeyGroup::Fn);
}

} // verus!
