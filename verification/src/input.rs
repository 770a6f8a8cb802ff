//! Input identifiers and the shared input snapshot.
//!
//! Scripts ask about keys and mouse buttons by name ("Space", "a", "F12",
//! "Mouse2", case-insensitive for the mouse prefix); unrecognized names are
//! never an error, they simply name nothing. The snapshot itself is a small
//! set of currently-held keys and buttons plus the last cursor position,
//! shared behind a readers-writer lock.

use std::sync::Arc;

use vstd::prelude::*;
use vstd::rwlock::{RwLock, RwLockPredicate};

use crate::scalar::Fixed;
use crate::text::{
    parse_u64_from, spec_all_digits, spec_decimal_value, spec_to_lower, spec_to_upper, str_eq,
    to_lower, to_upper,
};

verus! {

broadcast use vstd::seq_lib::group_seq_properties;

/// Friendly names for a subset of keyboard keys used by existing scripts.
#[derive(Debug, Clone, Copy, PartialEq, Eq, Hash, Structural)]
pub enum NamedKey {
    Space,
    Enter,
    Tab,
    Left,
    Right,
    Up,
    Down,
    Escape,
    Backspace,
    Home,
    End,
    PageUp,
    PageDown,
    LeftShift,
    RightShift,
    LeftCtrl,
    RightCtrl,
    LeftAlt,
    RightAlt,
}

/// Identifier for a physical keyboard key.
#[derive(Debug, Clone, Copy, PartialEq, Eq, Hash, Structural)]
pub enum KeyCode {
    Named(NamedKey),
    Character(char),
    Digit(u8),
    Function(u8),
}

/// Identifier for a mouse button (left button is zero).
#[derive(Debug, Clone, Copy, PartialEq, Eq, Hash, Structural)]
pub struct MouseButton(u8);

impl MouseButton {
    /// The button with the given zero-based index.
    pub fn new(index: u8) -> (r: Self)
        ensures
            r.spec_index_value() == index,
            r == MouseButton::spec_with_index(index),
    {
        MouseButton(index)
    }

    /// The button's zero-based index.
    pub fn index(self) -> (r: u8)
        ensures
            r == self.spec_index_value(),
    {
        self.0
    }

    /// The index, as a mathematical value.
    pub closed spec fn spec_index_value(self) -> u8 {
        self.0
    }
}

/// The key a friendly key name denotes, if any.
pub open spec fn spec_parse_named_key(s: Seq<char>) -> Option<KeyCode> {
    if s == "Space"@ {
        Option::Some(KeyCode::Named(NamedKey::Space))
    } else if s == "Enter"@ || s == "Return"@ {
        Option::Some(KeyCode::Named(NamedKey::Enter))
    } else if s == "Tab"@ {
        Option::Some(KeyCode::Named(NamedKey::Tab))
    } else if s == "Left"@ {
        Option::Some(KeyCode::Named(NamedKey::Left))
    } else if s == "Right"@ {
        Option::Some(KeyCode::Named(NamedKey::Right))
    } else if s == "Up"@ {
        Option::Some(KeyCode::Named(NamedKey::Up))
    } else if s == "Down"@ {
        Option::Some(KeyCode::Named(NamedKey::Down))
    } else if s == "Escape"@ || s == "Esc"@ {
        Option::Some(KeyCode::Named(NamedKey::Escape))
    } else if s == "Backspace"@ {
        Option::Some(KeyCode::Named(NamedKey::Backspace))
    } else if s == "Home"@ {
        Option::Some(KeyCode::Named(NamedKey::Home))
    } else if s == "End"@ {
        Option::Some(KeyCode::Named(NamedKey::End))
    } else if s == "PageUp"@ {
        Option::Some(KeyCode::Named(NamedKey::PageUp))
    } else if s == "PageDown"@ {
        Option::Some(KeyCode::Named(NamedKey::PageDown))
    } else if s == "LeftShift"@ || s == "LShift"@ {
        Option::Some(KeyCode::Named(NamedKey::LeftShift))
    } else if s == "RightShift"@ || s == "RShift"@ {
        Option::Some(KeyCode::Named(NamedKey::RightShift))
    } else if s == "LeftCtrl"@ || s == "LControl"@ {
        Option::Some(KeyCode::Named(NamedKey::LeftCtrl))
    } else if s == "RightCtrl"@ || s == "RControl"@ {
        Option::Some(KeyCode::Named(NamedKey::RightCtrl))
    } else if s == "LeftAlt"@ || s == "LAlt"@ {
        Option::Some(KeyCode::Named(NamedKey::LeftAlt))
    } else if s == "RightAlt"@ || s == "RAlt"@ {
        Option::Some(KeyCode::Named(NamedKey::RightAlt))
    } else {
        Option::None
    }
}

/// Looks a friendly key name up.
pub fn parse_named_key(name: &str) -> (r: Option<KeyCode>)
    ensures
        r == spec_parse_named_key(name@),
{
    if str_eq(name, "Space") {
        Some(KeyCode::Named(NamedKey::Space))
    } else if str_eq(name, "Enter") || str_eq(name, "Return") {
        Some(KeyCode::Named(NamedKey::Enter))
    } else if str_eq(name, "Tab") {
        Some(KeyCode::Named(NamedKey::Tab))
    } else if str_eq(name, "Left") {
        Some(KeyCode::Named(NamedKey::Left))
    } else if str_eq(name, "Right") {
        Some(KeyCode::Named(NamedKey::Right))
    } else if str_eq(name, "Up") {
        Some(KeyCode::Named(NamedKey::Up))
    } else if str_eq(name, "Down") {
        Some(KeyCode::Named(NamedKey::Down))
    } else if str_eq(name, "Escape") || str_eq(name, "Esc") {
        Some(KeyCode::Named(NamedKey::Escape))
    } else if str_eq(name, "Backspace") {
        Some(KeyCode::Named(NamedKey::Backspace))
    } else if str_eq(name, "Home") {
        Some(KeyCode::Named(NamedKey::Home))
    } else if str_eq(name, "End") {
        Some(KeyCode::Named(NamedKey::End))
    } else if str_eq(name, "PageUp") {
        Some(KeyCode::Named(NamedKey::PageUp))
    } else if str_eq(name, "PageDown") {
        Some(KeyCode::Named(NamedKey::PageDown))
    } else if str_eq(name, "LeftShift") || str_eq(name, "LShift") {
        Some(KeyCode::Named(NamedKey::LeftShift))
    } else if str_eq(name, "RightShift") || str_eq(name, "RShift") {
        Some(KeyCode::Named(NamedKey::RightShift))
    } else if str_eq(name, "LeftCtrl") || str_eq(name, "LControl") {
        Some(KeyCode::Named(NamedKey::LeftCtrl))
    } else if str_eq(name, "RightCtrl") || str_eq(name, "RControl") {
        Some(KeyCode::Named(NamedKey::RightCtrl))
    } else if str_eq(name, "LeftAlt") || str_eq(name, "LAlt") {
        Some(KeyCode::Named(NamedKey::LeftAlt))
    } else if str_eq(name, "RightAlt") || str_eq(name, "RAlt") {
        Some(KeyCode::Named(NamedKey::RightAlt))
    } else {
        None
    }
}

/// Whether `c` is an ASCII letter.
pub open spec fn spec_is_ascii_alpha(c: char) -> bool {
    ('a' <= c && c <= 'z') || ('A' <= c && c <= 'Z')
}

/// Whether `c` is a decimal digit.
pub open spec fn spec_is_ascii_digit(c: char) -> bool {
    '0' <= c && c <= '9'
}

/// The key a name denotes: a friendly name, a single letter or digit, or an
/// `F` followed by a function-key number from one to twenty-five.
pub open spec fn spec_key_from_name(s: Seq<char>) -> Option<KeyCode> {
    if spec_parse_named_key(s) is Some {
        spec_parse_named_key(s)
    } else if s.len() == 1 && spec_is_ascii_alpha(s[0]) {
        Option::Some(KeyCode::Character(spec_to_upper(s[0])))
    } else if s.len() == 1 && spec_is_ascii_digit(s[0]) {
        Option::Some(KeyCode::Digit((s[0] as u8 - '0' as u8) as u8))
    } else if s.len() >= 2 && (s[0] == 'F' || s[0] == 'f') && spec_all_digits(s.skip(1)) && 1
        <= spec_decimal_value(s.skip(1)) && spec_decimal_value(s.skip(1)) <= 25 {
        Option::Some(KeyCode::Function(spec_decimal_value(s.skip(1)) as u8))
    } else {
        Option::None
    }
}

impl KeyCode {
    /// Parses a key name.
    pub fn from_name(name: &str) -> (r: Option<KeyCode>)
        ensures
            r == spec_key_from_name(name@),
    {
        if let Some(key) = parse_named_key(name) {
            return Some(key);
        }
        let len = name.unicode_len();
        if len == 1 {
            let c = name.get_char(0);
            if ('a' <= c && c <= 'z') || ('A' <= c && c <= 'Z') {
                return Some(KeyCode::Character(to_upper(c)));
            }
            if '0' <= c && c <= '9' {
                return Some(KeyCode::Digit(c as u8 - 0x30));
            }
        }
        if len >= 2 {
            let first = name.get_char(0);
            if first == 'F' || first == 'f' {
                if let Some(value) = parse_u64_from(name, 1) {
                    if 1 <= value && value <= 25 {
                        return Some(KeyCode::Function(value as u8));
                    }
                }
            }
        }
        None
    }
}

/// The mouse button a name denotes: a case-insensitive `mouse` followed by
/// nothing (the left button) or a one-based button number up to 255, which
/// zero also maps to the left button.
pub open spec fn spec_parse_mouse_button(s: Seq<char>) -> Option<u8> {
    if s.len() < 5 {
        Option::None
    } else if !(spec_to_lower(s[0]) == 'm' && spec_to_lower(s[1]) == 'o' && spec_to_lower(s[2])
        == 'u' && spec_to_lower(s[3]) == 's' && spec_to_lower(s[4]) == 'e') {
        Option::None
    } else if s.len() == 5 {
        Option::Some(0)
    } else if spec_all_digits(s.skip(5)) && spec_decimal_value(s.skip(5)) <= 255 {
        if spec_decimal_value(s.skip(5)) == 0 {
            Option::Some(0)
        } else {
            Option::Some((spec_decimal_value(s.skip(5)) - 1) as u8)
        }
    } else {
        Option::None
    }
}

/// Parses a mouse-button name.
pub fn parse_mouse_button(name: &str) -> (r: Option<MouseButton>)
    ensures
        match spec_parse_mouse_button(name@) {
            Option::None => r is None,
            Option::Some(index) => r is Some && r->0.spec_index_value() == index,
        },
{
    let len = name.unicode_len();
    if len < 5 {
        return None;
    }
    if !(to_lower(name.get_char(0)) == 'm' && to_lower(name.get_char(1)) == 'o' && to_lower(
        name.get_char(2),
    ) == 'u' && to_lower(name.get_char(3)) == 's' && to_lower(name.get_char(4)) == 'e') {
        return None;
    }
    if len == 5 {
        return Some(MouseButton::new(0));
    }
    let value = match parse_u64_from(name, 5) {
        Some(v) => v,
        None => {
            return None;
        },
    };
    if value > 255 {
        return None;
    }
    if value == 0 {
        Some(MouseButton::new(0))
    } else {
        Some(MouseButton::new((value - 1) as u8))
    }
}

/// An input identifier parsed from a name: a key or a mouse button.
#[derive(Debug, Clone, Copy, PartialEq, Eq, Structural)]
pub enum InputName {
    Key(KeyCode),
    Mouse(MouseButton),
}

/// What an input name denotes: a mouse button if the name says so, else a
/// key, else nothing.
pub open spec fn spec_parse_input_name(s: Seq<char>) -> Option<InputName> {
    if spec_parse_mouse_button(s) is Some {
        Option::Some(InputName::Mouse(MouseButton::spec_with_index(spec_parse_mouse_button(s)->0)))
    } else {
        match spec_key_from_name(s) {
            Option::Some(key) => Option::Some(InputName::Key(key)),
            Option::None => Option::None,
        }
    }
}

impl MouseButton {
    /// The button value with the given index, as a mathematical value.
    pub closed spec fn spec_with_index(index: u8) -> MouseButton {
        MouseButton(index)
    }
}

/// Parses an input name into a key or mouse button.
pub fn parse_input_name(name: &str) -> (r: Option<InputName>)
    ensures
        r == spec_parse_input_name(name@),
{
    proof {
        assert(forall|i: u8|
            (#[trigger] MouseButton::spec_with_index(i)).spec_index_value() == i);
    }
    if let Some(button) = parse_mouse_button(name) {
        proof {
            assert(button == MouseButton::spec_with_index(button.spec_index_value()));
        }
        return Some(InputName::Mouse(button));
    }
    match KeyCode::from_name(name) {
        Some(key) => Some(InputName::Key(key)),
        None => None,
    }
}

/// Mathematical image of an input snapshot: which keys and buttons are held,
/// and where the cursor is.
#[verifier::ext_equal]
pub struct InputView {
    pub keys: Set<KeyCode>,
    pub buttons: Set<MouseButton>,
    pub mouse: (Fixed, Fixed),
}

/// One moment's input: the held keys and buttons and the cursor position.
#[derive(Debug)]
pub struct InputSnapshot {
    keys: Vec<KeyCode>,
    buttons: Vec<MouseButton>,
    mouse: (Fixed, Fixed),
}

impl View for InputSnapshot {
    type V = InputView;

    closed spec fn view(&self) -> InputView {
        InputView {
            keys: self.keys@.to_set(),
            buttons: self.buttons@.to_set(),
            mouse: self.mouse,
        }
    }
}

impl InputSnapshot {
    /// A snapshot with nothing held and the cursor at the origin.
    pub fn new() -> (r: InputSnapshot)
        ensures
            r@.keys == Set::<KeyCode>::empty(),
            r@.buttons == Set::<MouseButton>::empty(),
            r@.mouse == (Fixed { micros: 0 }, Fixed { micros: 0 }),
    {
        let snapshot = InputSnapshot {
            keys: Vec::new(),
            buttons: Vec::new(),
            mouse: (Fixed::zero(), Fixed::zero()),
        };
        proof {
            assert(snapshot@.keys =~= Set::<KeyCode>::empty());
            assert(snapshot@.buttons =~= Set::<MouseButton>::empty());
        }
        snapshot
    }

    /// Marks a key as held.
    pub fn set_key_down(&mut self, key: KeyCode)
        ensures
            final(self)@.keys == old(self)@.keys.insert(key),
            final(self)@.buttons == old(self)@.buttons,
            final(self)@.mouse == old(self)@.mouse,
    {
        if !self.is_key_down(key) {
            self.keys.push(key);
            proof {
                assert(self@.keys =~= old(self)@.keys.insert(key));
            }
        } else {
            proof {
                assert(self@.keys =~= old(self)@.keys.insert(key));
            }
        }
    }

    /// Marks a key as released.
    pub fn set_key_up(&mut self, key: KeyCode)
        ensures
            final(self)@.keys == old(self)@.keys.remove(key),
            final(self)@.buttons == old(self)@.buttons,
            final(self)@.mouse == old(self)@.mouse,
    {
        let mut kept: Vec<KeyCode> = Vec::new();
        let n = self.keys.len();
        let mut i: usize = 0;
        while i < n
            invariant
                i <= n,
                n == self.keys@.len(),
                self.keys@ == old(self).keys@,
                forall|x: KeyCode| #[trigger] kept@.contains(x) <==> (self.keys@.take(
                    i as int,
                ).contains(x) && x != key),
            decreases n - i,
        {
            let current = self.keys[i];
            if current != key {
                kept.push(current);
            }
            proof {
                assert(self.keys@.take(i + 1) =~= self.keys@.take(i as int).push(
                    self.keys@[i as int],
                ));
            }
            i = i + 1;
        }
        proof {
            assert(self.keys@.take(n as int) =~= self.keys@);
            assert(kept@.to_set() =~= old(self)@.keys.remove(key));
        }
        self.keys = kept;
    }

    /// Marks a mouse button as held.
    pub fn set_mouse_button_down(&mut self, button: MouseButton)
        ensures
            final(self)@.buttons == old(self)@.buttons.insert(button),
            final(self)@.keys == old(self)@.keys,
            final(self)@.mouse == old(self)@.mouse,
    {
        if !self.is_mouse_button_down(button) {
            self.buttons.push(button);
            proof {
                assert(self@.buttons =~= old(self)@.buttons.insert(button));
            }
        } else {
            proof {
                assert(self@.buttons =~= old(self)@.buttons.insert(button));
            }
        }
    }

    /// Marks a mouse button as released.
    pub fn set_mouse_button_up(&mut self, button: MouseButton)
        ensures
            final(self)@.buttons == old(self)@.buttons.remove(button),
            final(self)@.keys == old(self)@.keys,
            final(self)@.mouse == old(self)@.mouse,
    {
        let mut kept: Vec<MouseButton> = Vec::new();
        let n = self.buttons.len();
        let mut i: usize = 0;
        while i < n
            invariant
                i <= n,
                n == self.buttons@.len(),
                self.buttons@ == old(self).buttons@,
                forall|x: MouseButton| #[trigger] kept@.contains(x) <==> (self.buttons@.take(
                    i as int,
                ).contains(x) && x != button),
            decreases n - i,
        {
            let current = self.buttons[i];
            if current != button {
                kept.push(current);
            }
            proof {
                assert(self.buttons@.take(i + 1) =~= self.buttons@.take(i as int).push(
                    self.buttons@[i as int],
                ));
            }
            i = i + 1;
        }
        proof {
            assert(self.buttons@.take(n as int) =~= self.buttons@);
            assert(kept@.to_set() =~= old(self)@.buttons.remove(button));
        }
        self.buttons = kept;
    }

    /// Records the cursor position.
    pub fn set_mouse_position(&mut self, x: Fixed, y: Fixed)
        ensures
            final(self)@.mouse == (x, y),
            final(self)@.keys == old(self)@.keys,
            final(self)@.buttons == old(self)@.buttons,
    {
        self.mouse = (x, y);
    }

    /// Whether a key is currently held.
    pub fn is_key_down(&self, key: KeyCode) -> (r: bool)
        ensures
            r == self@.keys.contains(key),
    {
        let n = self.keys.len();
        let mut i: usize = 0;
        while i < n
            invariant
                i <= n,
                n == self.keys@.len(),
                forall|j: int| 0 <= j < i ==> self.keys@[j] != key,
            decreases n - i,
        {
            if self.keys[i] == key {
                proof {
                    assert(self.keys@.contains(key));
                }
                return true;
            }
            i = i + 1;
        }
        proof {
            assert(!self.keys@.contains(key));
        }
        false
    }

    /// Whether a mouse button is currently held.
    pub fn is_mouse_button_down(&self, button: MouseButton) -> (r: bool)
        ensures
            r == self@.buttons.contains(button),
    {
        let n = self.buttons.len();
        let mut i: usize = 0;
        while i < n
            invariant
                i <= n,
                n == self.buttons@.len(),
                forall|j: int| 0 <= j < i ==> self.buttons@[j] != button,
            decreases n - i,
        {
            if self.buttons[i] == button {
                proof {
                    assert(self.buttons@.contains(button));
                }
                return true;
            }
            i = i + 1;
        }
        proof {
            assert(!self.buttons@.contains(button));
        }
        false
    }

    /// What an input name queries in this snapshot: held-ness of the key or
    /// button it denotes, and `false` for a name that denotes nothing.
    pub open spec fn spec_query(view: InputView, s: Seq<char>) -> bool {
        match spec_parse_input_name(s) {
            Option::Some(InputName::Key(key)) => view.keys.contains(key),
            Option::Some(InputName::Mouse(button)) => view.buttons.contains(button),
            Option::None => false,
        }
    }

    /// Whether the key or button the name denotes is held; `false` for
    /// unrecognized names.
    pub fn is_key_down_by_name(&self, name: &str) -> (r: bool)
        ensures
            r == InputSnapshot::spec_query(self@, name@),
    {
        match parse_input_name(name) {
            Some(InputName::Key(key)) => self.is_key_down(key),
            Some(InputName::Mouse(button)) => self.is_mouse_button_down(button),
            None => false,
        }
    }

    /// The last recorded cursor position.
    pub fn mouse_position(&self) -> (r: (Fixed, Fixed))
        ensures
            r == self@.mouse,
    {
        self.mouse
    }
}

/// Anything may sit in the input lock; the exact contracts live on
/// [`InputSnapshot`].
pub struct AnyInput;

impl RwLockPredicate<InputSnapshot> for AnyInput {
    open spec fn inv(self, v: InputSnapshot) -> bool {
        true
    }
}

/// Thread-safe input snapshot shared with running scripts.
///
/// The event loop records key, button and cursor changes; scripts query
/// them. Each method holds the lock for one snapshot operation, so readers
/// never see a torn update; what a concurrent reader observes depends on
/// scheduling, so the exact contracts live on [`InputSnapshot`].
pub struct InputState {
    inner: Arc<RwLock<InputSnapshot, AnyInput>>,
}

impl Clone for InputState {
    /// The clone shares this state's snapshot.
    fn clone(&self) -> Self {
        InputState { inner: self.inner.clone() }
    }
}

impl InputState {
    /// A state with nothing held.
    pub fn new() -> Self {
        InputState { inner: Arc::new(RwLock::new(InputSnapshot::new(), Ghost(AnyInput))) }
    }

    /// Marks a key as held.
    pub fn set_key_down(&self, key: KeyCode) {
        let (mut snapshot, handle) = self.inner.acquire_write();
        snapshot.set_key_down(key);
        handle.release_write(snapshot);
    }

    /// Marks a key as released.
    pub fn set_key_up(&self, key: KeyCode) {
        let (mut snapshot, handle) = self.inner.acquire_write();
        snapshot.set_key_up(key);
        handle.release_write(snapshot);
    }

    /// Marks a mouse button as held.
    pub fn set_mouse_button_down(&self, button: MouseButton) {
        let (mut snapshot, handle) = self.inner.acquire_write();
        snapshot.set_mouse_button_down(button);
        handle.release_write(snapshot);
    }

    /// Marks a mouse button as released.
    pub fn set_mouse_button_up(&self, button: MouseButton) {
        let (mut snapshot, handle) = self.inner.acquire_write();
        snapshot.set_mouse_button_up(button);
        handle.release_write(snapshot);
    }

    /// Records the cursor position.
    pub fn set_mouse_position(&self, x: Fixed, y: Fixed) {
        let (mut snapshot, handle) = self.inner.acquire_write();
        snapshot.set_mouse_position(x, y);
        handle.release_write(snapshot);
    }

    /// Whether a key is currently held.
    pub fn is_key_down(&self, key: KeyCode) -> bool {
        let handle = self.inner.acquire_read();
        let result = handle.borrow().is_key_down(key);
        handle.release_read();
        result
    }

    /// Whether a mouse button is currently held.
    pub fn is_mouse_button_down(&self, button: MouseButton) -> bool {
        let handle = self.inner.acquire_read();
        let result = handle.borrow().is_mouse_button_down(button);
        handle.release_read();
        result
    }

    /// Whether the key or button the name denotes is held; `false` for
    /// unrecognized names.
    pub fn is_key_down_by_name(&self, name: &str) -> bool {
        let handle = self.inner.acquire_read();
        let result = handle.borrow().is_key_down_by_name(name);
        handle.release_read();
        result
    }

    /// The last recorded cursor position.
    pub fn mouse_position(&self) -> (Fixed, Fixed) {
        let handle = self.inner.acquire_read();
        let result = handle.borrow().mouse_position();
        handle.release_read();
        result
    }

    /// A full copy of the current snapshot.
    pub fn snapshot(&self) -> InputSnapshot {
        let handle = self.inner.acquire_read();
        let snapshot = handle.borrow().copy_inner();
        handle.release_read();
        snapshot
    }
}

impl InputSnapshot {
    /// An identical copy.
    pub fn copy_inner(&self) -> (r: InputSnapshot)
        ensures
            r@ == self@,
    {
        let mut keys: Vec<KeyCode> = Vec::new();
        let mut i: usize = 0;
        let kn = self.keys.len();
        while i < kn
            invariant
                i <= kn,
                kn == self.keys@.len(),
                keys@ =~= self.keys@.take(i as int),
            decreases kn - i,
        {
            keys.push(self.keys[i]);
            proof {
                assert(keys@ =~= self.keys@.take(i + 1));
            }
            i = i + 1;
        }
        let mut buttons: Vec<MouseButton> = Vec::new();
        let mut j: usize = 0;
        let bn = self.buttons.len();
        while j < bn
            invariant
                j <= bn,
                bn == self.buttons@.len(),
                buttons@ =~= self.buttons@.take(j as int),
            decreases bn - j,
        {
            buttons.push(self.buttons[j]);
            proof {
                assert(buttons@ =~= self.buttons@.take(j + 1));
            }
            j = j + 1;
        }
        let copy = InputSnapshot { keys, buttons, mouse: self.mouse };
        proof {
            assert(copy.keys@ =~= self.keys@);
            assert(copy.buttons@ =~= self.buttons@);
            assert(copy@ =~= self@);
        }
        copy
    }
}

} // verus!
