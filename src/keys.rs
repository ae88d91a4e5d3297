use vstd::prelude::*;

verus! {

/// Number of key slots that the bridge assigns to the UI's key roles.
pub const KEY_COUNT: usize = 19;

/// A key as reported by the window system, restricted to the keys the bridge
/// reads; every other key is `Other`.
#[derive(Clone, Copy, Debug, PartialEq, Eq, Structural)]
pub enum VirtualKey {
    Tab,
    Left,
    Right,
    Up,
    Down,
    PageUp,
    PageDown,
    Home,
    End,
    Delete,
    Back,
    Return,
    Escape,
    A,
    C,
    V,
    X,
    Y,
    Z,
    LControl,
    RControl,
    LShift,
    RShift,
    LAlt,
    RAlt,
    LWin,
    RWin,
    Other,
}

/// A logical key role of the UI, each bound to one fixed key slot.
#[derive(Clone, Copy, Debug, PartialEq, Eq, Structural)]
pub enum KeyRole {
    Tab,
    LeftArrow,
    RightArrow,
    UpArrow,
    DownArrow,
    PageUp,
    PageDown,
    Home,
    End,
    Delete,
    Backspace,
    Enter,
    Escape,
    A,
    C,
    V,
    X,
    Y,
    Z,
}

/// A modifier flag of the UI; left and right keys share one flag.
#[derive(Clone, Copy, Debug, PartialEq, Eq, Structural)]
pub enum Modifier {
    Ctrl,
    Shift,
    Alt,
    Super,
}

/// The fixed slot of each key role.
pub open spec fn index_of_role(r: KeyRole) -> nat {
    match r {
        KeyRole::Tab => 0,
        KeyRole::LeftArrow => 1,
        KeyRole::RightArrow => 2,
        KeyRole::UpArrow => 3,
        KeyRole::DownArrow => 4,
        KeyRole::PageUp => 5,
        KeyRole::PageDown => 6,
        KeyRole::Home => 7,
        KeyRole::End => 8,
        KeyRole::Delete => 9,
        KeyRole::Backspace => 10,
        KeyRole::Enter => 11,
        KeyRole::Escape => 12,
        KeyRole::A => 13,
        KeyRole::C => 14,
        KeyRole::V => 15,
        KeyRole::X => 16,
        KeyRole::Y => 17,
        KeyRole::Z => 18,
    }
}

/// The role a window-system key plays, if it is one of the mapped keys.
pub open spec fn role_of_key(k: VirtualKey) -> Option<KeyRole> {
    match k {
        VirtualKey::Tab => Some(KeyRole::Tab),
        VirtualKey::Left => Some(KeyRole::LeftArrow),
        VirtualKey::Right => Some(KeyRole::RightArrow),
        VirtualKey::Up => Some(KeyRole::UpArrow),
        VirtualKey::Down => Some(KeyRole::DownArrow),
        VirtualKey::PageUp => Some(KeyRole::PageUp),
        VirtualKey::PageDown => Some(KeyRole::PageDown),
        VirtualKey::Home => Some(KeyRole::Home),
        VirtualKey::End => Some(KeyRole::End),
        VirtualKey::Delete => Some(KeyRole::Delete),
        VirtualKey::Back => Some(KeyRole::Backspace),
        VirtualKey::Return => Some(KeyRole::Enter),
        VirtualKey::Escape => Some(KeyRole::Escape),
        VirtualKey::A => Some(KeyRole::A),
        VirtualKey::C => Some(KeyRole::C),
        VirtualKey::V => Some(KeyRole::V),
        VirtualKey::X => Some(KeyRole::X),
        VirtualKey::Y => Some(KeyRole::Y),
        VirtualKey::Z => Some(KeyRole::Z),
        _ => None,
    }
}

/// The modifier flag a window-system key drives, if any.
pub open spec fn modifier_of_key(k: VirtualKey) -> Option<Modifier> {
    match k {
        VirtualKey::LControl | VirtualKey::RControl => Some(Modifier::Ctrl),
        VirtualKey::LShift | VirtualKey::RShift => Some(Modifier::Shift),
        VirtualKey::LAlt | VirtualKey::RAlt => Some(Modifier::Alt),
        VirtualKey::LWin | VirtualKey::RWin => Some(Modifier::Super),
        _ => None,
    }
}

/// The slot bound to a key role.
pub fn key_index(r: KeyRole) -> (i: u8)
    ensures
        i as nat == index_of_role(r),
        (i as usize) < KEY_COUNT,
{
    match r {
        KeyRole::Tab => 0,
        KeyRole::LeftArrow => 1,
        KeyRole::RightArrow => 2,
        KeyRole::UpArrow => 3,
        KeyRole::DownArrow => 4,
        KeyRole::PageUp => 5,
        KeyRole::PageDown => 6,
        KeyRole::Home => 7,
        KeyRole::End => 8,
        KeyRole::Delete => 9,
        KeyRole::Backspace => 10,
        KeyRole::Enter => 11,
        KeyRole::Escape => 12,
        KeyRole::A => 13,
        KeyRole::C => 14,
        KeyRole::V => 15,
        KeyRole::X => 16,
        KeyRole::Y => 17,
        KeyRole::Z => 18,
    }
}

/// The role of a window-system key, or `None` for a key the table leaves out.
pub fn role_of(k: VirtualKey) -> (r: Option<KeyRole>)
    ensures
        r == role_of_key(k),
{
    match k {
        VirtualKey::Tab => Some(KeyRole::Tab),
        VirtualKey::Left => Some(KeyRole::LeftArrow),
        VirtualKey::Right => Some(KeyRole::RightArrow),
        VirtualKey::Up => Some(KeyRole::UpArrow),
        VirtualKey::Down => Some(KeyRole::DownArrow),
        VirtualKey::PageUp => Some(KeyRole::PageUp),
        VirtualKey::PageDown => Some(KeyRole::PageDown),
        VirtualKey::Home => Some(KeyRole::Home),
        VirtualKey::End => Some(KeyRole::End),
        VirtualKey::Delete => Some(KeyRole::Delete),
        VirtualKey::Back => Some(KeyRole::Backspace),
        VirtualKey::Return => Some(KeyRole::Enter),
        VirtualKey::Escape => Some(KeyRole::Escape),
        VirtualKey::A => Some(KeyRole::A),
        VirtualKey::C => Some(KeyRole::C),
        VirtualKey::V => Some(KeyRole::V),
        VirtualKey::X => Some(KeyRole::X),
        VirtualKey::Y => Some(KeyRole::Y),
        VirtualKey::Z => Some(KeyRole::Z),
        _ => None,
    }
}

/// The modifier flag of a window-system key, or `None` for a key that drives none.
pub fn modifier_of(k: VirtualKey) -> (m: Option<Modifier>)
    ensures
        m == modifier_of_key(k),
{
    match k {
        VirtualKey::LControl | VirtualKey::RControl => Some(Modifier::Ctrl),
        VirtualKey::LShift | VirtualKey::RShift => Some(Modifier::Shift),
        VirtualKey::LAlt | VirtualKey::RAlt => Some(Modifier::Alt),
        VirtualKey::LWin | VirtualKey::RWin => Some(Modifier::Super),
        _ => None,
    }
}

/// The key-slot table handed to the UI once at start-up: entry `i` is the role
/// bound to slot `i`, and every role has exactly its own slot.
pub fn key_table() -> (t: Vec<KeyRole>)
    ensures
        t@.len() == KEY_COUNT,
        forall|i: int| 0 <= i < KEY_COUNT ==> index_of_role(#[trigger] t@[i]) == i,
        forall|r: KeyRole| #[trigger] t@[index_of_role(r) as int] == r,
{
    let mut t: Vec<KeyRole> = Vec::new();
    t.push(KeyRole::Tab);
    t.push(KeyRole::LeftArrow);
    t.push(KeyRole::RightArrow);
    t.push(KeyRole::UpArrow);
    t.push(KeyRole::DownArrow);
    t.push(KeyRole::PageUp);
    t.push(KeyRole::PageDown);
    t.push(KeyRole::Home);
    t.push(KeyRole::End);
    t.push(KeyRole::Delete);
    t.push(KeyRole::Backspace);
    t.push(KeyRole::Enter);
    t.push(KeyRole::Escape);
    t.push(KeyRole::A);
    t.push(KeyRole::C);
    t.push(KeyRole::V);
    t.push(KeyRole::X);
    t.push(KeyRole::Y);
    t.push(KeyRole::Z);
    t
}

} // verus!
