use vstd::prelude::*;

verus! {

/// A key that a shortcut can be bound to.
#[derive(Clone, Copy, Debug, PartialEq, Eq, Structural)]
pub enum Key {
    A,
    B,
    C,
    D,
    E,
    F,
    G,
    H,
    I,
    J,
    K,
    L,
    M,
    N,
    O,
    P,
    Q,
    R,
    S,
    T,
    U,
    V,
    W,
    X,
    Y,
    Z,
    Num0,
    Num1,
    Num2,
    Num3,
    Num4,
    Num5,
    Num6,
    Num7,
    Num8,
    Num9,
    ArrowDown,
    ArrowLeft,
    ArrowRight,
    ArrowUp,
    Escape,
    Tab,
    Backspace,
    Enter,
    Space,
    Insert,
    Delete,
    Home,
    End,
    PageUp,
    PageDown,
    Minus,
    PlusEquals,
    F1,
    F2,
    F3,
    F4,
    F5,
    F6,
    F7,
    F8,
    F9,
    F10,
    F11,
    F12,
    F13,
    F14,
    F15,
    F16,
    F17,
    F18,
    F19,
    F20,
}

/// The name under which a key is shown and parsed.
pub open spec fn key_name(k: Key) -> Seq<char> {
    match k {
        Key::A => "A"@,
        Key::B => "B"@,
        Key::C => "C"@,
        Key::D => "D"@,
        Key::E => "E"@,
        Key::F => "F"@,
        Key::G => "G"@,
        Key::H => "H"@,
        Key::I => "I"@,
        Key::J => "J"@,
        Key::K => "K"@,
        Key::L => "L"@,
        Key::M => "M"@,
        Key::N => "N"@,
        Key::O => "O"@,
        Key::P => "P"@,
        Key::Q => "Q"@,
        Key::R => "R"@,
        Key::S => "S"@,
        Key::T => "T"@,
        Key::U => "U"@,
        Key::V => "V"@,
        Key::W => "W"@,
        Key::X => "X"@,
        Key::Y => "Y"@,
        Key::Z => "Z"@,
        Key::Num0 => "0"@,
        Key::Num1 => "1"@,
        Key::Num2 => "2"@,
        Key::Num3 => "3"@,
        Key::Num4 => "4"@,
        Key::Num5 => "5"@,
        Key::Num6 => "6"@,
        Key::Num7 => "7"@,
        Key::Num8 => "8"@,
        Key::Num9 => "9"@,
        Key::ArrowDown => "Down"@,
        Key::ArrowLeft => "Left"@,
        Key::ArrowRight => "Right"@,
        Key::ArrowUp => "Up"@,
        Key::Escape => "Escape"@,
        Key::Tab => "Tab"@,
        Key::Backspace => "Backspace"@,
        Key::Enter => "Enter"@,
        Key::Space => "Space"@,
        Key::Insert => "Insert"@,
        Key::Delete => "Delete"@,
        Key::Home => "Home"@,
        Key::End => "End"@,
        Key::PageUp => "PageUp"@,
        Key::PageDown => "PageDown"@,
        Key::Minus => "Minus"@,
        Key::PlusEquals => "Plus"@,
        Key::F1 => "F1"@,
        Key::F2 => "F2"@,
        Key::F3 => "F3"@,
        Key::F4 => "F4"@,
        Key::F5 => "F5"@,
        Key::F6 => "F6"@,
        Key::F7 => "F7"@,
        Key::F8 => "F8"@,
        Key::F9 => "F9"@,
        Key::F10 => "F10"@,
        Key::F11 => "F11"@,
        Key::F12 => "F12"@,
        Key::F13 => "F13"@,
        Key::F14 => "F14"@,
        Key::F15 => "F15"@,
        Key::F16 => "F16"@,
        Key::F17 => "F17"@,
        Key::F18 => "F18"@,
        Key::F19 => "F19"@,
        Key::F20 => "F20"@,
    }
}

/// The key at each place of the catalog.
pub open spec fn catalog_key(i: usize) -> Key {
    match i {
        0 => Key::A,
        1 => Key::B,
        2 => Key::C,
        3 => Key::D,
        4 => Key::E,
        5 => Key::F,
        6 => Key::G,
        7 => Key::H,
        8 => Key::I,
        9 => Key::J,
        10 => Key::K,
        11 => Key::L,
        12 => Key::M,
        13 => Key::N,
        14 => Key::O,
        15 => Key::P,
        16 => Key::Q,
        17 => Key::R,
        18 => Key::S,
        19 => Key::T,
        20 => Key::U,
        21 => Key::V,
        22 => Key::W,
        23 => Key::X,
        24 => Key::Y,
        25 => Key::Z,
        26 => Key::Num0,
        27 => Key::Num1,
        28 => Key::Num2,
        29 => Key::Num3,
        30 => Key::Num4,
        31 => Key::Num5,
        32 => Key::Num6,
        33 => Key::Num7,
        34 => Key::Num8,
        35 => Key::Num9,
        36 => Key::ArrowDown,
        37 => Key::ArrowLeft,
        38 => Key::ArrowRight,
        39 => Key::ArrowUp,
        40 => Key::Escape,
        41 => Key::Tab,
        42 => Key::Backspace,
        43 => Key::Enter,
        44 => Key::Space,
        45 => Key::Insert,
        46 => Key::Delete,
        47 => Key::Home,
        48 => Key::End,
        49 => Key::PageUp,
        50 => Key::PageDown,
        51 => Key::Minus,
        52 => Key::PlusEquals,
        53 => Key::F1,
        54 => Key::F2,
        55 => Key::F3,
        56 => Key::F4,
        57 => Key::F5,
        58 => Key::F6,
        59 => Key::F7,
        60 => Key::F8,
        61 => Key::F9,
        62 => Key::F10,
        63 => Key::F11,
        64 => Key::F12,
        65 => Key::F13,
        66 => Key::F14,
        67 => Key::F15,
        68 => Key::F16,
        69 => Key::F17,
        70 => Key::F18,
        71 => Key::F19,
        _ => Key::F20,
    }
}

/// The keys offered for binding, in the order they are listed.
pub open spec fn key_catalog() -> Seq<Key> {
    Seq::new(73, |i: int| catalog_key(i as usize))
}

/// The place of each key in the catalog.
pub open spec fn catalog_index(k: Key) -> int {
    match k {
        Key::A => 0,
        Key::B => 1,
        Key::C => 2,
        Key::D => 3,
        Key::E => 4,
        Key::F => 5,
        Key::G => 6,
        Key::H => 7,
        Key::I => 8,
        Key::J => 9,
        Key::K => 10,
        Key::L => 11,
        Key::M => 12,
        Key::N => 13,
        Key::O => 14,
        Key::P => 15,
        Key::Q => 16,
        Key::R => 17,
        Key::S => 18,
        Key::T => 19,
        Key::U => 20,
        Key::V => 21,
        Key::W => 22,
        Key::X => 23,
        Key::Y => 24,
        Key::Z => 25,
        Key::Num0 => 26,
        Key::Num1 => 27,
        Key::Num2 => 28,
        Key::Num3 => 29,
        Key::Num4 => 30,
        Key::Num5 => 31,
        Key::Num6 => 32,
        Key::Num7 => 33,
        Key::Num8 => 34,
        Key::Num9 => 35,
        Key::ArrowDown => 36,
        Key::ArrowLeft => 37,
        Key::ArrowRight => 38,
        Key::ArrowUp => 39,
        Key::Escape => 40,
        Key::Tab => 41,
        Key::Backspace => 42,
        Key::Enter => 43,
        Key::Space => 44,
        Key::Insert => 45,
        Key::Delete => 46,
        Key::Home => 47,
        Key::End => 48,
        Key::PageUp => 49,
        Key::PageDown => 50,
        Key::Minus => 51,
        Key::PlusEquals => 52,
        Key::F1 => 53,
        Key::F2 => 54,
        Key::F3 => 55,
        Key::F4 => 56,
        Key::F5 => 57,
        Key::F6 => 58,
        Key::F7 => 59,
        Key::F8 => 60,
        Key::F9 => 61,
        Key::F10 => 62,
        Key::F11 => 63,
        Key::F12 => 64,
        Key::F13 => 65,
        Key::F14 => 66,
        Key::F15 => 67,
        Key::F16 => 68,
        Key::F17 => 69,
        Key::F18 => 70,
        Key::F19 => 71,
        Key::F20 => 72,
    }
}

impl Key {
    /// The name under which the key is shown and parsed.
    pub fn name(&self) -> (r: &'static str)
        ensures
            r@ == key_name(*self),
    {
        match self {
            Key::A => "A",
            Key::B => "B",
            Key::C => "C",
            Key::D => "D",
            Key::E => "E",
            Key::F => "F",
            Key::G => "G",
            Key::H => "H",
            Key::I => "I",
            Key::J => "J",
            Key::K => "K",
            Key::L => "L",
            Key::M => "M",
            Key::N => "N",
            Key::O => "O",
            Key::P => "P",
            Key::Q => "Q",
            Key::R => "R",
            Key::S => "S",
            Key::T => "T",
            Key::U => "U",
            Key::V => "V",
            Key::W => "W",
            Key::X => "X",
            Key::Y => "Y",
            Key::Z => "Z",
            Key::Num0 => "0",
            Key::Num1 => "1",
            Key::Num2 => "2",
            Key::Num3 => "3",
            Key::Num4 => "4",
            Key::Num5 => "5",
            Key::Num6 => "6",
            Key::Num7 => "7",
            Key::Num8 => "8",
            Key::Num9 => "9",
            Key::ArrowDown => "Down",
            Key::ArrowLeft => "Left",
            Key::ArrowRight => "Right",
            Key::ArrowUp => "Up",
            Key::Escape => "Escape",
            Key::Tab => "Tab",
            Key::Backspace => "Backspace",
            Key::Enter => "Enter",
            Key::Space => "Space",
            Key::Insert => "Insert",
            Key::Delete => "Delete",
            Key::Home => "Home",
            Key::End => "End",
            Key::PageUp => "PageUp",
            Key::PageDown => "PageDown",
            Key::Minus => "Minus",
            Key::PlusEquals => "Plus",
            Key::F1 => "F1",
            Key::F2 => "F2",
            Key::F3 => "F3",
            Key::F4 => "F4",
            Key::F5 => "F5",
            Key::F6 => "F6",
            Key::F7 => "F7",
            Key::F8 => "F8",
            Key::F9 => "F9",
            Key::F10 => "F10",
            Key::F11 => "F11",
            Key::F12 => "F12",
            Key::F13 => "F13",
            Key::F14 => "F14",
            Key::F15 => "F15",
            Key::F16 => "F16",
            Key::F17 => "F17",
            Key::F18 => "F18",
            Key::F19 => "F19",
            Key::F20 => "F20",
        }
    }
}

fn key_at(i: usize) -> (r: Key)
    ensures
        r == catalog_key(i),
{
    match i {
        0 => Key::A,
        1 => Key::B,
        2 => Key::C,
        3 => Key::D,
        4 => Key::E,
        5 => Key::F,
        6 => Key::G,
        7 => Key::H,
        8 => Key::I,
        9 => Key::J,
        10 => Key::K,
        11 => Key::L,
        12 => Key::M,
        13 => Key::N,
        14 => Key::O,
        15 => Key::P,
        16 => Key::Q,
        17 => Key::R,
        18 => Key::S,
        19 => Key::T,
        20 => Key::U,
        21 => Key::V,
        22 => Key::W,
        23 => Key::X,
        24 => Key::Y,
        25 => Key::Z,
        26 => Key::Num0,
        27 => Key::Num1,
        28 => Key::Num2,
        29 => Key::Num3,
        30 => Key::Num4,
        31 => Key::Num5,
        32 => Key::Num6,
        33 => Key::Num7,
        34 => Key::Num8,
        35 => Key::Num9,
        36 => Key::ArrowDown,
        37 => Key::ArrowLeft,
        38 => Key::ArrowRight,
        39 => Key::ArrowUp,
        40 => Key::Escape,
        41 => Key::Tab,
        42 => Key::Backspace,
        43 => Key::Enter,
        44 => Key::Space,
        45 => Key::Insert,
        46 => Key::Delete,
        47 => Key::Home,
        48 => Key::End,
        49 => Key::PageUp,
        50 => Key::PageDown,
        51 => Key::Minus,
        52 => Key::PlusEquals,
        53 => Key::F1,
        54 => Key::F2,
        55 => Key::F3,
        56 => Key::F4,
        57 => Key::F5,
        58 => Key::F6,
        59 => Key::F7,
        60 => Key::F8,
        61 => Key::F9,
        62 => Key::F10,
        63 => Key::F11,
        64 => Key::F12,
        65 => Key::F13,
        66 => Key::F14,
        67 => Key::F15,
        68 => Key::F16,
        69 => Key::F17,
        70 => Key::F18,
        71 => Key::F19,
        _ => Key::F20,
    }
}

fn catalog_keys() -> (r: Vec<Key>)
    ensures
        r@ == key_catalog(),
{
    let mut v: Vec<Key> = Vec::new();
    let mut i: usize = 0;
    while i < 73
        invariant
            i <= 73,
            v@ =~= key_catalog().take(i as int),
        decreases 73 - i,
    {
        v.push(key_at(i));
        assert(key_catalog().take(i + 1) =~= key_catalog().take(i as int).push(catalog_key(i)));
        i += 1;
    }
    assert(key_catalog().take(73) =~= key_catalog());
    v
}

/// Every key has its place in the catalog.
pub proof fn lemma_catalog_complete(k: Key)
    ensures
        0 <= catalog_index(k) < key_catalog().len(),
        key_catalog()[catalog_index(k)] == k,
{
}

/// Whether two strings hold the same characters.
pub fn same_text(a: &str, b: &str) -> (r: bool)
    ensures
        r == (a@ == b@),
{
    let n = a.unicode_len();
    if n != b.unicode_len() {
        return false;
    }
    let mut i: usize = 0;
    while i < n
        invariant
            n == a@.len(),
            n == b@.len(),
            i <= n,
            forall|j: int| 0 <= j < i ==> a@[j] == b@[j],
        decreases n - i,
    {
        if a.get_char(i) != b.get_char(i) {
            return false;
        }
        i += 1;
    }
    assert(a@ =~= b@);
    true
}

/// The key whose name is `s`, if any.
pub fn key_from_name(s: &str) -> (r: Option<Key>)
    ensures
        match r {
            Some(k) => key_name(k) == s@,
            None => forall|k: Key| key_name(k) != s@,
        },
{
    let keys = catalog_keys();
    let mut i: usize = 0;
    while i < keys.len()
        invariant
            keys@ == key_catalog(),
            i <= keys.len(),
            forall|j: int| 0 <= j < i ==> key_name(#[trigger] keys@[j]) != s@,
        decreases keys.len() - i,
    {
        let k = keys[i];
        if same_text(k.name(), s) {
            return Some(k);
        }
        i += 1;
    }
    assert forall|k: Key| key_name(k) != s@ by {
        lemma_catalog_complete(k);
        assert(keys@[catalog_index(k)] == k);
    }
    None
}

/// The catalog of keys that shortcuts can be bound to.
pub struct KeyboardKeys {
    pub keys: Vec<Key>,
}

impl KeyboardKeys {
    pub fn default() -> (r: KeyboardKeys)
        ensures
            r.keys@ == key_catalog(),
    {
        KeyboardKeys { keys: catalog_keys() }
    }

    /// The names of the catalog's keys, in catalog order.
    pub fn all_keys() -> (r: Vec<String>)
        ensures
            r@.len() == key_catalog().len(),
            forall|i: int| 0 <= i < r@.len() ==> #[trigger] r@[i]@ == key_name(key_catalog()[i]),
    {
        let keys = KeyboardKeys::default().keys;
        let mut names: Vec<String> = Vec::new();
        let mut i: usize = 0;
        while i < keys.len()
            invariant
                keys@ == key_catalog(),
                i <= keys.len(),
                names@.len() == i,
                forall|j: int| 0 <= j < i ==> #[trigger] names@[j]@ == key_name(key_catalog()[j]),
            decreases keys.len() - i,
        {
            names.push(String::from_str(keys[i].name()));
            i += 1;
        }
        names
    }
}

} // verus!
