use vstd::prelude::*;

use crate::action::{action_name, is_global, usable_during_image_view, Action};
use crate::keys::{key_catalog, key_from_name, key_name, Key, KeyboardKeys};

verus! {

/// The modifier keys that a shortcut asks for; `command` is Ctrl, or Cmd on a Mac.
#[derive(Clone, Copy, Debug, PartialEq, Eq, Structural)]
pub struct Modifiers {
    pub alt: bool,
    pub shift: bool,
    pub command: bool,
}

/// A key combination: modifiers and one key.
#[derive(Clone, Copy, Debug, PartialEq, Eq, Structural)]
pub struct KeyboardShortcut {
    pub modifiers: Modifiers,
    pub key: Key,
}

pub open spec fn command_only() -> Modifiers {
    Modifiers { alt: false, shift: false, command: true }
}

pub open spec fn no_modifier(m: Modifiers) -> bool {
    !m.alt && !m.shift && !m.command
}

impl Modifiers {
    /// Command alone.
    pub fn command_only() -> (r: Modifiers)
        ensures
            r == command_only(),
    {
        Modifiers { alt: false, shift: false, command: true }
    }
}

/// The modifier keys held during a key press, as the windowing layer reports
/// them: `command` is Ctrl, or Cmd on a Mac, and `ctrl` is the Ctrl key itself.
#[derive(Clone, Copy, Debug, PartialEq, Eq, Structural)]
pub struct HeldModifiers {
    pub alt: bool,
    pub shift: bool,
    pub ctrl: bool,
    pub command: bool,
}

/// A key pressed in this frame, with the modifiers held.
#[derive(Clone, Copy, Debug, PartialEq, Eq, Structural)]
pub struct KeyPress {
    pub modifiers: HeldModifiers,
    pub key: Key,
}

/// Whether held modifiers satisfy a shortcut's modifiers: Alt and Shift as
/// asked; Command held where it is asked for, else neither Ctrl nor Command.
pub open spec fn modifiers_match(h: HeldModifiers, p: Modifiers) -> bool {
    &&& h.alt == p.alt
    &&& h.shift == p.shift
    &&& if p.command {
        h.command
    } else {
        !h.ctrl && !h.command
    }
}

/// Whether a press triggers the combination `s`.
pub open spec fn fires(q: KeyPress, s: KeyboardShortcut) -> bool {
    q.key == s.key && modifiers_match(q.modifiers, s.modifiers)
}

/// Whether some press of `p` triggers `s`.
pub open spec fn pressed_for(p: Seq<KeyPress>, s: KeyboardShortcut) -> bool {
    exists|i: int| 0 <= i < p.len() && fires(p[i], s)
}

/// Relies on egui::Modifiers::matches, for a pattern without Ctrl or Mac Cmd
/// of its own: Alt and Shift must be equal; a pattern with Command needs
/// Command held; one without needs neither Ctrl nor Command held. Mac Cmd on
/// the held side plays no part in that case.
#[verifier::external_body]
fn held_matches(held: &HeldModifiers, pattern: &Modifiers) -> (r: bool)
    ensures
        r == modifiers_match(*held, *pattern),
{
    let held = egui::Modifiers {
        alt: held.alt,
        ctrl: held.ctrl,
        shift: held.shift,
        mac_cmd: false,
        command: held.command,
    };
    let pattern = egui::Modifiers {
        alt: pattern.alt,
        ctrl: false,
        shift: pattern.shift,
        mac_cmd: false,
        command: pattern.command,
    };
    held.matches(pattern)
}

/// The key presses of one frame that no shortcut has consumed yet.
pub struct KeyInput {
    pressed: Vec<KeyPress>,
}

/// `p` with every press that triggers `s` taken out.
pub open spec fn without(p: Seq<KeyPress>, s: KeyboardShortcut) -> Seq<KeyPress>
    decreases p.len(),
{
    if p.len() == 0 {
        p
    } else {
        let r = without(p.drop_last(), s);
        if fires(p.last(), s) {
            r
        } else {
            r.push(p.last())
        }
    }
}

proof fn lemma_without_absent(p: Seq<KeyPress>, s: KeyboardShortcut)
    requires
        !pressed_for(p, s),
    ensures
        without(p, s) == p,
    decreases p.len(),
{
    if p.len() > 0 {
        assert(!pressed_for(p.drop_last(), s)) by {
            if pressed_for(p.drop_last(), s) {
                let i = choose|i: int| 0 <= i < p.drop_last().len() && fires(p.drop_last()[i], s);
                assert(p[i] == p.drop_last()[i]);
            }
        }
        lemma_without_absent(p.drop_last(), s);
        assert(!fires(p[p.len() - 1], s));
        assert(p.drop_last().push(p.last()) =~= p);
    }
}

impl View for KeyInput {
    type V = Seq<KeyPress>;

    closed spec fn view(&self) -> Seq<KeyPress> {
        self.pressed@
    }
}

impl KeyInput {
    /// The presses of a frame, none consumed yet.
    pub fn new(pressed: Vec<KeyPress>) -> (r: KeyInput)
        ensures
            r@ == pressed@,
    {
        KeyInput { pressed }
    }

    /// Whether a press of this frame, not consumed yet, triggers `s`.
    pub fn is_pressed(&self, s: &KeyboardShortcut) -> (r: bool)
        ensures
            r == pressed_for(self@, *s),
    {
        let mut i: usize = 0;
        while i < self.pressed.len()
            invariant
                i <= self.pressed.len(),
                forall|j: int| 0 <= j < i ==> !fires(self@[j], *s),
            decreases self.pressed.len() - i,
        {
            let q = self.pressed[i];
            if q.key == s.key && held_matches(&q.modifiers, &s.modifiers) {
                assert(fires(self@[i as int], *s));
                return true;
            }
            i += 1;
        }
        false
    }

    /// Consumes every pending press that triggers `s`; returns whether there
    /// was one.
    pub fn consume_shortcut(&mut self, s: &KeyboardShortcut) -> (r: bool)
        ensures
            r == pressed_for(old(self)@, *s),
            final(self)@ == without(old(self)@, *s),
    {
        let ghost p = self@;
        let mut kept: Vec<KeyPress> = Vec::new();
        let mut found = false;
        let mut i: usize = 0;
        while i < self.pressed.len()
            invariant
                self@ == p,
                i <= p.len(),
                kept@ == without(p.take(i as int), *s),
                found == (exists|j: int| 0 <= j < i && fires(p[j], *s)),
            decreases p.len() - i,
        {
            let x = self.pressed[i];
            assert(p.take(i + 1).drop_last() =~= p.take(i as int));
            assert(p.take(i + 1).last() == x);
            if x.key == s.key && held_matches(&x.modifiers, &s.modifiers) {
                assert(fires(p[i as int], *s));
                found = true;
            } else {
                kept.push(x);
            }
            i += 1;
        }
        assert(p.take(p.len() as int) =~= p);
        self.pressed = kept;
        found
    }
}

/// The model of a binding.
pub struct BindingView {
    pub name: Seq<char>,
    pub description: Seq<char>,
    pub shortcut: KeyboardShortcut,
    pub active: bool,
    pub while_viewing_image: bool,
    pub action: Action,
}

/// A new binding: enabled, named after its action, applicable while viewing
/// an image exactly when the action is.
pub open spec fn new_binding(m: Modifiers, k: Key, d: Seq<char>, a: Action) -> BindingView {
    BindingView {
        name: action_name(a),
        description: d,
        shortcut: KeyboardShortcut { modifiers: m, key: k },
        active: true,
        while_viewing_image: usable_during_image_view(a),
        action: a,
    }
}

/// A binding of a key combination to an action.
pub struct ShortCut {
    pub name: String,
    pub description: String,
    pub shortcut: KeyboardShortcut,
    active: bool,
    while_viewing_image: bool,
    action: Action,
}

impl View for ShortCut {
    type V = BindingView;

    closed spec fn view(&self) -> BindingView {
        BindingView {
            name: self.name@,
            description: self.description@,
            shortcut: self.shortcut,
            active: self.active,
            while_viewing_image: self.while_viewing_image,
            action: self.action,
        }
    }
}

/// Whether a binding takes part in dispatch in the given viewing state.
pub open spec fn eligible(b: BindingView, viewing: bool) -> bool {
    b.active && (is_global(b.action) || b.while_viewing_image == viewing)
}

impl ShortCut {
    fn new(modifiers: Modifiers, key: Key, description: String, action: Action) -> (r: ShortCut)
        ensures
            r@ == new_binding(modifiers, key, description@, action),
    {
        ShortCut {
            name: action.to_string(),
            description,
            shortcut: KeyboardShortcut { modifiers, key },
            active: true,
            while_viewing_image: action.can_be_performed_during_image_view(),
            action,
        }
    }

    /// The key whose name is `s`, if any.
    pub fn from_str_to_key(s: &str) -> (r: Option<Key>)
        ensures
            match r {
                Some(k) => key_name(k) == s@,
                None => forall|k: Key| key_name(k) != s@,
            },
    {
        key_from_name(s)
    }

    pub fn is_active(&self) -> (r: bool)
        ensures
            r == self@.active,
    {
        self.active
    }

    pub fn action(&self) -> (r: Action)
        ensures
            r == self@.action,
    {
        self.action
    }

    pub fn while_viewing_image(&self) -> (r: bool)
        ensures
            r == self@.while_viewing_image,
    {
        self.while_viewing_image
    }

    /// A field-by-field copy.
    pub fn copy(&self) -> (r: ShortCut)
        ensures
            r@ == self@,
    {
        ShortCut {
            name: self.name.clone(),
            description: self.description.clone(),
            shortcut: self.shortcut,
            active: self.active,
            while_viewing_image: self.while_viewing_image,
            action: self.action,
        }
    }

    /// Whether two bindings agree in every field.
    pub fn same_as(&self, other: &ShortCut) -> (r: bool)
        ensures
            r == (self@ == other@),
    {
        self.name == other.name && self.description == other.description && self.shortcut
            == other.shortcut && self.active == other.active && self.while_viewing_image
            == other.while_viewing_image && self.action == other.action
    }

    /// Consumes this binding's combination if it was pressed, and yields the
    /// action if the binding is enabled.
    fn shortcut_listener(&self, input: &mut KeyInput) -> (r: Option<Action>)
        ensures
            final(input)@ == without(old(input)@, self@.shortcut),
            r == (if pressed_for(old(input)@, self@.shortcut) && self@.active {
                Some(self@.action)
            } else {
                None
            }),
    {
        if input.consume_shortcut(&self.shortcut) && self.active {
            Some(self.action)
        } else {
            None
        }
    }
}

/// The bindings a registry starts with: Command plus a letter for each action
/// but area and fullscreen selection and capture.
pub open spec fn default_bindings() -> Seq<BindingView> {
    seq![
        new_binding(command_only(), Key::C, "Copy to clipboard"@, Action::Copy),
        new_binding(command_only(), Key::H, "Go to the home page"@, Action::HomePage),
        new_binding(command_only(), Key::N, "Take a new screenshot"@, Action::NewScreenshot),
        new_binding(command_only(), Key::S, "Save"@, Action::Save),
        new_binding(command_only(), Key::W, "Close the application"@, Action::Close),
        new_binding(command_only(), Key::Z, "Undo"@, Action::Undo),
        new_binding(command_only(), Key::K, "Manage the timer"@, Action::ManageTimer),
        new_binding(command_only(), Key::M, "Modify the screenshot"@, Action::Modify),
        new_binding(command_only(), Key::R, "Reset the timer"@, Action::ResetTimer),
        new_binding(command_only(), Key::T, "Set the timer"@, Action::SetTimer),
        new_binding(command_only(), Key::U, "Start the timer"@, Action::StartTimer),
        new_binding(command_only(), Key::Q, "Open the settings"@, Action::Settings),
    ]
}

/// The outcome of one dispatch pass over `bs`: the action of the first
/// eligible binding that a pending press triggers, and the presses left.
pub open spec fn listen(bs: Seq<BindingView>, pressed: Seq<KeyPress>, viewing: bool) -> (
    Option<Action>,
    Seq<KeyPress>,
)
    decreases bs.len(),
{
    if bs.len() == 0 {
        (None, pressed)
    } else if eligible(bs[0], viewing) && pressed_for(pressed, bs[0].shortcut) {
        (Some(bs[0].action), without(pressed, bs[0].shortcut))
    } else {
        listen(bs.subrange(1, bs.len() as int), pressed, viewing)
    }
}

/// Whether two bindings of `bs` share a key combination.
pub open spec fn has_duplicates(bs: Seq<BindingView>) -> bool {
    exists|i: int, j: int| 0 <= i < j < bs.len() && bs[i].shortcut == bs[j].shortcut
}

/// Whether some binding of `bs` has the combination `s`.
pub open spec fn combo_taken(bs: Seq<BindingView>, s: KeyboardShortcut) -> bool {
    exists|i: int| 0 <= i < bs.len() && bs[i].shortcut == s
}

/// `i` is the first place of `bs` whose combination is `s`.
pub open spec fn first_with(bs: Seq<BindingView>, s: KeyboardShortcut, i: int) -> bool {
    &&& 0 <= i < bs.len()
    &&& bs[i].shortcut == s
    &&& forall|j: int| 0 <= j < i ==> bs[j].shortcut != s
}

/// The table of shortcut bindings, in evaluation order, with the catalog of
/// key names offered for binding.
pub struct AllShortcuts {
    pub vec: Vec<ShortCut>,
    pub show: bool,
    pub all_keys: Vec<String>,
}

impl AllShortcuts {
    pub open spec fn bindings(&self) -> Seq<BindingView> {
        self.vec@.map_values(|b: ShortCut| b@)
    }

    /// The default table.
    pub fn default() -> (r: AllShortcuts)
        ensures
            r.bindings() == default_bindings(),
            !r.show,
            r.all_keys@.len() == key_catalog().len(),
            forall|i: int|
                0 <= i < r.all_keys@.len() ==> #[trigger] r.all_keys@[i]@ == key_name(
                    key_catalog()[i],
                ),
    {
        let m = Modifiers::command_only();
        let mut vec: Vec<ShortCut> = Vec::new();
        vec.push(ShortCut::new(m, Key::C, String::from_str("Copy to clipboard"), Action::Copy));
        vec.push(ShortCut::new(m, Key::H, String::from_str("Go to the home page"), Action::HomePage));
        vec.push(ShortCut::new(m, Key::N, String::from_str("Take a new screenshot"), Action::NewScreenshot));
        vec.push(ShortCut::new(m, Key::S, String::from_str("Save"), Action::Save));
        vec.push(ShortCut::new(m, Key::W, String::from_str("Close the application"), Action::Close));
        vec.push(ShortCut::new(m, Key::Z, String::from_str("Undo"), Action::Undo));
        vec.push(ShortCut::new(m, Key::K, String::from_str("Manage the timer"), Action::ManageTimer));
        vec.push(ShortCut::new(m, Key::M, String::from_str("Modify the screenshot"), Action::Modify));
        vec.push(ShortCut::new(m, Key::R, String::from_str("Reset the timer"), Action::ResetTimer));
        vec.push(ShortCut::new(m, Key::T, String::from_str("Set the timer"), Action::SetTimer));
        vec.push(ShortCut::new(m, Key::U, String::from_str("Start the timer"), Action::StartTimer));
        vec.push(ShortCut::new(m, Key::Q, String::from_str("Open the settings"), Action::Settings));
        let r = AllShortcuts { vec, show: false, all_keys: KeyboardKeys::all_keys() };
        assert(r.bindings() =~= default_bindings());
        r
    }

    /// Whether every default binding is in the table.
    pub fn is_default(shortcut: &AllShortcuts) -> (r: bool)
        ensures
            r == forall|i: int|
                0 <= i < default_bindings().len() ==> shortcut.bindings().contains(
                    #[trigger] default_bindings()[i],
                ),
    {
        let defaults = AllShortcuts::default();
        let mut i: usize = 0;
        while i < defaults.vec.len()
            invariant
                defaults.bindings() == default_bindings(),
                i <= defaults.vec.len(),
                forall|k: int| 0 <= k < i ==> shortcut.bindings().contains(#[trigger] default_bindings()[k]),
            decreases defaults.vec.len() - i,
        {
            let d = &defaults.vec[i];
            assert(d@ == default_bindings()[i as int]);
            if !shortcut.contains_binding(d) {
                return false;
            }
            i += 1;
        }
        true
    }

    /// Whether the table holds a binding equal to `d` in every field.
    pub fn contains_binding(&self, d: &ShortCut) -> (r: bool)
        ensures
            r == self.bindings().contains(d@),
    {
        let mut j: usize = 0;
        while j < self.vec.len()
            invariant
                j <= self.vec.len(),
                forall|k: int| 0 <= k < j ==> self.bindings()[k] != d@,
            decreases self.vec.len() - j,
        {
            if self.vec[j].same_as(d) {
                assert(self.bindings()[j as int] == d@);
                return true;
            }
            j += 1;
        }
        false
    }

    /// One dispatch pass: the action of the first enabled binding, in table
    /// order, that applies in the current viewing state (Settings and Close
    /// always apply) and whose combination was pressed; that combination is
    /// consumed. Scanning stops at the first match.
    pub fn listener(&self, input: &mut KeyInput, image_viewing: bool) -> (r: Option<Action>)
        ensures
            (r, final(input)@) == listen(self.bindings(), old(input)@, image_viewing),
    {
        let ghost bs = self.bindings();
        let ghost p = old(input)@;
        let n = self.vec.len();
        assert(bs.subrange(0, n as int) =~= bs);
        let mut i: usize = 0;
        while i < n
            invariant
                bs == self.bindings(),
                n == self.vec.len(),
                n == bs.len(),
                i <= n,
                p == old(input)@,
                input@ == p,
                listen(bs, p, image_viewing) == listen(bs.subrange(i as int, n as int), p, image_viewing),
            decreases n - i,
        {
            let b = &self.vec[i];
            let ghost rest = bs.subrange(i as int, n as int);
            assert(rest[0] == b@);
            assert(rest.subrange(1, rest.len() as int) =~= bs.subrange(i + 1, n as int));
            let applies = if b.action.is_global() {
                b.active
            } else {
                b.while_viewing_image == image_viewing && b.active
            };
            if applies {
                let got = b.shortcut_listener(input);
                if got.is_some() {
                    assert(listen(rest, p, image_viewing) == (got, without(p, rest[0].shortcut)));
                    return got;
                }
                proof {
                    lemma_without_absent(p, b@.shortcut);
                }
            }
            i += 1;
        }
        None
    }

    /// Whether two bindings share a key combination, enabled or not.
    pub fn has_duplicate_shortcuts(&self) -> (r: bool)
        ensures
            r == has_duplicates(self.bindings()),
    {
        let ghost bs = self.bindings();
        let n = self.vec.len();
        let mut i: usize = 0;
        while i < n
            invariant
                bs == self.bindings(),
                n == self.vec.len(),
                n == bs.len(),
                i <= n,
                forall|a: int, b: int| 0 <= a < i && a < b < n ==> bs[a].shortcut != bs[b].shortcut,
            decreases n - i,
        {
            let mut j: usize = i + 1;
            while j < n
                invariant
                    bs == self.bindings(),
                    n == self.vec.len(),
                    n == bs.len(),
                    i < n,
                    i + 1 <= j <= n,
                    forall|b: int| i < b < j ==> bs[i as int].shortcut != bs[b].shortcut,
                decreases n - j,
            {
                if self.vec[i].shortcut == self.vec[j].shortcut {
                    assert(bs[i as int].shortcut == bs[j as int].shortcut);
                    return true;
                }
                j += 1;
            }
            i += 1;
        }
        false
    }

    /// Whether some binding has the combination `s`.
    pub fn has_combination(&self, s: &KeyboardShortcut) -> (r: bool)
        ensures
            r == combo_taken(self.bindings(), *s),
    {
        let mut i: usize = 0;
        while i < self.vec.len()
            invariant
                i <= self.vec.len(),
                forall|j: int| 0 <= j < i ==> self.bindings()[j].shortcut != *s,
            decreases self.vec.len() - i,
        {
            if self.vec[i].shortcut == *s {
                assert(self.bindings()[i as int].shortcut == *s);
                return true;
            }
            i += 1;
        }
        false
    }

    /// The place of the first binding with combination `s`, if any.
    fn position_of(&self, s: &KeyboardShortcut) -> (r: Option<usize>)
        ensures
            match r {
                Some(i) => first_with(self.bindings(), *s, i as int),
                None => !combo_taken(self.bindings(), *s),
            },
    {
        let mut i: usize = 0;
        while i < self.vec.len()
            invariant
                i <= self.vec.len(),
                forall|j: int| 0 <= j < i ==> self.bindings()[j].shortcut != *s,
            decreases self.vec.len() - i,
        {
            if self.vec[i].shortcut == *s {
                return Some(i);
            }
            i += 1;
        }
        None
    }

    /// Adds a binding of `key` with `modifiers` to `action`, and returns a copy
    /// of it. Refused, leaving the table as it was, when the action or the key
    /// is missing, when no modifier is set, or when a binding already has the
    /// combination.
    pub fn add_binding(
        &mut self,
        action: Option<Action>,
        key: Option<Key>,
        modifiers: Modifiers,
        description: String,
    ) -> (r: Option<ShortCut>)
        ensures
            final(self).show == old(self).show,
            final(self).all_keys@ == old(self).all_keys@,
            match (action, key) {
                (Some(a), Some(k)) if !no_modifier(modifiers) && !combo_taken(
                    old(self).bindings(),
                    KeyboardShortcut { modifiers, key: k },
                ) => {
                    &&& r is Some
                    &&& r->0@ == new_binding(modifiers, k, description@, a)
                    &&& final(self).bindings() == old(self).bindings().push(
                        new_binding(modifiers, k, description@, a),
                    )
                },
                _ => r is None && final(self).bindings() == old(self).bindings(),
            },
    {
        let (a, k) = match (action, key) {
            (Some(a), Some(k)) => (a, k),
            _ => return None,
        };
        if !modifiers.alt && !modifiers.shift && !modifiers.command {
            return None;
        }
        let combo = KeyboardShortcut { modifiers, key: k };
        if self.has_combination(&combo) {
            return None;
        }
        let b = ShortCut::new(modifiers, k, description, a);
        let copy = b.copy();
        self.vec.push(b);
        assert(self.bindings() =~= old(self).bindings().push(copy@));
        Some(copy)
    }

    /// Removes the first binding with combination `target`, if any.
    pub fn remove_binding(&mut self, target: &KeyboardShortcut)
        ensures
            final(self).show == old(self).show,
            final(self).all_keys@ == old(self).all_keys@,
            !combo_taken(old(self).bindings(), *target) ==> final(self).bindings() == old(
                self,
            ).bindings(),
            forall|i: int|
                first_with(old(self).bindings(), *target, i) ==> final(self).bindings() == old(
                    self,
                ).bindings().remove(i),
    {
        match self.position_of(target) {
            None => {},
            Some(i) => {
                self.vec.remove(i);
                assert(self.bindings() =~= old(self).bindings().remove(i as int));
                assert forall|j: int| first_with(old(self).bindings(), *target, j) implies j
                    == i by {
                    if j > i {
                        assert(old(self).bindings()[i as int].shortcut == *target);
                    }
                }
            },
        }
    }

    /// Enables or disables the first binding with combination `target`, if any.
    pub fn set_enabled(&mut self, target: &KeyboardShortcut, enabled: bool)
        ensures
            final(self).show == old(self).show,
            final(self).all_keys@ == old(self).all_keys@,
            !combo_taken(old(self).bindings(), *target) ==> final(self).bindings() == old(
                self,
            ).bindings(),
            forall|i: int|
                first_with(old(self).bindings(), *target, i) ==> final(self).bindings() == old(
                    self,
                ).bindings().update(i, BindingView { active: enabled, ..old(self).bindings()[i] }),
    {
        match self.position_of(target) {
            None => {},
            Some(i) => {
                self.vec[i].active = enabled;
                assert(self.bindings() =~= old(self).bindings().update(
                    i as int,
                    BindingView { active: enabled, ..old(self).bindings()[i as int] },
                ));
                assert forall|j: int| first_with(old(self).bindings(), *target, j) implies j
                    == i by {
                    if j > i {
                        assert(old(self).bindings()[i as int].shortcut == *target);
                    }
                }
            },
        }
    }

    /// A copy of the table.
    pub fn copy(&self) -> (r: AllShortcuts)
        ensures
            r.bindings() == self.bindings(),
            r.show == self.show,
            r.all_keys@.len() == self.all_keys@.len(),
            forall|i: int| 0 <= i < r.all_keys@.len() ==> #[trigger] r.all_keys@[i]@ == self.all_keys@[i]@,
    {
        let mut vec: Vec<ShortCut> = Vec::new();
        let mut i: usize = 0;
        while i < self.vec.len()
            invariant
                i <= self.vec.len(),
                vec@.map_values(|b: ShortCut| b@) =~= self.bindings().take(i as int),
            decreases self.vec.len() - i,
        {
            let c = self.vec[i].copy();
            let ghost before = vec@;
            vec.push(c);
            assert(vec@.map_values(|b: ShortCut| b@) =~= before.map_values(|b: ShortCut| b@).push(c@));
            assert(self.bindings().take(i + 1) =~= self.bindings().take(i as int).push(c@));
            i += 1;
        }
        let mut keys: Vec<String> = Vec::new();
        let mut j: usize = 0;
        while j < self.all_keys.len()
            invariant
                j <= self.all_keys.len(),
                keys@.len() == j,
                forall|k: int| 0 <= k < j ==> #[trigger] keys@[k]@ == self.all_keys@[k]@,
            decreases self.all_keys.len() - j,
        {
            keys.push(self.all_keys[j].clone());
            j += 1;
        }
        assert(self.bindings().take(i as int) =~= self.bindings());
        let r = AllShortcuts { vec, show: self.show, all_keys: keys };
        assert(r.bindings() =~= self.bindings());
        r
    }
}

/// Two enabled bindings with the same key combination always count as a
/// conflict, and a table whose bindings all have different combinations has
/// none.
pub proof fn lemma_conflicts(bs: Seq<BindingView>)
    ensures
        (exists|i: int, j: int|
            0 <= i < bs.len() && 0 <= j < bs.len() && i != j && bs[i].active && bs[j].active
                && bs[i].shortcut == bs[j].shortcut) ==> has_duplicates(bs),
        (forall|i: int, j: int|
            0 <= i < bs.len() && 0 <= j < bs.len() && i != j ==> bs[i].shortcut
                != bs[j].shortcut) ==> !has_duplicates(bs),
{
    if exists|i: int, j: int|
        0 <= i < bs.len() && 0 <= j < bs.len() && i != j && bs[i].active && bs[j].active
            && bs[i].shortcut == bs[j].shortcut {
        let (i, j) = choose|i: int, j: int|
            0 <= i < bs.len() && 0 <= j < bs.len() && i != j && bs[i].active && bs[j].active
                && bs[i].shortcut == bs[j].shortcut;
        if i < j {
            assert(0 <= i < j < bs.len() && bs[i].shortcut == bs[j].shortcut);
        } else {
            assert(0 <= j < i < bs.len() && bs[j].shortcut == bs[i].shortcut);
        }
    }
}

/// A dispatch pass yields only the action of an enabled binding that applies
/// in the current viewing state, Settings and Close applying in both.
pub proof fn lemma_listen_only_eligible(
    bs: Seq<BindingView>,
    pressed: Seq<KeyPress>,
    viewing: bool,
)
    ensures
        listen(bs, pressed, viewing).0 is Some ==> exists|i: int|
            0 <= i < bs.len() && bs[i].active && (is_global(bs[i].action)
                || bs[i].while_viewing_image == viewing) && bs[i].action == listen(
                bs,
                pressed,
                viewing,
            ).0->0,
    decreases bs.len(),
{
    if bs.len() > 0 && !(eligible(bs[0], viewing) && pressed_for(pressed, bs[0].shortcut)) {
        let rest = bs.subrange(1, bs.len() as int);
        lemma_listen_only_eligible(rest, pressed, viewing);
        if listen(rest, pressed, viewing).0 is Some {
            let i = choose|i: int|
                0 <= i < rest.len() && rest[i].active && (is_global(rest[i].action)
                    || rest[i].while_viewing_image == viewing) && rest[i].action == listen(
                    rest,
                    pressed,
                    viewing,
                ).0->0;
            assert(bs[i + 1] == rest[i]);
        }
    }
}

} // verus!
