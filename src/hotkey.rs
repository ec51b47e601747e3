//! Hotkey combinations: modifier and key names as written in the settings,
//! and the combination they describe.

use vstd::prelude::*;
use crate::settings::AppSettings;
use crate::text::{lower_of, lowercase, same_text};

verus! {

/// One of the four modifier keys a combination can hold.
#[derive(Clone, Copy, Debug, PartialEq, Eq, Structural)]
pub enum Modifier {
    Alt,
    Control,
    Shift,
    Meta,
}

/// A set of modifier keys, one flag per key.
#[derive(Clone, Copy, Debug, PartialEq, Eq, Structural)]
pub struct ModifierSet {
    pub alt: bool,
    pub control: bool,
    pub shift: bool,
    pub meta: bool,
}

/// The keys a combination can end with: space, letters, digits and F1 to F12.
#[derive(Clone, Copy, Debug, PartialEq, Eq, Structural)]
pub enum KeyCode {
    Space,
    KeyA,
    KeyB,
    KeyC,
    KeyD,
    KeyE,
    KeyF,
    KeyG,
    KeyH,
    KeyI,
    KeyJ,
    KeyK,
    KeyL,
    KeyM,
    KeyN,
    KeyO,
    KeyP,
    KeyQ,
    KeyR,
    KeyS,
    KeyT,
    KeyU,
    KeyV,
    KeyW,
    KeyX,
    KeyY,
    KeyZ,
    Digit1,
    Digit2,
    Digit3,
    Digit4,
    Digit5,
    Digit6,
    Digit7,
    Digit8,
    Digit9,
    Digit0,
    F1,
    F2,
    F3,
    F4,
    F5,
    F6,
    F7,
    F8,
    F9,
    F10,
    F11,
    F12,
}

/// A combination of modifiers (none when the set would be empty) and a key.
#[derive(Clone, Copy, Debug, PartialEq, Eq, Structural)]
pub struct HotkeySpec {
    pub modifiers: Option<ModifierSet>,
    pub key: KeyCode,
}

/// The modifier that a lower-case name stands for, synonyms included.
pub open spec fn modifier_of(name: Seq<char>) -> Option<Modifier> {
    if name == "alt"@ || name == "opt"@ || name == "option"@ {
        Some(Modifier::Alt)
    } else if name == "ctrl"@ || name == "control"@ {
        Some(Modifier::Control)
    } else if name == "shift"@ {
        Some(Modifier::Shift)
    } else if name == "meta"@ || name == "cmd"@ || name == "command"@ || name == "super"@ {
        Some(Modifier::Meta)
    } else {
        None
    }
}

/// Whether some name in `names` stands for `m`.
pub open spec fn names_hold(names: Seq<Seq<char>>, m: Modifier) -> bool {
    exists|i: int| 0 <= i < names.len() && modifier_of(names[i]) == Some(m)
}

/// The set of modifiers named in `names`; names that stand for none are ignored.
pub open spec fn modifier_set_of(names: Seq<Seq<char>>) -> ModifierSet {
    ModifierSet {
        alt: names_hold(names, Modifier::Alt),
        control: names_hold(names, Modifier::Control),
        shift: names_hold(names, Modifier::Shift),
        meta: names_hold(names, Modifier::Meta),
    }
}

/// The characters of each string.
pub open spec fn views_of(names: Seq<String>) -> Seq<Seq<char>> {
    names.map_values(|s: String| s@)
}

/// The lower-case form of each string.
pub open spec fn lowered_views(names: Seq<String>) -> Seq<Seq<char>> {
    names.map_values(|s: String| lower_of(s@))
}

/// The key that a lower-case name stands for.
pub open spec fn key_code_of(name: Seq<char>) -> Option<KeyCode> {
    if name == "space"@ {
        Some(KeyCode::Space)
    } else if name == "a"@ {
        Some(KeyCode::KeyA)
    } else if name == "b"@ {
        Some(KeyCode::KeyB)
    } else if name == "c"@ {
        Some(KeyCode::KeyC)
    } else if name == "d"@ {
        Some(KeyCode::KeyD)
    } else if name == "e"@ {
        Some(KeyCode::KeyE)
    } else if name == "f"@ {
        Some(KeyCode::KeyF)
    } else if name == "g"@ {
        Some(KeyCode::KeyG)
    } else if name == "h"@ {
        Some(KeyCode::KeyH)
    } else if name == "i"@ {
        Some(KeyCode::KeyI)
    } else if name == "j"@ {
        Some(KeyCode::KeyJ)
    } else if name == "k"@ {
        Some(KeyCode::KeyK)
    } else if name == "l"@ {
        Some(KeyCode::KeyL)
    } else if name == "m"@ {
        Some(KeyCode::KeyM)
    } else if name == "n"@ {
        Some(KeyCode::KeyN)
    } else if name == "o"@ {
        Some(KeyCode::KeyO)
    } else if name == "p"@ {
        Some(KeyCode::KeyP)
    } else if name == "q"@ {
        Some(KeyCode::KeyQ)
    } else if name == "r"@ {
        Some(KeyCode::KeyR)
    } else if name == "s"@ {
        Some(KeyCode::KeyS)
    } else if name == "t"@ {
        Some(KeyCode::KeyT)
    } else if name == "u"@ {
        Some(KeyCode::KeyU)
    } else if name == "v"@ {
        Some(KeyCode::KeyV)
    } else if name == "w"@ {
        Some(KeyCode::KeyW)
    } else if name == "x"@ {
        Some(KeyCode::KeyX)
    } else if name == "y"@ {
        Some(KeyCode::KeyY)
    } else if name == "z"@ {
        Some(KeyCode::KeyZ)
    } else if name == "1"@ {
        Some(KeyCode::Digit1)
    } else if name == "2"@ {
        Some(KeyCode::Digit2)
    } else if name == "3"@ {
        Some(KeyCode::Digit3)
    } else if name == "4"@ {
        Some(KeyCode::Digit4)
    } else if name == "5"@ {
        Some(KeyCode::Digit5)
    } else if name == "6"@ {
        Some(KeyCode::Digit6)
    } else if name == "7"@ {
        Some(KeyCode::Digit7)
    } else if name == "8"@ {
        Some(KeyCode::Digit8)
    } else if name == "9"@ {
        Some(KeyCode::Digit9)
    } else if name == "0"@ {
        Some(KeyCode::Digit0)
    } else if name == "f1"@ {
        Some(KeyCode::F1)
    } else if name == "f2"@ {
        Some(KeyCode::F2)
    } else if name == "f3"@ {
        Some(KeyCode::F3)
    } else if name == "f4"@ {
        Some(KeyCode::F4)
    } else if name == "f5"@ {
        Some(KeyCode::F5)
    } else if name == "f6"@ {
        Some(KeyCode::F6)
    } else if name == "f7"@ {
        Some(KeyCode::F7)
    } else if name == "f8"@ {
        Some(KeyCode::F8)
    } else if name == "f9"@ {
        Some(KeyCode::F9)
    } else if name == "f10"@ {
        Some(KeyCode::F10)
    } else if name == "f11"@ {
        Some(KeyCode::F11)
    } else if name == "f12"@ {
        Some(KeyCode::F12)
    } else {
        None
    }
}

impl ModifierSet {
    /// The set with no modifier in it.
    pub fn empty() -> (r: ModifierSet)
        ensures
            r.is_empty_spec(),
    {
        ModifierSet { alt: false, control: false, shift: false, meta: false }
    }

    pub open spec fn is_empty_spec(self) -> bool {
        !self.alt && !self.control && !self.shift && !self.meta
    }

    /// Whether the set holds no modifier.
    pub fn is_empty(&self) -> (r: bool)
        ensures
            r == self.is_empty_spec(),
    {
        !self.alt && !self.control && !self.shift && !self.meta
    }

    /// The set with `m` added.
    pub fn with(self, m: Modifier) -> (r: ModifierSet)
        ensures
            r.alt == (self.alt || m == Modifier::Alt),
            r.control == (self.control || m == Modifier::Control),
            r.shift == (self.shift || m == Modifier::Shift),
            r.meta == (self.meta || m == Modifier::Meta),
    {
        match m {
            Modifier::Alt => ModifierSet { alt: true, ..self },
            Modifier::Control => ModifierSet { control: true, ..self },
            Modifier::Shift => ModifierSet { shift: true, ..self },
            Modifier::Meta => ModifierSet { meta: true, ..self },
        }
    }
}

/// The modifier that a lower-case name stands for.
pub fn modifier_from_lowered(name: &str) -> (r: Option<Modifier>)
    ensures
        r == modifier_of(name@),
{
    if same_text(name, "alt") || same_text(name, "opt") || same_text(name, "option") {
        Some(Modifier::Alt)
    } else if same_text(name, "ctrl") || same_text(name, "control") {
        Some(Modifier::Control)
    } else if same_text(name, "shift") {
        Some(Modifier::Shift)
    } else if same_text(name, "meta") || same_text(name, "cmd") || same_text(name, "command")
        || same_text(name, "super") {
        Some(Modifier::Meta)
    } else {
        None
    }
}

proof fn lemma_names_hold_push(names: Seq<Seq<char>>, i: int, m: Modifier)
    requires
        0 <= i < names.len(),
    ensures
        names_hold(names.take(i + 1), m) == (names_hold(names.take(i), m) || modifier_of(
            names[i],
        ) == Some(m)),
{
    let pre = names.take(i);
    let next = names.take(i + 1);
    if names_hold(next, m) {
        let j = choose|j: int| 0 <= j < next.len() && modifier_of(next[j]) == Some(m);
        if j < i {
            assert(pre[j] == next[j]);
        }
    }
    if names_hold(pre, m) {
        let j = choose|j: int| 0 <= j < pre.len() && modifier_of(pre[j]) == Some(m);
        assert(next[j] == pre[j]);
    }
    if modifier_of(names[i]) == Some(m) {
        assert(next[i] == names[i]);
    }
}

/// The set of modifiers named in `names`, each name already in lower case.
pub fn modifier_set_from_lowered(names: &[String]) -> (r: ModifierSet)
    ensures
        r == modifier_set_of(views_of(names@)),
{
    let ghost all = views_of(names@);
    let mut set = ModifierSet::empty();
    let mut i: usize = 0;
    while i < names.len()
        invariant
            i <= names@.len(),
            all == views_of(names@),
            set == modifier_set_of(all.take(i as int)),
        decreases names@.len() - i,
    {
        let found = modifier_from_lowered(names[i].as_str());
        proof {
            assert(all[i as int] == names@[i as int]@);
            lemma_names_hold_push(all, i as int, Modifier::Alt);
            lemma_names_hold_push(all, i as int, Modifier::Control);
            lemma_names_hold_push(all, i as int, Modifier::Shift);
            lemma_names_hold_push(all, i as int, Modifier::Meta);
        }
        match found {
            Some(m) => {
                set = set.with(m);
            },
            None => {},
        }
        i = i + 1;
    }
    assert(all.take(names@.len() as int) =~= all);
    set
}

/// The set of modifiers named in `modifiers`, whatever their case; names that
/// stand for no modifier are ignored.
pub fn parse_modifiers(modifiers: &[String]) -> (r: ModifierSet)
    ensures
        r == modifier_set_of(lowered_views(modifiers@)),
{
    let mut lowered: Vec<String> = Vec::new();
    let mut i: usize = 0;
    while i < modifiers.len()
        invariant
            i <= modifiers@.len(),
            views_of(lowered@) =~= lowered_views(modifiers@).take(i as int),
        decreases modifiers@.len() - i,
    {
        let l = lowercase(modifiers[i].as_str());
        let ghost before = lowered@;
        lowered.push(l);
        proof {
            assert(lowered@ == before.push(l));
            assert(views_of(lowered@) =~= views_of(before).push(l@));
            assert(lowered_views(modifiers@)[i as int] == lower_of(modifiers@[i as int]@));
        }
        i = i + 1;
    }
    assert(lowered_views(modifiers@).take(modifiers@.len() as int) =~= lowered_views(modifiers@));
    modifier_set_from_lowered(lowered.as_slice())
}

/// The key that a lower-case name stands for.
pub fn key_code_from_lowered(name: &str) -> (r: Option<KeyCode>)
    ensures
        r == key_code_of(name@),
{
    if same_text(name, "space") {
        Some(KeyCode::Space)
    } else if same_text(name, "a") {
        Some(KeyCode::KeyA)
    } else if same_text(name, "b") {
        Some(KeyCode::KeyB)
    } else if same_text(name, "c") {
        Some(KeyCode::KeyC)
    } else if same_text(name, "d") {
        Some(KeyCode::KeyD)
    } else if same_text(name, "e") {
        Some(KeyCode::KeyE)
    } else if same_text(name, "f") {
        Some(KeyCode::KeyF)
    } else if same_text(name, "g") {
        Some(KeyCode::KeyG)
    } else if same_text(name, "h") {
        Some(KeyCode::KeyH)
    } else if same_text(name, "i") {
        Some(KeyCode::KeyI)
    } else if same_text(name, "j") {
        Some(KeyCode::KeyJ)
    } else if same_text(name, "k") {
        Some(KeyCode::KeyK)
    } else if same_text(name, "l") {
        Some(KeyCode::KeyL)
    } else if same_text(name, "m") {
        Some(KeyCode::KeyM)
    } else if same_text(name, "n") {
        Some(KeyCode::KeyN)
    } else if same_text(name, "o") {
        Some(KeyCode::KeyO)
    } else if same_text(name, "p") {
        Some(KeyCode::KeyP)
    } else if same_text(name, "q") {
        Some(KeyCode::KeyQ)
    } else if same_text(name, "r") {
        Some(KeyCode::KeyR)
    } else if same_text(name, "s") {
        Some(KeyCode::KeyS)
    } else if same_text(name, "t") {
        Some(KeyCode::KeyT)
    } else if same_text(name, "u") {
        Some(KeyCode::KeyU)
    } else if same_text(name, "v") {
        Some(KeyCode::KeyV)
    } else if same_text(name, "w") {
        Some(KeyCode::KeyW)
    } else if same_text(name, "x") {
        Some(KeyCode::KeyX)
    } else if same_text(name, "y") {
        Some(KeyCode::KeyY)
    } else if same_text(name, "z") {
        Some(KeyCode::KeyZ)
    } else if same_text(name, "1") {
        Some(KeyCode::Digit1)
    } else if same_text(name, "2") {
        Some(KeyCode::Digit2)
    } else if same_text(name, "3") {
        Some(KeyCode::Digit3)
    } else if same_text(name, "4") {
        Some(KeyCode::Digit4)
    } else if same_text(name, "5") {
        Some(KeyCode::Digit5)
    } else if same_text(name, "6") {
        Some(KeyCode::Digit6)
    } else if same_text(name, "7") {
        Some(KeyCode::Digit7)
    } else if same_text(name, "8") {
        Some(KeyCode::Digit8)
    } else if same_text(name, "9") {
        Some(KeyCode::Digit9)
    } else if same_text(name, "0") {
        Some(KeyCode::Digit0)
    } else if same_text(name, "f1") {
        Some(KeyCode::F1)
    } else if same_text(name, "f2") {
        Some(KeyCode::F2)
    } else if same_text(name, "f3") {
        Some(KeyCode::F3)
    } else if same_text(name, "f4") {
        Some(KeyCode::F4)
    } else if same_text(name, "f5") {
        Some(KeyCode::F5)
    } else if same_text(name, "f6") {
        Some(KeyCode::F6)
    } else if same_text(name, "f7") {
        Some(KeyCode::F7)
    } else if same_text(name, "f8") {
        Some(KeyCode::F8)
    } else if same_text(name, "f9") {
        Some(KeyCode::F9)
    } else if same_text(name, "f10") {
        Some(KeyCode::F10)
    } else if same_text(name, "f11") {
        Some(KeyCode::F11)
    } else if same_text(name, "f12") {
        Some(KeyCode::F12)
    } else {
        None
    }
}

/// The key that `key` names, whatever its case.
pub fn parse_key_code(key: &str) -> (r: Option<KeyCode>)
    ensures
        r == key_code_of(lower_of(key@)),
{
    let lowered = lowercase(key);
    key_code_from_lowered(lowered.as_str())
}

/// The combination that modifier and key names describe, all in lower case:
/// none where the key name stands for no key; without modifiers where none of
/// the modifier names stands for one.
pub open spec fn hotkey_of(modifier_names: Seq<Seq<char>>, key_name: Seq<char>) -> Option<HotkeySpec> {
    match key_code_of(key_name) {
        None => None,
        Some(k) => {
            let m = modifier_set_of(modifier_names);
            Some(HotkeySpec { modifiers: if m.is_empty_spec() { None } else { Some(m) }, key: k })
        },
    }
}

/// The combination of a modifier set and a key.
fn combine(modifiers: ModifierSet, key: KeyCode) -> (r: HotkeySpec)
    ensures
        r == (HotkeySpec {
            modifiers: if modifiers.is_empty_spec() { None } else { Some(modifiers) },
            key,
        }),
{
    if modifiers.is_empty() {
        HotkeySpec { modifiers: None, key }
    } else {
        HotkeySpec { modifiers: Some(modifiers), key }
    }
}

/// The combination that names already in lower case describe.
pub fn hotkey_from_lowered(modifiers: &[String], key: &str) -> (r: Option<HotkeySpec>)
    ensures
        r == hotkey_of(views_of(modifiers@), key@),
{
    let set = modifier_set_from_lowered(modifiers);
    match key_code_from_lowered(key) {
        None => None,
        Some(code) => Some(combine(set, code)),
    }
}

/// The combination that the settings name, whatever the case of the names.
pub fn build_hotkey_from_settings(settings: &AppSettings) -> (r: Option<HotkeySpec>)
    ensures
        r == hotkey_of(lowered_views(settings.hotkey_modifiers@), lower_of(settings.hotkey_key@)),
{
    let set = parse_modifiers(settings.hotkey_modifiers.as_slice());
    match parse_key_code(settings.hotkey_key.as_str()) {
        None => None,
        Some(code) => Some(combine(set, code)),
    }
}

/// The combination used where the settings describe none: Option+Space on
/// macOS, Control+Shift+Space elsewhere.
pub open spec fn fallback_hotkey_spec(macos: bool) -> HotkeySpec {
    HotkeySpec {
        modifiers: Some(
            if macos {
                ModifierSet { alt: true, control: false, shift: false, meta: false }
            } else {
                ModifierSet { alt: false, control: true, shift: true, meta: false }
            },
        ),
        key: KeyCode::Space,
    }
}

/// The combination used where the settings describe none.
pub fn fallback_hotkey(macos: bool) -> (r: HotkeySpec)
    ensures
        r == fallback_hotkey_spec(macos),
{
    let modifiers = if macos {
        ModifierSet { alt: true, control: false, shift: false, meta: false }
    } else {
        ModifierSet { alt: false, control: true, shift: true, meta: false }
    };
    HotkeySpec { modifiers: Some(modifiers), key: KeyCode::Space }
}

/// The combination to register: the one the settings name, else the fallback.
pub fn hotkey_for_settings(settings: &AppSettings, macos: bool) -> (r: HotkeySpec)
    ensures
        r == match hotkey_of(lowered_views(settings.hotkey_modifiers@), lower_of(settings.hotkey_key@)) {
            Some(h) => h,
            None => fallback_hotkey_spec(macos),
        },
{
    match build_hotkey_from_settings(settings) {
        Some(h) => h,
        None => fallback_hotkey(macos),
    }
}

} // verus!
