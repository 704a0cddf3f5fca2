//! Player preferences: drag handling, key rebinding and the display and
//! language choices that are sanitised and cycled from the settings screen.

use vstd::prelude::*;
use crate::text::str_eq;

verus! {

/// Whether dragging a guard order needs the button held or toggles.
#[derive(Debug, Clone, Copy, PartialEq, Eq, Structural)]
pub enum DragPreference {
    Hold,
    Toggle,
}

impl Default for DragPreference {
    fn default() -> (r: Self)
        ensures
            r == DragPreference::Hold,
    {
        DragPreference::Hold
    }
}

impl DragPreference {
    /// The other preference.
    pub fn toggled(self) -> (r: DragPreference)
        ensures
            r == (if self is Hold { DragPreference::Toggle } else { DragPreference::Hold }),
    {
        match self {
            DragPreference::Hold => DragPreference::Toggle,
            DragPreference::Toggle => DragPreference::Hold,
        }
    }
}

/// Keyboard keys a binding can name; `Unknown` for any other name.
#[derive(Debug, Clone, Copy, PartialEq, Eq, Structural)]
pub enum KeyName {
    A,
    D,
    Space,
    LeftShift,
    R,
    S,
    L,
    Left,
    Right,
    Up,
    Down,
    F,
    F5,
    F9,
    Unknown,
}

impl KeyName {
    pub open spec fn spec_parse(id: Seq<char>) -> KeyName {
        if id == "A"@ {
            KeyName::A
        } else if id == "D"@ {
            KeyName::D
        } else if id == "Space"@ {
            KeyName::Space
        } else if id == "LeftShift"@ {
            KeyName::LeftShift
        } else if id == "R"@ {
            KeyName::R
        } else if id == "S"@ {
            KeyName::S
        } else if id == "L"@ {
            KeyName::L
        } else if id == "Left"@ {
            KeyName::Left
        } else if id == "Right"@ {
            KeyName::Right
        } else if id == "Up"@ {
            KeyName::Up
        } else if id == "Down"@ {
            KeyName::Down
        } else if id == "F"@ {
            KeyName::F
        } else if id == "F5"@ {
            KeyName::F5
        } else if id == "F9"@ {
            KeyName::F9
        } else {
            KeyName::Unknown
        }
    }

    /// The key a binding text names.
    pub fn parse(id: &str) -> (r: KeyName)
        ensures
            r == Self::spec_parse(id@),
    {
        if str_eq(id, "A") {
            KeyName::A
        } else if str_eq(id, "D") {
            KeyName::D
        } else if str_eq(id, "Space") {
            KeyName::Space
        } else if str_eq(id, "LeftShift") {
            KeyName::LeftShift
        } else if str_eq(id, "R") {
            KeyName::R
        } else if str_eq(id, "S") {
            KeyName::S
        } else if str_eq(id, "L") {
            KeyName::L
        } else if str_eq(id, "Left") {
            KeyName::Left
        } else if str_eq(id, "Right") {
            KeyName::Right
        } else if str_eq(id, "Up") {
            KeyName::Up
        } else if str_eq(id, "Down") {
            KeyName::Down
        } else if str_eq(id, "F") {
            KeyName::F
        } else if str_eq(id, "F5") {
            KeyName::F5
        } else if str_eq(id, "F9") {
            KeyName::F9
        } else {
            KeyName::Unknown
        }
    }
}

/// Parses a binding text into the key it names (see `KeyName::parse`).
pub fn parse_key(key: &str) -> (r: KeyName)
    ensures
        r == KeyName::spec_parse(key@),
{
    KeyName::parse(key)
}

/// The binding texts of every rebindable action.
#[verifier::ext_equal]
pub ghost struct KeyBindingsView {
    pub steer_left: Seq<char>,
    pub steer_right: Seq<char>,
    pub boost: Seq<char>,
    pub brake: Seq<char>,
    pub repair: Seq<char>,
    pub save: Seq<char>,
    pub load: Seq<char>,
}

impl KeyBindingsView {
    /// Whether `action` names a rebindable action.
    pub open spec fn is_action(action: Seq<char>) -> bool {
        action == "steer_left"@
        || action == "steer_right"@
        || action == "boost"@
        || action == "brake"@
        || action == "repair"@
        || action == "save"@
        || action == "load"@
    }


    /// The binding text of an action, if `action` names one.
    pub open spec fn get(self, action: Seq<char>) -> Option<Seq<char>> {
        if action == "steer_left"@ {
            Some(self.steer_left)
        } else if action == "steer_right"@ {
            Some(self.steer_right)
        } else if action == "boost"@ {
            Some(self.boost)
        } else if action == "brake"@ {
            Some(self.brake)
        } else if action == "repair"@ {
            Some(self.repair)
        } else if action == "save"@ {
            Some(self.save)
        } else if action == "load"@ {
            Some(self.load)
        } else {
            None
        }
    }


    /// The bindings with `action` rebound to `key` (unchanged for an unknown action).
    pub open spec fn set(self, action: Seq<char>, key: Seq<char>) -> KeyBindingsView {
        if action == "steer_left"@ {
            KeyBindingsView { steer_left: key, ..self }
        } else if action == "steer_right"@ {
            KeyBindingsView { steer_right: key, ..self }
        } else if action == "boost"@ {
            KeyBindingsView { boost: key, ..self }
        } else if action == "brake"@ {
            KeyBindingsView { brake: key, ..self }
        } else if action == "repair"@ {
            KeyBindingsView { repair: key, ..self }
        } else if action == "save"@ {
            KeyBindingsView { save: key, ..self }
        } else if action == "load"@ {
            KeyBindingsView { load: key, ..self }
        } else {
            self
        }
    }
}

impl KeyBindingsView {
    /// Steering on the arrow keys when it was on `A`, else back on `A`/`D`.
    pub open spec fn cycled_steering(self) -> KeyBindingsView {
        if self.steer_left == "A"@ {
            KeyBindingsView { steer_left: "Left"@, steer_right: "Right"@, ..self }
        } else {
            KeyBindingsView { steer_left: "A"@, steer_right: "D"@, ..self }
        }
    }

    /// Each of repair, save and load moves to its alternative key when it holds
    /// its primary key (`R`, `S`, `L`), and back to the primary otherwise.
    pub open spec fn cycled_recovery(self) -> KeyBindingsView {
        KeyBindingsView {
            repair: if self.repair == "R"@ { "F"@ } else { "R"@ },
            save: if self.save == "S"@ { "F5"@ } else { "S"@ },
            load: if self.load == "L"@ { "F9"@ } else { "L"@ },
            ..self
        }
    }
}

/// The rebindable action names are pairwise distinct.
pub proof fn lemma_action_names_distinct()
    ensures
        "steer_left"@ != "steer_right"@,
        "steer_left"@ != "boost"@,
        "steer_left"@ != "brake"@,
        "steer_left"@ != "repair"@,
        "steer_left"@ != "save"@,
        "steer_left"@ != "load"@,
        "steer_right"@ != "boost"@,
        "steer_right"@ != "brake"@,
        "steer_right"@ != "repair"@,
        "steer_right"@ != "save"@,
        "steer_right"@ != "load"@,
        "boost"@ != "brake"@,
        "boost"@ != "repair"@,
        "boost"@ != "save"@,
        "boost"@ != "load"@,
        "brake"@ != "repair"@,
        "brake"@ != "save"@,
        "brake"@ != "load"@,
        "repair"@ != "save"@,
        "repair"@ != "load"@,
        "save"@ != "load"@,
{
    reveal_strlit("steer_left");
    reveal_strlit("steer_right");
    reveal_strlit("boost");
    reveal_strlit("brake");
    reveal_strlit("repair");
    reveal_strlit("save");
    reveal_strlit("load");
    assert("steer_left"@.len() == 10);
    assert("steer_right"@.len() == 11);
    assert("boost"@.len() == 5);
    assert("brake"@.len() == 5);
    assert("repair"@.len() == 6);
    assert("save"@.len() == 4);
    assert("load"@.len() == 4);
    assert("load"@[0] == 'l');
    assert("save"@[0] == 's');
    assert("boost"@[1] == 'o');
    assert("brake"@[1] == 'r');
}

/// Rebinding an action makes it read back the new key and leaves every
/// other action's binding as it was.
pub proof fn lemma_rebind_reads_back(v: KeyBindingsView, action: Seq<char>, key: Seq<char>, other: Seq<char>)
    requires
        KeyBindingsView::is_action(action),
    ensures
        v.set(action, key).get(action) == Some(key),
        other != action ==> v.set(action, key).get(other) == v.get(other),
{
    lemma_action_names_distinct();
}

/// Text of the key bound to each rebindable action.
#[derive(Debug, Clone)]
pub struct KeyBindings {
    pub steer_left: String,
    pub steer_right: String,
    pub boost: String,
    pub brake: String,
    pub repair: String,
    pub save: String,
    pub load: String,
}

impl View for KeyBindings {
    type V = KeyBindingsView;

    open spec fn view(&self) -> KeyBindingsView {
        KeyBindingsView {
            steer_left: self.steer_left@,
            steer_right: self.steer_right@,
            boost: self.boost@,
            brake: self.brake@,
            repair: self.repair@,
            save: self.save@,
            load: self.load@,
        }
    }
}

impl Default for KeyBindings {
    fn default() -> (r: Self)
        ensures
            r@.steer_left == "A"@,
            r@.steer_right == "D"@,
            r@.boost == "Space"@,
            r@.brake == "LeftShift"@,
            r@.repair == "R"@,
            r@.save == "S"@,
            r@.load == "L"@,
    {
        KeyBindings {
            steer_left: "A".to_owned(),
            steer_right: "D".to_owned(),
            boost: "Space".to_owned(),
            brake: "LeftShift".to_owned(),
            repair: "R".to_owned(),
            save: "S".to_owned(),
            load: "L".to_owned(),
        }
    }
}

impl KeyBindings {
    /// The key bound to an action; `Unknown` for an action that is not rebindable.
    pub fn key(&self, action: &str) -> (r: KeyName)
        ensures
            r == match self@.get(action@) {
                Some(text) => KeyName::spec_parse(text),
                None => KeyName::Unknown,
            },
    {
        if str_eq(action, "steer_left") {
            parse_key(self.steer_left.as_str())
        } else if str_eq(action, "steer_right") {
            parse_key(self.steer_right.as_str())
        } else if str_eq(action, "boost") {
            parse_key(self.boost.as_str())
        } else if str_eq(action, "brake") {
            parse_key(self.brake.as_str())
        } else if str_eq(action, "repair") {
            parse_key(self.repair.as_str())
        } else if str_eq(action, "save") {
            parse_key(self.save.as_str())
        } else if str_eq(action, "load") {
            parse_key(self.load.as_str())
        } else {
            KeyName::Unknown
        }
    }

    /// Rebinds an action to the key text `key`. Returns whether `action` is a
    /// rebindable action; the bindings change only then.
    pub fn set(&mut self, action: &str, key: &str) -> (r: bool)
        ensures
            r == KeyBindingsView::is_action(action@),
            final(self)@ == old(self)@.set(action@, key@),
    {
        if str_eq(action, "steer_left") {
            self.steer_left = key.to_owned();
            true
        } else if str_eq(action, "steer_right") {
            self.steer_right = key.to_owned();
            true
        } else if str_eq(action, "boost") {
            self.boost = key.to_owned();
            true
        } else if str_eq(action, "brake") {
            self.brake = key.to_owned();
            true
        } else if str_eq(action, "repair") {
            self.repair = key.to_owned();
            true
        } else if str_eq(action, "save") {
            self.save = key.to_owned();
            true
        } else if str_eq(action, "load") {
            self.load = key.to_owned();
            true
        } else {
            false
        }
    }

    /// Swaps steering between the letter keys and the arrow keys.
    pub fn cycle_steering(&mut self)
        ensures
            final(self)@ == old(self)@.cycled_steering(),
    {
        proof {
            lemma_action_names_distinct();
        }
        let left = str_eq(self.steer_left.as_str(), "A");
        let l = if left { "Left" } else { "A" };
        let r = if left { "Right" } else { "D" };
        let _ = self.set("steer_left", l);
        assert(self@ =~= KeyBindingsView { steer_left: l@, ..old(self)@ });
        let _ = self.set("steer_right", r);
        assert(self@ =~= KeyBindingsView { steer_left: l@, steer_right: r@, ..old(self)@ });
    }

    /// Swaps the repair, save and load keys between their two layouts.
    pub fn cycle_recovery(&mut self)
        ensures
            final(self)@ == old(self)@.cycled_recovery(),
    {
        proof {
            lemma_action_names_distinct();
        }
        let repair = if str_eq(self.repair.as_str(), "R") { "F" } else { "R" };
        let save = if str_eq(self.save.as_str(), "S") { "F5" } else { "S" };
        let load = if str_eq(self.load.as_str(), "L") { "F9" } else { "L" };
        let _ = self.set("repair", repair);
        let _ = self.set("save", save);
        let _ = self.set("load", load);
    }
}

/// The window resolutions the settings screen offers.
pub open spec fn is_supported_resolution(r: Seq<char>) -> bool {
    r == "960x540"@ || r == "1280x720"@ || r == "1600x900"@ || r == "1920x1080"@
}

/// A supported resolution is kept; anything else becomes `1280x720`.
pub fn sanitize_resolution(resolution: &str) -> (r: String)
    ensures
        r@ == (if is_supported_resolution(resolution@) { resolution@ } else { "1280x720"@ }),
{
    if str_eq(resolution, "960x540") || str_eq(resolution, "1280x720") || str_eq(resolution, "1600x900")
        || str_eq(resolution, "1920x1080") {
        resolution.to_owned()
    } else {
        "1280x720".to_owned()
    }
}

/// The frame cap clamped to 30..=240.
pub fn sanitize_fps_cap(fps_cap: u32) -> (r: u32)
    ensures
        r == (if fps_cap < 30 { 30u32 } else if fps_cap > 240 { 240u32 } else { fps_cap }),
{
    if fps_cap < 30 {
        30
    } else if fps_cap > 240 {
        240
    } else {
        fps_cap
    }
}

/// German and French are kept; any other language becomes English.
pub fn sanitize_language(language: &str) -> (r: String)
    ensures
        r@ == (if language@ == "de"@ || language@ == "fr"@ { language@ } else { "en"@ }),
{
    if !str_eq(language, "de") && !str_eq(language, "fr") {
        "en".to_owned()
    } else {
        language.to_owned()
    }
}

/// The resolution after `resolution` in the settings cycle.
pub fn next_resolution(resolution: &str) -> (r: &'static str)
    ensures
        r@ == (if resolution@ == "960x540"@ {
            "1280x720"@
        } else if resolution@ == "1280x720"@ {
            "1600x900"@
        } else if resolution@ == "1600x900"@ {
            "1920x1080"@
        } else {
            "960x540"@
        }),
{
    if str_eq(resolution, "960x540") {
        "1280x720"
    } else if str_eq(resolution, "1280x720") {
        "1600x900"
    } else if str_eq(resolution, "1600x900") {
        "1920x1080"
    } else {
        "960x540"
    }
}

/// The frame cap after `fps_cap` in the settings cycle 30, 60, 120, 240.
pub fn next_fps_cap(fps_cap: u32) -> (r: u32)
    ensures
        r == (if fps_cap == 30 { 60u32 } else if fps_cap == 60 { 120u32 } else if fps_cap == 120 { 240u32 } else { 30u32 }),
{
    if fps_cap == 30 {
        60
    } else if fps_cap == 60 {
        120
    } else if fps_cap == 120 {
        240
    } else {
        30
    }
}

/// The language after `language` in the settings cycle en, de, fr.
pub fn next_language(language: &str) -> (r: &'static str)
    ensures
        r@ == (if language@ == "en"@ { "de"@ } else if language@ == "de"@ { "fr"@ } else { "en"@ }),
{
    if str_eq(language, "en") {
        "de"
    } else if str_eq(language, "de") {
        "fr"
    } else {
        "en"
    }
}

/// Notification label of a campaign toggle setting.
pub fn setting_label(id: &str) -> (r: &'static str)
    ensures
        r@ == (if id@ == "route_motion"@ {
            "Route motion"@
        } else if id@ == "alerts"@ {
            "Route alerts"@
        } else if id@ == "auto_save"@ {
            "Autosave"@
        } else if id@ == "generous_timers"@ {
            "Generous timers"@
        } else if id@ == "slower_waves"@ {
            "Slower waves"@
        } else if id@ == "sturdy_carriage"@ {
            "Sturdy carriage"@
        } else {
            "Setting"@
        }),
{
    if str_eq(id, "route_motion") {
        "Route motion"
    } else if str_eq(id, "alerts") {
        "Route alerts"
    } else if str_eq(id, "auto_save") {
        "Autosave"
    } else if str_eq(id, "generous_timers") {
        "Generous timers"
    } else if str_eq(id, "slower_waves") {
        "Slower waves"
    } else if str_eq(id, "sturdy_carriage") {
        "Sturdy carriage"
    } else {
        "Setting"
    }
}

} // verus!
