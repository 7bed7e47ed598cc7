//! Shortcut roles and their configuration.
//!
//! Each of the three roles is bound to one keyboard shortcut, kept as a list
//! of modifier names and a key name. A configuration is usable when the
//! operating system's shortcut parser accepts its rendered text; a role
//! whose configuration is missing or unusable falls back on a built-in
//! default.

use vstd::prelude::*;
use vstd::string::StringExecFns;
use global_hotkey::hotkey::{HotKey, HotKeyParseError};
use std::str::FromStr;
use crate::normalize::{normalize_shortcut_string, normalized};

verus! {

/// A registerable shortcut of the `global_hotkey` crate, carried through
/// unopened.
#[verifier::external_type_specification]
#[verifier::external_body]
pub struct ExHotKey(HotKey);

/// The error of the `global_hotkey` shortcut parser, carried through
/// unopened.
#[verifier::external_type_specification]
#[verifier::external_body]
pub struct ExHotKeyParseError(HotKeyParseError);

/// Whether the shortcut parser of `global_hotkey` accepts a text.
pub uninterp spec fn hotkey_parses(text: Seq<char>) -> bool;

/// `HotKey::from_str` of `global_hotkey`: splits the text at `+`, reads
/// modifier names and one key name, and returns the shortcut or the reason
/// why the text is none. The contract names whether the text is accepted;
/// it says nothing of the shortcut or the error that comes out.
#[verifier::external_body]
fn parse_hotkey(text: &str) -> (parsed: Result<HotKey, HotKeyParseError>)
    ensures
        parsed is Ok <==> hotkey_parses(text@),
{
    HotKey::from_str(text)
}

/// What a shortcut is for.
#[derive(Clone, Copy, Debug, PartialEq, Eq, Structural)]
pub enum Role {
    /// Press and release once to start recording, once more to stop.
    Toggle,
    /// Recording lasts while the key is held down.
    Hold,
    /// Press and release to type the most recent transcription again.
    PasteLast,
}

/// The mathematical content of a [`HotkeyConfig`].
pub struct HotkeyView {
    pub modifiers: Seq<Seq<char>>,
    pub key: Seq<char>,
}

/// A keyboard shortcut: modifier names first, then the name of one key.
#[derive(Clone, Debug, PartialEq, Eq)]
pub struct HotkeyConfig {
    pub modifiers: Vec<String>,
    pub key: String,
}

/// A configuration that the shortcut parser did not accept.
#[derive(Clone, Debug, PartialEq, Eq)]
pub struct InvalidShortcut {
    /// The rendered text that was refused.
    pub shortcut: String,
}

impl View for HotkeyConfig {
    type V = HotkeyView;

    open spec fn view(&self) -> HotkeyView {
        HotkeyView {
            modifiers: Seq::new(self.modifiers@.len(), |i: int| self.modifiers@[i]@),
            key: self.key@,
        }
    }
}

/// The modifier names and the key name, joined by `+`.
pub open spec fn joined(modifiers: Seq<Seq<char>>, key: Seq<char>) -> Seq<char>
    decreases modifiers.len(),
{
    if modifiers.len() == 0 {
        key
    } else {
        modifiers[0] + seq!['+'] + joined(modifiers.skip(1), key)
    }
}

/// The text of a shortcut, as it is shown and as it is handed to the
/// shortcut parser.
pub open spec fn rendered(config: HotkeyView) -> Seq<char> {
    joined(config.modifiers, config.key)
}

/// The built-in shortcut of a role: `ctrl+alt` with `Space` to toggle,
/// with `Backquote` to hold, with `Period` to paste.
pub open spec fn default_hotkey(role: Role) -> HotkeyView {
    HotkeyView {
        modifiers: seq!["ctrl"@, "alt"@],
        key: match role {
            Role::Toggle => "Space"@,
            Role::Hold => "Backquote"@,
            Role::PasteLast => "Period"@,
        },
    }
}

/// The configuration that stands for a role: the given one where the
/// shortcut parser accepts it, the role's default otherwise.
pub open spec fn effective_hotkey(config: HotkeyView, role: Role) -> HotkeyView {
    if hotkey_parses(rendered(config)) {
        config
    } else {
        default_hotkey(role)
    }
}

/// The canonical text against which incoming shortcuts are compared for a
/// role.
pub open spec fn comparison_text(config: HotkeyView, role: Role) -> Seq<char> {
    normalized(rendered(effective_hotkey(config, role)))
}

impl HotkeyConfig {
    /// `ctrl+alt` and the given key.
    fn with_ctrl_alt(key: &str) -> (config: HotkeyConfig)
        ensures
            config@ == (HotkeyView { modifiers: seq!["ctrl"@, "alt"@], key: key@ }),
    {
        let mut modifiers: Vec<String> = Vec::new();
        modifiers.push("ctrl".to_owned());
        modifiers.push("alt".to_owned());
        let config = HotkeyConfig { modifiers, key: key.to_owned() };
        proof {
            assert(config@.modifiers =~= seq!["ctrl"@, "alt"@]);
        }
        config
    }

    /// The built-in toggle shortcut.
    pub fn default_toggle() -> (config: HotkeyConfig)
        ensures
            config@ == default_hotkey(Role::Toggle),
    {
        HotkeyConfig::with_ctrl_alt("Space")
    }

    /// The built-in hold-to-record shortcut.
    pub fn default_hold() -> (config: HotkeyConfig)
        ensures
            config@ == default_hotkey(Role::Hold),
    {
        HotkeyConfig::with_ctrl_alt("Backquote")
    }

    /// The built-in paste-last shortcut.
    pub fn default_paste_last() -> (config: HotkeyConfig)
        ensures
            config@ == default_hotkey(Role::PasteLast),
    {
        HotkeyConfig::with_ctrl_alt("Period")
    }

    /// The built-in shortcut of `role`.
    pub fn default_for(role: Role) -> (config: HotkeyConfig)
        ensures
            config@ == default_hotkey(role),
    {
        match role {
            Role::Toggle => HotkeyConfig::default_toggle(),
            Role::Hold => HotkeyConfig::default_hold(),
            Role::PasteLast => HotkeyConfig::default_paste_last(),
        }
    }

    /// The shortcut as text: the modifiers in their order, then the key,
    /// joined by `+`.
    pub fn to_shortcut_string(&self) -> (text: String)
        ensures
            text@ == rendered(self@),
    {
        let mut text = String::new();
        let mut i: usize = 0;
        proof {
            assert(self@.modifiers.skip(0) == self@.modifiers);
            assert(text@ + rendered(self@) == rendered(self@));
        }
        while i < self.modifiers.len()
            invariant
                i <= self.modifiers@.len(),
                self@.modifiers.len() == self.modifiers@.len(),
                rendered(self@) == text@ + joined(self@.modifiers.skip(i as int), self@.key),
            decreases self.modifiers@.len() - i,
        {
            let ghost before = text@;
            let ghost rest = self@.modifiers.skip(i as int);
            text.append(self.modifiers[i].as_str());
            text.append("+");
            i += 1;
            proof {
                reveal_strlit("+");
                assert("+"@ == seq!['+']);
                assert(rest[0] == self.modifiers@[i - 1]@);
                assert(rest.skip(1) == self@.modifiers.skip(i as int));
                let tail = joined(self@.modifiers.skip(i as int), self@.key);
                assert(before + (rest[0] + seq!['+'] + tail) == (before + rest[0] + seq!['+'])
                    + tail);
            }
        }
        text.append(self.key.as_str());
        text
    }

    /// Compiles the shortcut for registration with the operating system.
    /// Fails, with the rendered text, exactly when the shortcut parser does
    /// not accept that text.
    pub fn to_shortcut(&self) -> (compiled: Result<HotKey, InvalidShortcut>)
        ensures
            compiled is Ok <==> hotkey_parses(rendered(self@)),
            compiled matches Err(e) ==> e.shortcut@ == rendered(self@),
    {
        let text = self.to_shortcut_string();
        match parse_hotkey(text.as_str()) {
            Ok(hotkey) => Ok(hotkey),
            Err(_) => Err(InvalidShortcut { shortcut: text }),
        }
    }

    /// Compiles the shortcut, or the default of `role` where this one is not
    /// accepted. Fails, with the default's text, exactly when neither is
    /// accepted.
    pub fn to_shortcut_or_default(&self, role: Role) -> (compiled: Result<HotKey, InvalidShortcut>)
        ensures
            compiled is Ok <==> hotkey_parses(rendered(self@)) || hotkey_parses(
                rendered(default_hotkey(role)),
            ),
            compiled matches Err(e) ==> e.shortcut@ == rendered(default_hotkey(role)),
    {
        match self.to_shortcut() {
            Ok(hotkey) => Ok(hotkey),
            Err(_) => HotkeyConfig::default_for(role).to_shortcut(),
        }
    }

    /// The canonical text under which events of `role` are recognised: that
    /// of this shortcut where the shortcut parser accepts it, that of the
    /// role's default otherwise.
    pub fn comparison_key(&self, role: Role) -> (key: String)
        ensures
            key@ == comparison_text(self@, role),
    {
        let text = match self.to_shortcut() {
            Ok(_) => self.to_shortcut_string(),
            Err(_) => HotkeyConfig::default_for(role).to_shortcut_string(),
        };
        normalize_shortcut_string(text.as_str())
    }
}

/// Why the default of a role stands in for what the settings hold.
#[derive(Clone, Copy, Debug, PartialEq, Eq, Structural)]
pub enum Fallback {
    /// Nothing readable is stored for the role.
    Missing,
    /// What is stored does not compile to a shortcut.
    Invalid,
}

/// The shortcut that stands for a role, ready for registration and for
/// comparison.
#[derive(Clone, Debug, PartialEq, Eq)]
pub struct ResolvedHotkey {
    /// The stored shortcut, or the role's default in its place.
    pub config: HotkeyConfig,
    /// The canonical text of `config`.
    pub comparison_key: String,
    /// Why the default was taken, where it was.
    pub fallback: Option<Fallback>,
}

/// The shortcut that stands for a role, given what is stored for it.
pub open spec fn resolved_config(stored: Option<HotkeyConfig>, role: Role) -> HotkeyView {
    match stored {
        Some(config) => effective_hotkey(config@, role),
        None => default_hotkey(role),
    }
}

/// Why the default stands for a role, if it does.
pub open spec fn resolved_fallback(stored: Option<HotkeyConfig>) -> Option<Fallback> {
    match stored {
        None => Some(Fallback::Missing),
        Some(config) => if hotkey_parses(rendered(config@)) {
            None
        } else {
            Some(Fallback::Invalid)
        },
    }
}

/// Resolves the shortcut of a role from what the settings hold for it. A
/// stored shortcut that the shortcut parser accepts is kept; where nothing
/// is stored or the stored shortcut is refused, the role's default is
/// taken and the reason is given.
pub fn resolve_hotkey(stored: Option<HotkeyConfig>, role: Role) -> (resolved: ResolvedHotkey)
    ensures
        resolved.config@ == resolved_config(stored, role),
        resolved.comparison_key@ == normalized(rendered(resolved.config@)),
        resolved.fallback == resolved_fallback(stored),
{
    let (config, fallback) = match stored {
        None => (HotkeyConfig::default_for(role), Some(Fallback::Missing)),
        Some(config) => match config.to_shortcut() {
            Ok(_) => (config, None),
            Err(_) => (HotkeyConfig::default_for(role), Some(Fallback::Invalid)),
        },
    };
    let text = config.to_shortcut_string();
    let comparison_key = normalize_shortcut_string(text.as_str());
    ResolvedHotkey { config, comparison_key, fallback }
}

/// As long as the default of a role compiles, so does whatever is resolved
/// for that role.
pub proof fn lemma_resolved_compiles(stored: Option<HotkeyConfig>, role: Role)
    ensures
        hotkey_parses(rendered(default_hotkey(role))) ==> hotkey_parses(
            rendered(resolved_config(stored, role)),
        ),
{
}

/// Resolving is final: what was resolved for a role is compared under its
/// own canonical text when an event is handled.
pub proof fn lemma_resolved_is_stable(stored: Option<HotkeyConfig>, role: Role)
    ensures
        effective_hotkey(resolved_config(stored, role), role) == resolved_config(stored, role),
        comparison_text(resolved_config(stored, role), role) == normalized(
            rendered(resolved_config(stored, role)),
        ),
{
}

} // verus!
