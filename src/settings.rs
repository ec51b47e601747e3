//! User settings and the provider snapshot a transcription works from.

use vstd::prelude::*;
use crate::hotkey::views_of;

verus! {

/// The user's settings: provider credentials and the hotkey combination.
#[derive(Clone, Debug)]
pub struct AppSettings {
    pub api_key: String,
    pub provider: String,
    pub model: String,
    pub hotkey_modifiers: Vec<String>,
    pub hotkey_key: String,
}

/// What a transcription needs of the settings, copied when it begins so that
/// later changes to the settings never reach a request in flight.
#[derive(Clone, Debug)]
pub struct ProviderConfig {
    pub api_key: String,
    pub provider: String,
    pub model: String,
}

/// The modifier names of the default combination: Option on macOS, Control
/// and Shift elsewhere.
pub open spec fn default_modifier_names(macos: bool) -> Seq<Seq<char>> {
    if macos {
        seq!["alt"@]
    } else {
        seq!["ctrl"@, "shift"@]
    }
}

/// The modifier names of the default combination for the platform.
pub fn get_default_hotkey_modifiers(macos: bool) -> (r: Vec<String>)
    ensures
        views_of(r@) == default_modifier_names(macos),
{
    let r = if macos {
        vec![String::from_str("alt")]
    } else {
        vec![String::from_str("ctrl"), String::from_str("shift")]
    };
    assert(views_of(r@) =~= default_modifier_names(macos));
    r
}

/// The key name of the default combination.
pub fn default_hotkey_key() -> (r: String)
    ensures
        r@ == "Space"@,
{
    String::from_str("Space")
}

impl AppSettings {
    /// The settings used when none are stored or the stored ones cannot be read.
    pub fn defaults(macos: bool) -> (r: AppSettings)
        ensures
            r.api_key@.len() == 0,
            r.provider@ == "groq"@,
            r.model@ == "whisper-large-v3"@,
            views_of(r.hotkey_modifiers@) == default_modifier_names(macos),
            r.hotkey_key@ == "Space"@,
    {
        let api_key = String::new();
        AppSettings {
            api_key,
            provider: String::from_str("groq"),
            model: String::from_str("whisper-large-v3"),
            hotkey_modifiers: get_default_hotkey_modifiers(macos),
            hotkey_key: default_hotkey_key(),
        }
    }

    /// A copy of the provider part of the settings.
    pub fn provider_config(&self) -> (r: ProviderConfig)
        ensures
            r.api_key@ == self.api_key@,
            r.provider@ == self.provider@,
            r.model@ == self.model@,
    {
        ProviderConfig {
            api_key: self.api_key.clone(),
            provider: self.provider.clone(),
            model: self.model.clone(),
        }
    }
}

} // verus!
