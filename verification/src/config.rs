//! The user's settings.

use vstd::prelude::*;

verus! {

/// The user's settings.
#[derive(Debug, Clone, PartialEq, Eq)]
pub struct AppConfig {
    /// Name of the input device; `"default"` stands for the host's default.
    pub audio_device: String,
    /// Size of the general-purpose model: `"tiny"`, `"base"`, `"small"` or `"medium"`.
    pub model_size: String,
    /// Language to transcribe; `"auto"` lets the backend detect it.
    pub language: String,
    /// Name of the backend: `"whisper"` or `"parakeet"`.
    pub engine: String,
}

impl AppConfig {
    /// The settings of a fresh installation.
    pub open spec fn is_default(&self) -> bool {
        &&& self.audio_device@ == "default"@
        &&& self.model_size@ == "base"@
        &&& self.language@ == "auto"@
        &&& self.engine@ == "whisper"@
    }

    /// Whether two settings hold the same values.
    pub open spec fn same_as(&self, other: &AppConfig) -> bool {
        &&& self.audio_device@ == other.audio_device@
        &&& self.model_size@ == other.model_size@
        &&& self.language@ == other.language@
        &&& self.engine@ == other.engine@
    }

    /// A copy of these settings.
    pub fn duplicate(&self) -> (copy: AppConfig)
        ensures
            copy.same_as(self),
    {
        AppConfig {
            audio_device: self.audio_device.clone(),
            model_size: self.model_size.clone(),
            language: self.language.clone(),
            engine: self.engine.clone(),
        }
    }
}

impl Default for AppConfig {
    fn default() -> (config: AppConfig)
        ensures
            config.is_default(),
    {
        AppConfig {
            audio_device: String::from_str("default"),
            model_size: String::from_str("base"),
            language: String::from_str("auto"),
            engine: String::from_str("whisper"),
        }
    }
}

} // verus!
