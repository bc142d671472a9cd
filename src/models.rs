use vstd::prelude::*;
use vstd::string::StringExecFns;

verus! {

/// Speech synthesis parameters sent along with a chat request.
#[derive(Clone, Debug, PartialEq, Eq)]
pub struct TTSParameters {
    pub speaker: i32,
    pub sample_rate: i32,
    pub model: String,
    pub lang: String,
}

/// One turn of a conversation.
#[derive(Clone, Debug, PartialEq, Eq)]
pub struct ChatMessage {
    pub role: String,
    pub content: String,
    pub timestamp: String,
}

/// User settings kept on disk.
#[derive(Clone, Debug, PartialEq, Eq)]
pub struct AppSettings {
    pub tts_params: TTSParameters,
    pub tts_enabled: bool,
}

/// A point-in-time view of the connection: transport up, and peer confirmed
/// the registration.
#[derive(PartialEq, Eq, Structural, Clone, Copy, Debug)]
pub struct WebSocketStatus {
    pub connected: bool,
    pub registered: bool,
}

pub open spec fn default_speaker() -> i32 {
    0
}

pub open spec fn default_sample_rate() -> i32 {
    24000
}

pub open spec fn default_model() -> Seq<char> {
    "edge"@
}

pub open spec fn default_lang() -> Seq<char> {
    "en-US"@
}

impl TTSParameters {
    /// The parameters used when the user has not chosen any.
    pub open spec fn is_default(&self) -> bool {
        &&& self.speaker == default_speaker()
        &&& self.sample_rate == default_sample_rate()
        &&& self.model@ == default_model()
        &&& self.lang@ == default_lang()
    }

    pub fn default_params() -> (r: TTSParameters)
        ensures
            r.is_default(),
    {
        TTSParameters {
            speaker: 0,
            sample_rate: 24000,
            model: String::from_str("edge"),
            lang: String::from_str("en-US"),
        }
    }
}

impl AppSettings {
    /// Settings of a fresh installation: default voice, speech switched off.
    pub fn default_settings() -> (r: AppSettings)
        ensures
            r.tts_params.is_default(),
            !r.tts_enabled,
    {
        AppSettings { tts_params: TTSParameters::default_params(), tts_enabled: false }
    }
}

} // verus!
