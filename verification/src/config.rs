use vstd::prelude::*;
use vstd::string::*;
use crate::text::{owned, str_eq};
use crate::triggers::TriggerRule;

verus! {

/// The assistant's settings, as `personality.json` gives them.
#[derive(Debug, Clone)]
pub struct PersonalityConfig {
    pub name: String,
    pub model: String,
    pub system_prompt: String,
    pub tts_engine: String,
    pub irodori_url: Option<String>,
    pub browse_enabled: bool,
    pub office_enabled: bool,
    pub office_whitelist: Vec<String>,
    pub require_confirmation: bool,
    pub max_tool_calls_per_turn: u32,
    pub triggers: Vec<TriggerRule>,
}

/// The speech engine where none is set.
pub fn default_tts_engine() -> (res: String)
    ensures
        res@ == "voicevox"@,
{
    owned("voicevox")
}

/// The value of a switch that is not set.
pub fn default_true() -> (res: bool)
    ensures
        res,
{
    true
}

/// How many tool calls one turn may make where no limit is set.
pub fn default_max_tool_calls() -> (res: u32)
    ensures
        res == 5,
{
    5
}

impl Default for PersonalityConfig {
    fn default() -> (res: Self)
        ensures
            res.name@ == "アシスタント"@,
            res.model@ == "gemma4"@,
            res.system_prompt@ == "あなたは優しいアシスタントです。日本語で会話してください。"@,
            res.tts_engine@ == "voicevox"@,
            res.irodori_url is None,
            res.browse_enabled,
            res.office_enabled,
            res.office_whitelist@.len() == 0,
            res.require_confirmation,
            res.max_tool_calls_per_turn == 5,
            res.triggers@.len() == 0,
    {
        PersonalityConfig {
            name: owned("アシスタント"),
            model: owned("gemma4"),
            system_prompt: owned("あなたは優しいアシスタントです。日本語で会話してください。"),
            tts_engine: default_tts_engine(),
            irodori_url: None,
            browse_enabled: true,
            office_enabled: true,
            office_whitelist: Vec::new(),
            require_confirmation: true,
            max_tool_calls_per_turn: default_max_tool_calls(),
            triggers: Vec::new(),
        }
    }
}

/// The speech engine to start.
#[derive(Debug, Clone)]
pub enum TtsChoice {
    /// Irodori-TTS at the given address.
    Irodori(String),
    /// VOICEVOX on this machine.
    Voicevox,
}

/// Chooses the speech engine: Irodori-TTS where the engine is `irodori`,
/// which needs an address (`None` where it has none: starting up fails);
/// VOICEVOX for any other name.
pub fn choose_tts(engine: &str, irodori_url: Option<&str>) -> (res: Option<TtsChoice>)
    ensures
        engine@ == "irodori"@ ==> match irodori_url {
            Some(u) => (res matches Some(TtsChoice::Irodori(v)) && v@ == u@),
            None => res is None,
        },
        engine@ != "irodori"@ ==> (res matches Some(TtsChoice::Voicevox)),
{
    if str_eq(engine, "irodori") {
        match irodori_url {
            Some(u) => Some(TtsChoice::Irodori(owned(u))),
            None => None,
        }
    } else {
        Some(TtsChoice::Voicevox)
    }
}

} // verus!
