//! Text to speech: reading the settings of a synthesis request. A name that
//! is not recognized falls back to the default and is no failure.

use vstd::prelude::*;
use crate::error::BridgeError;
use crate::options::{OptionMap, ValueView};
use crate::settings::{decode_failure, number_setting, read_number, read_text, text_setting};
use crate::text::same_text;

verus! {

/// The provider's synthesis model.
#[derive(Debug, Clone, Copy, PartialEq, Eq, Structural)]
pub enum SpeechModel {
    Tts1,
    Tts1Hd,
}

/// The voice that speaks.
#[derive(Debug, Clone, Copy, PartialEq, Eq, Structural)]
pub enum Voice {
    Alloy,
    Echo,
    Fable,
    Onyx,
    Nova,
    Shimmer,
}

/// The encoding of the audio that comes back.
#[derive(Debug, Clone, Copy, PartialEq, Eq, Structural)]
pub enum SpeechFormat {
    Mp3,
    Opus,
    Aac,
    Flac,
}

/// The model that a name stands for; any other name stands for `tts-1`.
pub open spec fn speech_model_of(name: Seq<char>) -> SpeechModel {
    if name == "tts-1-hd"@ {
        SpeechModel::Tts1Hd
    } else {
        SpeechModel::Tts1
    }
}

/// The voice that a name stands for; any other name stands for `alloy`.
pub open spec fn voice_of(name: Seq<char>) -> Voice {
    if name == "echo"@ {
        Voice::Echo
    } else if name == "fable"@ {
        Voice::Fable
    } else if name == "onyx"@ {
        Voice::Onyx
    } else if name == "nova"@ {
        Voice::Nova
    } else if name == "shimmer"@ {
        Voice::Shimmer
    } else {
        Voice::Alloy
    }
}

/// The encoding that a name stands for; any other name stands for `mp3`.
pub open spec fn speech_format_of(name: Seq<char>) -> SpeechFormat {
    if name == "opus"@ {
        SpeechFormat::Opus
    } else if name == "aac"@ {
        SpeechFormat::Aac
    } else if name == "flac"@ {
        SpeechFormat::Flac
    } else {
        SpeechFormat::Mp3
    }
}

impl SpeechModel {
    /// The model that `name` stands for; any other name stands for `tts-1`.
    pub fn from_name(name: &str) -> (model: SpeechModel)
        ensures
            model == speech_model_of(name@),
    {
        if same_text(name, "tts-1-hd") {
            SpeechModel::Tts1Hd
        } else {
            SpeechModel::Tts1
        }
    }
}

impl Voice {
    /// The voice that `name` stands for; any other name stands for `alloy`.
    pub fn from_name(name: &str) -> (voice: Voice)
        ensures
            voice == voice_of(name@),
    {
        if same_text(name, "echo") {
            Voice::Echo
        } else if same_text(name, "fable") {
            Voice::Fable
        } else if same_text(name, "onyx") {
            Voice::Onyx
        } else if same_text(name, "nova") {
            Voice::Nova
        } else if same_text(name, "shimmer") {
            Voice::Shimmer
        } else {
            Voice::Alloy
        }
    }
}

impl SpeechFormat {
    /// The encoding that `name` stands for; any other name stands for `mp3`.
    pub fn from_name(name: &str) -> (format: SpeechFormat)
        ensures
            format == speech_format_of(name@),
    {
        if same_text(name, "opus") {
            SpeechFormat::Opus
        } else if same_text(name, "aac") {
            SpeechFormat::Aac
        } else if same_text(name, "flac") {
            SpeechFormat::Flac
        } else {
            SpeechFormat::Mp3
        }
    }
}

/// The settings of one synthesis request.
#[derive(Debug, Clone, Copy, PartialEq, Eq)]
pub struct SpeechSettings {
    /// The provider's model.
    pub model: SpeechModel,
    /// The voice that speaks.
    pub voice: Voice,
    /// The encoding of the audio.
    pub response_format: SpeechFormat,
    /// The speaking rate, as the bit pattern supplied.
    pub speed: Option<u32>,
}

/// The settings that an option mapping stands for, or the first name, in the
/// order model, voice, response_format, speed, whose value is not of its
/// target type.
pub open spec fn speech_settings(options: Map<Seq<char>, ValueView>) -> Result<
    SpeechSettings,
    Seq<char>,
> {
    match text_setting(options, "model"@) {
        Err(name) => Err(name),
        Ok(model) => match text_setting(options, "voice"@) {
            Err(name) => Err(name),
            Ok(voice) => match text_setting(options, "response_format"@) {
                Err(name) => Err(name),
                Ok(format) => match number_setting(options, "speed"@) {
                    Err(name) => Err(name),
                    Ok(speed) => Ok(
                        SpeechSettings {
                            model: match model {
                                Some(name) => speech_model_of(name),
                                None => SpeechModel::Tts1,
                            },
                            voice: match voice {
                                Some(name) => voice_of(name),
                                None => Voice::Alloy,
                            },
                            response_format: match format {
                                Some(name) => speech_format_of(name),
                                None => SpeechFormat::Mp3,
                            },
                            speed,
                        },
                    ),
                },
            },
        },
    }
}

/// Reads the synthesis settings out of `options`, each with its default
/// where nothing is supplied or the name supplied is not recognized. Fails
/// with a decode failure on the first name whose value is not of its target
/// type.
pub fn decode_speech_options(options: &OptionMap) -> (r: Result<SpeechSettings, BridgeError>)
    ensures
        match speech_settings(options@) {
            Ok(settings) => r == Ok::<SpeechSettings, BridgeError>(settings),
            Err(name) => r matches Err(e) && e@ == decode_failure(options, name),
        },
{
    let model = match read_text(options, "model") {
        Err(e) => return Err(e),
        Ok(Some(name)) => SpeechModel::from_name(name.as_str()),
        Ok(None) => SpeechModel::Tts1,
    };
    let voice = match read_text(options, "voice") {
        Err(e) => return Err(e),
        Ok(Some(name)) => Voice::from_name(name.as_str()),
        Ok(None) => Voice::Alloy,
    };
    let response_format = match read_text(options, "response_format") {
        Err(e) => return Err(e),
        Ok(Some(name)) => SpeechFormat::from_name(name.as_str()),
        Ok(None) => SpeechFormat::Mp3,
    };
    let speed = match read_number(options, "speed") {
        Err(e) => return Err(e),
        Ok(setting) => setting,
    };
    Ok(SpeechSettings { model, voice, response_format, speed })
}

/// Whether the marker is bound or the name is missing makes no difference to
/// the settings read.
pub proof fn lemma_speech_marker_is_missing(options: Map<Seq<char>, ValueView>, marked: Seq<char>)
    ensures
        speech_settings(options.insert(marked, ValueView::Absent)) == speech_settings(
            options.remove(marked),
        ),
{
    crate::settings::lemma_marker_supplies_nothing(options, marked, "model"@);
    crate::settings::lemma_marker_supplies_nothing(options, marked, "voice"@);
    crate::settings::lemma_marker_supplies_nothing(options, marked, "response_format"@);
    crate::settings::lemma_marker_supplies_nothing(options, marked, "speed"@);
}

/// A voice name that is none of the five recognized ones is read as `alloy`.
pub proof fn lemma_unknown_voice_is_alloy(name: Seq<char>)
    requires
        name != "echo"@,
        name != "fable"@,
        name != "onyx"@,
        name != "nova"@,
        name != "shimmer"@,
    ensures
        voice_of(name) == Voice::Alloy,
{
}

/// Where the settings can be read, the voice is `alloy` if none is
/// supplied, and the one that the string names if a string is supplied.
pub proof fn lemma_voice_setting(options: Map<Seq<char>, ValueView>, settings: SpeechSettings)
    requires
        speech_settings(options) == Ok::<SpeechSettings, Seq<char>>(settings),
    ensures
        crate::settings::supplied(options, "voice"@) is None ==> settings.voice == Voice::Alloy,
        forall|name: Seq<char>|
            crate::settings::supplied(options, "voice"@) == Some(ValueView::Text(name))
                ==> settings.voice == voice_of(name),
{
}

} // verus!
