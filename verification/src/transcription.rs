//! Speech to text: checking the audio buffer, reading the settings, and
//! naming the upload.

use vstd::prelude::*;
use crate::error::{BridgeError, ErrorView};
use crate::options::{OptionMap, ValueView};
use crate::settings::{decode_failure, number_setting, read_number, read_text, text_setting};
use crate::text::{decimal, render_decimal, same_text};

verus! {

/// The shortest audio buffer that is accepted, in bytes.
pub const MIN_AUDIO_LEN: usize = 10;

/// The layout in which the provider hands the transcript back.
#[derive(Debug, Clone, Copy, PartialEq, Eq, Structural)]
pub enum TranscriptFormat {
    Text,
    Json,
    Srt,
    VerboseJson,
    Vtt,
}

/// The layout that a name stands for; any other name stands for plain text.
pub open spec fn transcript_format_of(name: Seq<char>) -> TranscriptFormat {
    if name == "json"@ {
        TranscriptFormat::Json
    } else if name == "srt"@ {
        TranscriptFormat::Srt
    } else if name == "verbose_json"@ {
        TranscriptFormat::VerboseJson
    } else if name == "vtt"@ {
        TranscriptFormat::Vtt
    } else {
        TranscriptFormat::Text
    }
}

impl TranscriptFormat {
    /// The layout that `name` stands for; any other name stands for plain
    /// text.
    pub fn from_name(name: &str) -> (format: TranscriptFormat)
        ensures
            format == transcript_format_of(name@),
    {
        if same_text(name, "json") {
            TranscriptFormat::Json
        } else if same_text(name, "srt") {
            TranscriptFormat::Srt
        } else if same_text(name, "verbose_json") {
            TranscriptFormat::VerboseJson
        } else if same_text(name, "vtt") {
            TranscriptFormat::Vtt
        } else {
            TranscriptFormat::Text
        }
    }
}

/// The settings of one transcription request.
#[derive(Debug, Clone, PartialEq, Eq)]
pub struct TranscriptionSettings {
    /// The provider's model.
    pub model: String,
    /// The language of the audio, where the caller named one.
    pub language: Option<String>,
    /// Text that guides the transcript, where the caller gave one.
    pub prompt: Option<String>,
    /// The layout of the transcript.
    pub response_format: TranscriptFormat,
    /// The sampling temperature, as the bit pattern supplied.
    pub temperature: Option<u32>,
}

/// What [`TranscriptionSettings`] hold, as mathematical values.
pub struct TranscriptionView {
    pub model: Seq<char>,
    pub language: Option<Seq<char>>,
    pub prompt: Option<Seq<char>>,
    pub response_format: TranscriptFormat,
    pub temperature: Option<u32>,
}

/// The characters of an optional string.
pub open spec fn optional_text(text: Option<String>) -> Option<Seq<char>> {
    match text {
        Some(s) => Some(s@),
        None => None,
    }
}

impl View for TranscriptionSettings {
    type V = TranscriptionView;

    open spec fn view(&self) -> TranscriptionView {
        TranscriptionView {
            model: self.model@,
            language: optional_text(self.language),
            prompt: optional_text(self.prompt),
            response_format: self.response_format,
            temperature: self.temperature,
        }
    }
}

/// The settings that an option mapping stands for, or the first name, in the
/// order model, language, prompt, response_format, temperature, whose value
/// is not of its target type.
pub open spec fn transcription_settings(options: Map<Seq<char>, ValueView>) -> Result<
    TranscriptionView,
    Seq<char>,
> {
    match text_setting(options, "model"@) {
        Err(name) => Err(name),
        Ok(model) => match text_setting(options, "language"@) {
            Err(name) => Err(name),
            Ok(language) => match text_setting(options, "prompt"@) {
                Err(name) => Err(name),
                Ok(prompt) => match text_setting(options, "response_format"@) {
                    Err(name) => Err(name),
                    Ok(format) => match number_setting(options, "temperature"@) {
                        Err(name) => Err(name),
                        Ok(temperature) => Ok(
                            TranscriptionView {
                                model: match model {
                                    Some(text) => text,
                                    None => "whisper-1"@,
                                },
                                language,
                                prompt,
                                response_format: match format {
                                    Some(name) => transcript_format_of(name),
                                    None => TranscriptFormat::Text,
                                },
                                temperature,
                            },
                        ),
                    },
                },
            },
        },
    }
}

/// Reads the transcription settings out of `options`, each with its default
/// where nothing is supplied. Fails with a decode failure on the first name
/// whose value is not of its target type.
pub fn decode_transcription_options(options: &OptionMap) -> (r: Result<
    TranscriptionSettings,
    BridgeError,
>)
    ensures
        match transcription_settings(options@) {
            Ok(settings) => r matches Ok(s) && s@ == settings,
            Err(name) => r matches Err(e) && e@ == decode_failure(options, name),
        },
{
    let model = match read_text(options, "model") {
        Err(e) => return Err(e),
        Ok(Some(text)) => text,
        Ok(None) => String::from_str("whisper-1"),
    };
    let language = match read_text(options, "language") {
        Err(e) => return Err(e),
        Ok(setting) => setting,
    };
    let prompt = match read_text(options, "prompt") {
        Err(e) => return Err(e),
        Ok(setting) => setting,
    };
    let response_format = match read_text(options, "response_format") {
        Err(e) => return Err(e),
        Ok(Some(name)) => TranscriptFormat::from_name(name.as_str()),
        Ok(None) => TranscriptFormat::Text,
    };
    let temperature = match read_number(options, "temperature") {
        Err(e) => return Err(e),
        Ok(setting) => setting,
    };
    Ok(TranscriptionSettings { model, language, prompt, response_format, temperature })
}

/// The name under which a buffer is uploaded at the time `stamp`, in seconds.
pub open spec fn upload_name(stamp: nat) -> Seq<char> {
    "audio-"@ + decimal(stamp) + ".webm"@
}

/// Names the upload of an in-memory buffer after the time `stamp`, in
/// seconds: a later time gives another name.
pub fn audio_file_name(stamp: u64) -> (name: String)
    ensures
        name@ == upload_name(stamp as nat),
{
    let mut name = String::from_str("audio-");
    let number = render_decimal(stamp);
    name.append(number.as_str());
    name.append(".webm");
    name
}

/// One transcription that is ready to be sent.
#[derive(Debug, Clone, PartialEq, Eq)]
pub struct TranscriptionJob {
    /// The name under which the buffer is uploaded.
    pub file_name: String,
    /// The settings of the request.
    pub settings: TranscriptionSettings,
}

/// The failure for an audio buffer that is too short.
pub open spec fn short_audio(length: nat, options: &OptionMap) -> ErrorView {
    ErrorView::Validation { length, keys: options.key_seq() }
}

/// Prepares the transcription of `audio`, taken at the time `stamp`.
///
/// A buffer of fewer than [`MIN_AUDIO_LEN`] bytes is refused before the
/// options are looked at; then the first setting that cannot be read is
/// reported; otherwise the job holds the settings and the upload's name.
pub fn prepare_transcription(audio: &[u8], options: &OptionMap, stamp: u64) -> (r: Result<
    TranscriptionJob,
    BridgeError,
>)
    ensures
        audio@.len() < MIN_AUDIO_LEN ==> (r matches Err(e) && e@ == short_audio(
            audio@.len(),
            options,
        )),
        audio@.len() >= MIN_AUDIO_LEN ==> (match transcription_settings(options@) {
            Ok(settings) => r matches Ok(job) && job.settings@ == settings && job.file_name@
                == upload_name(stamp as nat),
            Err(name) => r matches Err(e) && e@ == decode_failure(options, name),
        }),
{
    if audio.len() < MIN_AUDIO_LEN {
        return Err(BridgeError::Validation { length: audio.len(), keys: options.keys() });
    }
    match decode_transcription_options(options) {
        Err(e) => Err(e),
        Ok(settings) => Ok(TranscriptionJob { file_name: audio_file_name(stamp), settings }),
    }
}

/// Whether the marker is bound or the name is missing makes no difference to
/// the settings read.
pub proof fn lemma_transcription_marker_is_missing(
    options: Map<Seq<char>, ValueView>,
    marked: Seq<char>,
)
    ensures
        transcription_settings(options.insert(marked, ValueView::Absent))
            == transcription_settings(options.remove(marked)),
{
    let with_marker = options.insert(marked, ValueView::Absent);
    let without = options.remove(marked);
    crate::settings::lemma_marker_supplies_nothing(options, marked, "model"@);
    crate::settings::lemma_marker_supplies_nothing(options, marked, "language"@);
    crate::settings::lemma_marker_supplies_nothing(options, marked, "prompt"@);
    crate::settings::lemma_marker_supplies_nothing(options, marked, "response_format"@);
    crate::settings::lemma_marker_supplies_nothing(options, marked, "temperature"@);
}

/// A layout name that is none of the four recognized ones is read as plain
/// text.
pub proof fn lemma_unknown_layout_is_text(name: Seq<char>)
    requires
        name != "json"@,
        name != "srt"@,
        name != "verbose_json"@,
        name != "vtt"@,
    ensures
        transcript_format_of(name) == TranscriptFormat::Text,
{
}

} // verus!
