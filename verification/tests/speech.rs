use alchemind_openai::error::{transport_outcome, BridgeError};
use alchemind_openai::options::{OptionMap, OptionValue};
use alchemind_openai::speech::{
    decode_speech_options, SpeechFormat, SpeechModel, SpeechSettings, Voice,
};

fn text(value: &str) -> OptionValue {
    OptionValue::Text(value.to_string())
}

fn defaults() -> SpeechSettings {
    SpeechSettings {
        model: SpeechModel::Tts1,
        voice: Voice::Alloy,
        response_format: SpeechFormat::Mp3,
        speed: None,
    }
}

#[test]
fn omitted_voice_is_alloy() {
    let settings = decode_speech_options(&OptionMap::new()).unwrap();
    assert_eq!(settings.voice, Voice::Alloy);
    assert_eq!(settings, defaults());
}

#[test]
fn marker_voice_is_alloy() {
    let mut options = OptionMap::new();
    options.insert("voice".to_string(), OptionValue::Absent);
    assert_eq!(decode_speech_options(&options), Ok(defaults()));
}

#[test]
fn nova_is_nova() {
    let mut options = OptionMap::new();
    options.insert("voice".to_string(), text("nova"));
    assert_eq!(decode_speech_options(&options).unwrap().voice, Voice::Nova);
}

#[test]
fn unknown_voice_is_alloy_and_no_failure() {
    let mut options = OptionMap::new();
    options.insert("voice".to_string(), text("baritone"));
    assert_eq!(decode_speech_options(&options), Ok(defaults()));
}

#[test]
fn voice_names_are_read() {
    assert_eq!(Voice::from_name("alloy"), Voice::Alloy);
    assert_eq!(Voice::from_name("echo"), Voice::Echo);
    assert_eq!(Voice::from_name("fable"), Voice::Fable);
    assert_eq!(Voice::from_name("onyx"), Voice::Onyx);
    assert_eq!(Voice::from_name("nova"), Voice::Nova);
    assert_eq!(Voice::from_name("shimmer"), Voice::Shimmer);
    assert_eq!(Voice::from_name("Nova"), Voice::Alloy);
    assert_eq!(Voice::from_name(""), Voice::Alloy);
}

#[test]
fn model_names_are_read() {
    assert_eq!(SpeechModel::from_name("tts-1"), SpeechModel::Tts1);
    assert_eq!(SpeechModel::from_name("tts-1-hd"), SpeechModel::Tts1Hd);
    assert_eq!(SpeechModel::from_name("tts-2"), SpeechModel::Tts1);
}

#[test]
fn encoding_names_are_read() {
    assert_eq!(SpeechFormat::from_name("mp3"), SpeechFormat::Mp3);
    assert_eq!(SpeechFormat::from_name("opus"), SpeechFormat::Opus);
    assert_eq!(SpeechFormat::from_name("aac"), SpeechFormat::Aac);
    assert_eq!(SpeechFormat::from_name("flac"), SpeechFormat::Flac);
    assert_eq!(SpeechFormat::from_name("wav"), SpeechFormat::Mp3);
}

#[test]
fn supplied_speech_options_are_taken() {
    let mut options = OptionMap::new();
    options.insert("model".to_string(), text("tts-1-hd"));
    options.insert("voice".to_string(), text("onyx"));
    options.insert("response_format".to_string(), text("flac"));
    options.insert("speed".to_string(), OptionValue::Number(1.25f32.to_bits()));
    assert_eq!(
        decode_speech_options(&options),
        Ok(SpeechSettings {
            model: SpeechModel::Tts1Hd,
            voice: Voice::Onyx,
            response_format: SpeechFormat::Flac,
            speed: Some(0x3fa0_0000),
        })
    );
}

#[test]
fn first_unreadable_speech_setting_is_reported() {
    let mut options = OptionMap::new();
    options.insert("speed".to_string(), text("fast"));
    options.insert("voice".to_string(), OptionValue::Number(2));
    let keys = vec!["speed".to_string(), "voice".to_string()];
    assert_eq!(
        decode_speech_options(&options),
        Err(BridgeError::Decode { key: "voice".to_string(), keys: keys.clone() })
    );
    options.insert("voice".to_string(), text("echo"));
    assert_eq!(
        decode_speech_options(&options),
        Err(BridgeError::Decode { key: "speed".to_string(), keys })
    );
}

#[test]
fn audio_bytes_pass_unchanged() {
    let audio = vec![0x49u8, 0x44, 0x33, 0x00, 0xff];
    assert_eq!(transport_outcome(Ok::<Vec<u8>, String>(audio.clone())), Ok(audio));
}

#[test]
fn failed_synthesis_is_a_transport_failure() {
    let failed = transport_outcome::<Vec<u8>>(Err("quota exceeded".to_string()));
    assert_eq!(failed, Err(BridgeError::Transport("quota exceeded".to_string())));
}
