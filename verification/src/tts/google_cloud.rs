//! Configuration of a voice of Google Cloud Text-to-Speech.

use vstd::prelude::*;
use vstd::string::*;

verus! {

/// The gender asked of the provider.
#[derive(Debug, Clone, Copy, PartialEq, Eq, Structural)]
pub enum GenderConfig {
    Unspecified,
    Male,
    Female,
    Neutral,
}

impl Default for GenderConfig {
    fn default() -> (gender: Self)
        ensures
            gender == GenderConfig::Unspecified,
    {
        GenderConfig::Unspecified
    }
}

/// The encoding asked of the provider.
#[derive(Debug, Clone, Copy, PartialEq, Eq, Structural)]
pub enum Encoding {
    Linear16,
    Mp3,
    OggOpus,
    Mulaw,
    Alaw,
    M4A,
}

impl Default for Encoding {
    fn default() -> (encoding: Self)
        ensures
            encoding == Encoding::Linear16,
    {
        Encoding::Linear16
    }
}

/// One voice of the provider. Rates and gains are kept as the bits of the
/// IEEE 754 number that was configured, so that they pass through
/// unchanged.
#[derive(Debug, Clone)]
pub struct GoogleCloudVoiceConfig {
    pub language_code: String,
    pub name: Option<String>,
    pub ssml_gender: Option<GenderConfig>,
    pub model_name: Option<String>,
    /// Bits of a 32-bit number.
    pub speaking_rate: Option<u32>,
    /// Bits of a 64-bit number.
    pub pitch: Option<u64>,
    /// Bits of a 64-bit number.
    pub volume_gain_db: Option<u64>,
    pub encoding: Option<Encoding>,
}

/// What a voice's identifier is made of, each part as it is written.
pub struct IdentifierParts<'a> {
    pub language_code: &'a str,
    pub name: &'a str,
    pub ssml_gender: &'a str,
    pub model_name: &'a str,
    pub audio_encoding: &'a str,
    pub speaking_rate: &'a str,
    pub pitch: &'a str,
    pub volume_gain_db: &'a str,
    pub sample_rate_hertz: &'a str,
}

/// The identifier of a voice of these parts.
pub open spec fn identifier_spec(parts: IdentifierParts) -> Seq<char> {
    "google_cloud-(lang:"@ + parts.language_code@ + ",name:"@ + parts.name@ + ",gender:"@
        + parts.ssml_gender@ + ",model:"@ + parts.model_name@ + ",encoding:"@ + parts.audio_encoding@
        + ",speaking_rate:"@ + parts.speaking_rate@ + ",pitch:"@ + parts.pitch@ + ",gain:"@
        + parts.volume_gain_db@ + ",sample_rate_hz:"@ + parts.sample_rate_hertz@ + ")"@
}

/// Names a voice after everything that makes it sound as it does, so that
/// two voices share a name only if they are configured alike.
pub fn build_identifier(parts: &IdentifierParts) -> (identifier: String)
    ensures
        identifier@ == identifier_spec(*parts),
{
    "google_cloud-(lang:".to_owned().concat(parts.language_code).concat(",name:").concat(parts.name).concat(
        ",gender:",
    ).concat(parts.ssml_gender).concat(",model:").concat(parts.model_name).concat(",encoding:").concat(
        parts.audio_encoding,
    ).concat(",speaking_rate:").concat(parts.speaking_rate).concat(",pitch:").concat(parts.pitch).concat(
        ",gain:",
    ).concat(parts.volume_gain_db).concat(",sample_rate_hz:").concat(parts.sample_rate_hertz).concat(")")
}

} // verus!
