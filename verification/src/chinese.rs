//! Conversion between the written forms of Chinese.
use crate::settings::{AppSettings, LANG_SIMPLIFIED_CHINESE, LANG_TRADITIONAL_CHINESE};
use crate::text;
use ferrous_opencc::config::BuiltinConfig;
use ferrous_opencc::error::OpenCCError;
use ferrous_opencc::OpenCC;
use vstd::prelude::*;

verus! {

/// `ferrous_opencc::config::BuiltinConfig`, the name of a conversion that the
/// crate brings along.
#[verifier::external_type_specification]
pub struct ExBuiltinConfig(ferrous_opencc::config::BuiltinConfig);

/// `ferrous_opencc::OpenCC`, a loaded conversion.
#[verifier::external_type_specification]
#[verifier::external_body]
pub struct ExOpenCC(ferrous_opencc::OpenCC);

/// `ferrous_opencc::error::OpenCCError`, the reason why a conversion could not
/// be loaded.
#[verifier::external_type_specification]
#[verifier::external_body]
pub struct ExOpenCCError(ferrous_opencc::error::OpenCCError);

/// Whether the data of a built-in conversion can be loaded.
pub uninterp spec fn builtin_loads(config: BuiltinConfig) -> bool;

/// What a built-in conversion makes of a text.
pub uninterp spec fn builtin_converted(config: BuiltinConfig, source: Seq<char>) -> Seq<char>;

/// What a loaded conversion makes of a text.
pub uninterp spec fn converted_by(converter: OpenCC, source: Seq<char>) -> Seq<char>;

/// `OpenCC::from_config` loads a conversion from the data that is compiled into
/// the crate. The outcome depends on the configuration alone, under an allocator
/// that aligns a block of bytes as std's own does: loading refuses a buffer that
/// is not aligned for the data in it.
pub assume_specification[ OpenCC::from_config ](config_enum: BuiltinConfig) -> (result: Result<
    OpenCC,
    OpenCCError,
>)
    ensures
        match result {
            Ok(converter) => builtin_loads(config_enum) && forall|source: Seq<char>|
                #[trigger] converted_by(converter, source) == builtin_converted(
                    config_enum,
                    source,
                ),
            Err(_) => !builtin_loads(config_enum),
        },
;

/// `OpenCC::convert` applies a loaded conversion to a text.
pub assume_specification[ OpenCC::convert ](converter: &OpenCC, input: &str) -> (result: String)
    ensures
        result@ == converted_by(*converter, input@),
;

/// The conversion for a language: to Simplified Chinese from the Traditional
/// Chinese of Taiwan, or the other way round, with the phrases that differ.
pub open spec fn conversion_for(language: Seq<char>) -> Option<BuiltinConfig> {
    if language == LANG_SIMPLIFIED_CHINESE@ {
        Some(BuiltinConfig::Tw2sp)
    } else if language == LANG_TRADITIONAL_CHINESE@ {
        Some(BuiltinConfig::S2twp)
    } else {
        None
    }
}

/// A transcription in the written form of the selected language. `None` where
/// the language has no such form, or its conversion cannot be loaded.
pub open spec fn chinese_variant(language: Seq<char>, transcription: Seq<char>) -> Option<
    Seq<char>,
> {
    match conversion_for(language) {
        Some(config) => if builtin_loads(config) {
            Some(builtin_converted(config, transcription))
        } else {
            None
        },
        None => None,
    }
}

/// Converts a transcription to the written form of the selected language.
pub fn maybe_convert_chinese_variant(settings: &AppSettings, transcription: &str) -> (converted:
    Option<String>)
    ensures
        text::opt_text(converted) == chinese_variant(settings.selected_language@, transcription@),
{
    let language = settings.selected_language.as_str();
    let config = if text::same_text(language, LANG_SIMPLIFIED_CHINESE) {
        BuiltinConfig::Tw2sp
    } else if text::same_text(language, LANG_TRADITIONAL_CHINESE) {
        BuiltinConfig::S2twp
    } else {
        return None;
    };
    match OpenCC::from_config(config) {
        Ok(converter) => Some(converter.convert(transcription)),
        Err(_) => None,
    }
}

/// Only the two written forms of Chinese are converted to, by two different
/// conversions; a transcription in any other language stays as it is.
pub proof fn law_conversion_for(language: Seq<char>, transcription: Seq<char>)
    ensures
        conversion_for(language) is Some <==> language == LANG_SIMPLIFIED_CHINESE@ || language
            == LANG_TRADITIONAL_CHINESE@,
        conversion_for(LANG_SIMPLIFIED_CHINESE@) != conversion_for(LANG_TRADITIONAL_CHINESE@),
        conversion_for(language) is None ==> chinese_variant(language, transcription) is None,
{
    reveal_strlit("zh-Hans");
    reveal_strlit("zh-Hant");
    assert("zh-Hans"@[6] == 's');
    assert("zh-Hant"@[6] == 't');
}

/// Simplified Chinese is reached by the conversion from the Traditional Chinese
/// of Taiwan, and the other way round; each text is converted as a whole, and
/// only where the conversion can be loaded.
pub proof fn law_chinese_variant(language: Seq<char>, transcription: Seq<char>)
    ensures
        language == "zh-Hans"@ && builtin_loads(BuiltinConfig::Tw2sp) ==> chinese_variant(
            language,
            transcription,
        ) == Some(builtin_converted(BuiltinConfig::Tw2sp, transcription)),
        language == "zh-Hans"@ && !builtin_loads(BuiltinConfig::Tw2sp) ==> chinese_variant(
            language,
            transcription,
        ) is None,
        language == "zh-Hant"@ && builtin_loads(BuiltinConfig::S2twp) ==> chinese_variant(
            language,
            transcription,
        ) == Some(builtin_converted(BuiltinConfig::S2twp, transcription)),
        language == "zh-Hant"@ && !builtin_loads(BuiltinConfig::S2twp) ==> chinese_variant(
            language,
            transcription,
        ) is None,
        language != "zh-Hans"@ && language != "zh-Hant"@ ==> chinese_variant(
            language,
            transcription,
        ) is None,
{
    law_conversion_for(language, transcription);
    law_conversion_for("zh-Hant"@, transcription);
    reveal_strlit("zh-Hans");
    reveal_strlit("zh-Hant");
    assert("zh-Hans"@[6] == 's');
    assert("zh-Hant"@[6] == 't');
}

}
