use wav2flac::error::ConfigError;
use wav2flac::flags::{EncodingOptions, Flags, Verbosity};
use wav2flac::format::{Format, DEFAULT_FLAC_COMPRESSION};

fn build_flags(
    quiet: bool,
    debug: bool,
    format: Option<Format>,
    compression: Option<u8>,
    sample_rate: Option<u32>,
) -> Result<Flags, ConfigError> {
    Flags::new(
        quiet,
        debug,
        format,
        None,
        compression,
        sample_rate,
        false,
        String::from("albums/in"),
        String::from("albums/out"),
    )
}

#[test]
fn unknown_format_fails() {
    for id in ["wav", "", "FLAC", "flacc", "ogg"] {
        match Format::from_id(id) {
            Err(ConfigError::UnknownFormat { value }) => assert_eq!(value, id),
            other => panic!("expected UnknownFormat for {:?}, got {:?}", id, other),
        }
    }
}

#[test]
fn known_formats_parse() {
    assert_eq!(Format::from_id("flac"), Ok(Format::Flac));
    assert_eq!(Format::from_id("mp3"), Ok(Format::Mp3));
}

#[test]
fn registry_properties() {
    assert_eq!(Format::Flac.codec_name(), "FLAC");
    assert_eq!(Format::Mp3.codec_name(), "MP3");
    assert!(Format::Flac.supports_compression());
    assert!(!Format::Mp3.supports_compression());
    assert_eq!(Format::Flac.default_compression(), Some(DEFAULT_FLAC_COMPRESSION));
    assert_eq!(Format::Mp3.default_compression(), None);
}

#[test]
fn conflicting_flags_rejected() {
    let r = build_flags(true, true, None, None, None);
    assert_eq!(r, Err(ConfigError::ConflictingFlags));
}

#[test]
fn non_conflicting_flags_accepted() {
    assert!(build_flags(true, false, None, None, None).is_ok());
    assert!(build_flags(false, true, None, None, None).is_ok());
    assert!(build_flags(false, false, None, None, None).is_ok());
}

#[test]
fn construction_fills_defaults() {
    let f = build_flags(false, false, None, None, None).unwrap();
    assert_eq!(f.format, Format::Flac);
    assert_eq!(f.cover, "cover.jpg");
    assert_eq!(f.compression, None);
    assert_eq!(f.sample_rate, None);
    assert!(!f.dry_run);
}

#[test]
fn construction_keeps_supplied_values() {
    let f = Flags::new(
        false,
        true,
        Some(Format::Mp3),
        Some(String::from("front.png")),
        Some(3),
        Some(44100),
        true,
        String::from("in"),
        String::from("out"),
    )
    .unwrap();
    assert_eq!(f.format, Format::Mp3);
    assert_eq!(f.cover, "front.png");
    assert_eq!(f.compression, Some(3));
    assert_eq!(f.sample_rate, Some(44100));
    assert!(f.dry_run);
    assert_eq!(f.src, "in");
    assert_eq!(f.dest, "out");
}

#[test]
fn quiet_resolves_silent() {
    let f = build_flags(true, false, None, None, None).unwrap();
    assert_eq!(f.log_level(), Verbosity::Silent);
}

#[test]
fn debug_resolves_debug() {
    let f = build_flags(false, true, None, None, None).unwrap();
    assert_eq!(f.log_level(), Verbosity::Debug);
}

#[test]
fn no_flags_resolve_normal() {
    let f = build_flags(false, false, None, None, None).unwrap();
    assert_eq!(f.log_level(), Verbosity::Normal);
}

#[test]
fn validating_directory_succeeds() {
    let f = build_flags(false, false, None, None, None).unwrap();
    let validated = f.clone().validate(true).unwrap();
    assert_eq!(validated, f);
}

#[test]
fn validating_non_directory_fails() {
    let f = build_flags(false, false, None, None, None).unwrap();
    match f.validate(false) {
        Err(ConfigError::NotADirectory { path }) => assert_eq!(path, "albums/in"),
        other => panic!("expected NotADirectory, got {:?}", other),
    }
}

#[test]
fn resolving_twice_is_identical() {
    let f = build_flags(false, false, Some(Format::Flac), Some(2), Some(48000))
        .and_then(|f| f.validate(true))
        .unwrap();
    let first = f.encoding_options();
    let second = f.encoding_options();
    assert_eq!(first, second);
}

#[test]
fn missing_compression_gets_codec_default() {
    let f = build_flags(false, false, Some(Format::Flac), None, None).unwrap();
    let options = f.encoding_options();
    assert_eq!(options.compression, DEFAULT_FLAC_COMPRESSION);
}

#[test]
fn supplied_compression_is_kept() {
    let f = build_flags(false, false, Some(Format::Flac), Some(2), None).unwrap();
    assert_eq!(f.encoding_options().compression, 2);
}

#[test]
fn flac_defaults_scenario() {
    let f = Flags::new(
        false,
        false,
        Some(Format::from_id("flac").unwrap()),
        None,
        None,
        None,
        false,
        String::from("music/wav"),
        String::from("music/flac"),
    )
    .unwrap();
    let validated = f.validate(true).unwrap();
    let options = validated.encoding_options();
    assert_eq!(
        options,
        EncodingOptions {
            format: Format::Flac,
            compression: DEFAULT_FLAC_COMPRESSION,
            sample_rate: None,
        }
    );
}

#[test]
fn mp3_compression_is_noted_as_ignored() {
    let f = build_flags(false, false, Some(Format::from_id("mp3").unwrap()), Some(5), None)
        .unwrap();
    let validated = f.validate(true).unwrap();
    assert_eq!(validated.ignored_compression(), Some(5));
}

#[test]
fn flac_compression_is_not_ignored() {
    let f = build_flags(false, false, Some(Format::Flac), Some(5), None).unwrap();
    assert_eq!(f.ignored_compression(), None);
    let mp3_without_value = build_flags(false, false, Some(Format::Mp3), None, None).unwrap();
    assert_eq!(mp3_without_value.ignored_compression(), None);
}

#[test]
fn sample_rate_passes_through() {
    let f = build_flags(false, false, Some(Format::Flac), None, Some(96000)).unwrap();
    assert_eq!(f.encoding_options().sample_rate, Some(96000));
}
