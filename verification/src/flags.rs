//! The user-supplied option set, its validation, and the derivation of the
//! final encoding configuration.

use vstd::prelude::*;

use crate::error::ConfigError;
use crate::format::Format;
use crate::format::DEFAULT_FLAC_COMPRESSION;
use crate::format::spec_default_compression;
use crate::format::spec_supports_compression;

verus! {

/// The resolved logging threshold, derived from the `quiet` and `debug`
/// flags with precedence quiet > debug > normal.
#[derive(Clone, Copy, Debug, PartialEq, Eq, Structural)]
pub enum Verbosity {
    Silent,
    Normal,
    Debug,
}

/// The verbosity level a pair of flags resolves to.
pub open spec fn spec_verbosity(quiet: bool, debug: bool) -> Verbosity {
    if quiet {
        Verbosity::Silent
    } else if debug {
        Verbosity::Debug
    } else {
        Verbosity::Normal
    }
}

/// The raw, user-supplied option set, assembled once at startup.
#[derive(Clone, Debug, PartialEq, Eq)]
pub struct Flags {
    /// Silence all output.
    pub quiet: bool,
    /// Enable debug logs.
    pub debug: bool,
    /// Target output codec.
    pub format: Format,
    /// Cover-image filename looked for in each album directory.
    pub cover: String,
    /// FLAC compression level, if the user supplied one.
    pub compression: Option<u8>,
    /// Forced sample rate for converted files, if any.
    pub sample_rate: Option<u32>,
    /// Produce the configuration but convert nothing.
    pub dry_run: bool,
    /// Input directory containing the WAV files to convert.
    pub src: String,
    /// Output directory for the converted files.
    pub dest: String,
}

/// The codec-aware configuration handed to the conversion pipeline.
#[derive(Clone, Copy, Debug, PartialEq, Eq)]
pub struct EncodingOptions {
    pub format: Format,
    pub compression: u8,
    pub sample_rate: Option<u32>,
}

/// The configuration a validated option set resolves to.
pub open spec fn spec_resolve(f: Flags) -> EncodingOptions {
    EncodingOptions {
        format: f.format,
        compression: match f.compression {
            Some(c) => c,
            None => DEFAULT_FLAC_COMPRESSION,
        },
        sample_rate: f.sample_rate,
    }
}

impl Flags {
    /// No two mutually exclusive verbosity flags are set.
    pub open spec fn wf(self) -> bool {
        !(self.quiet && self.debug)
    }

    /// Builds the option set from external input, filling the declared
    /// defaults (codec: FLAC, cover filename: `cover.jpg`) where no value was
    /// supplied. Fails with `ConflictingFlags` exactly when `quiet` and
    /// `debug` are both requested; no other check happens here.
    #[allow(clippy::too_many_arguments)]
    pub fn new(
        quiet: bool,
        debug: bool,
        format: Option<Format>,
        cover: Option<String>,
        compression: Option<u8>,
        sample_rate: Option<u32>,
        dry_run: bool,
        src: String,
        dest: String,
    ) -> (r: Result<Flags, ConfigError>)
        ensures
            (quiet && debug) <==> r == Err::<Flags, ConfigError>(ConfigError::ConflictingFlags),
            r matches Ok(f) ==> {
                &&& f.wf()
                &&& f.quiet == quiet
                &&& f.debug == debug
                &&& f.format == (match format {
                    Some(g) => g,
                    None => Format::Flac,
                })
                &&& (match cover {
                    Some(c) => f.cover@ == c@,
                    None => f.cover@ == "cover.jpg"@,
                })
                &&& f.compression == compression
                &&& f.sample_rate == sample_rate
                &&& f.dry_run == dry_run
                &&& f.src@ == src@
                &&& f.dest@ == dest@
            },
            !(quiet && debug) ==> r is Ok,
    {
        if quiet && debug {
            return Err(ConfigError::ConflictingFlags);
        }
        let chosen_format = match format {
            Some(g) => g,
            None => Format::Flac,
        };
        let chosen_cover = match cover {
            Some(c) => c,
            None => "cover.jpg".to_owned(),
        };
        Ok(Flags {
            quiet,
            debug,
            format: chosen_format,
            cover: chosen_cover,
            compression,
            sample_rate,
            dry_run,
            src,
            dest,
        })
    }

    /// Checks the option set against the validation rules. The caller
    /// reports whether the source path names an existing directory;
    /// validation succeeds exactly then, and returns the option set
    /// unchanged. Otherwise it fails with `NotADirectory` naming the source
    /// path.
    pub fn validate(self, src_is_dir: bool) -> (r: Result<Flags, ConfigError>)
        ensures
            src_is_dir <==> r is Ok,
            r matches Ok(f) ==> f == self,
            !src_is_dir ==> (r matches Err(e) && e matches ConfigError::NotADirectory { path }
                && path@ == self.src@),
    {
        match Self::validate_directory(&self.src, src_is_dir) {
            Ok(()) => Ok(self),
            Err(e) => Err(e),
        }
    }

    /// The compression value that validation notes as ignored: the
    /// user-supplied level when the chosen codec has no configurable
    /// compression. Informational only; it never rejects the run.
    pub fn ignored_compression(&self) -> (r: Option<u8>)
        ensures
            r == (if !spec_supports_compression(self.format) {
                self.compression
            } else {
                Option::<u8>::None
            }),
    {
        if !self.format.supports_compression() {
            self.compression
        } else {
            None
        }
    }

    /// The logging threshold the flags resolve to, with precedence
    /// quiet > debug > normal.
    pub fn log_level(&self) -> (r: Verbosity)
        ensures
            r == spec_verbosity(self.quiet, self.debug),
    {
        if self.quiet {
            Verbosity::Silent
        } else if self.debug {
            Verbosity::Debug
        } else {
            Verbosity::Normal
        }
    }

    /// Derives the final encoding configuration from a validated option
    /// set: the codec and sample-rate override pass through, and the
    /// compression level is the user value if present, else the registry
    /// default. Pure; it cannot fail.
    pub fn encoding_options(&self) -> (r: EncodingOptions)
        ensures
            r == spec_resolve(*self),
            r.format == self.format,
            r.sample_rate == self.sample_rate,
            self.compression matches Some(c) ==> r.compression == c,
            (self.compression is None && spec_default_compression(self.format) is Some)
                ==> r.compression == spec_default_compression(self.format)->Some_0,
    {
        EncodingOptions {
            format: self.format,
            compression: match self.compression {
                Some(c) => c,
                None => DEFAULT_FLAC_COMPRESSION,
            },
            sample_rate: self.sample_rate,
        }
    }

    /// Accepts a path exactly when the caller found it to be an existing
    /// directory; otherwise reports `NotADirectory` naming the path.
    fn validate_directory(directory: &String, is_dir: bool) -> (r: Result<(), ConfigError>)
        ensures
            is_dir <==> r is Ok,
            !is_dir ==> (r matches Err(e) && e matches ConfigError::NotADirectory { path }
                && path@ == directory@),
    {
        if is_dir {
            Ok(())
        } else {
            Err(ConfigError::NotADirectory { path: directory.clone() })
        }
    }
}

/// A quiet option set always resolves to silent verbosity, whatever the
/// debug flag nominally holds.
pub proof fn lemma_quiet_is_silent(f: Flags)
    requires
        f.quiet,
    ensures
        spec_verbosity(f.quiet, f.debug) == Verbosity::Silent,
{
}

/// Resolution is deterministic: two resolutions of one validated option set
/// yield identical encoding options.
pub proof fn lemma_resolve_deterministic(f: Flags, a: EncodingOptions, b: EncodingOptions)
    requires
        a == spec_resolve(f),
        b == spec_resolve(f),
    ensures
        a == b,
{
}

} // verus!
