//! Format registry: the closed set of supported output codecs and their
//! fixed properties.

use vstd::prelude::*;

use crate::error::ConfigError;

verus! {

/// Compression level used for FLAC output when the user supplies none.
pub const DEFAULT_FLAC_COMPRESSION: u8 = 8;

/// A supported output codec. The set is closed: adding a codec means
/// extending this enum and the registry functions below.
#[derive(Clone, Copy, Debug, PartialEq, Eq, Structural)]
pub enum Format {
    Flac,
    Mp3,
}

/// The codec a given identifier string denotes, if any.
pub open spec fn spec_format_of_id(id: Seq<char>) -> Option<Format> {
    if id == "flac"@ {
        Some(Format::Flac)
    } else if id == "mp3"@ {
        Some(Format::Mp3)
    } else {
        None
    }
}

/// Whether a codec exposes a configurable compression level.
pub open spec fn spec_supports_compression(f: Format) -> bool {
    match f {
        Format::Flac => true,
        Format::Mp3 => false,
    }
}

/// The default compression level of a codec: present exactly for the
/// compression-capable codecs.
pub open spec fn spec_default_compression(f: Format) -> Option<u8> {
    match f {
        Format::Flac => Some(DEFAULT_FLAC_COMPRESSION),
        Format::Mp3 => None,
    }
}

/// Character-wise string comparison, so that contracts can speak of the
/// identifier's view.
fn str_eq(a: &str, b: &str) -> (r: bool)
    ensures
        r == (a@ == b@),
{
    let a_len = a.unicode_len();
    let b_len = b.unicode_len();
    if a_len != b_len {
        return false;
    }
    let mut i: usize = 0;
    while i < a_len
        invariant
            a_len == a@.len(),
            b_len == b@.len(),
            a_len == b_len,
            i <= a_len,
            forall|j: int| 0 <= j < i ==> a@[j] == b@[j],
        decreases a_len - i,
    {
        if a.get_char(i) != b.get_char(i) {
            return false;
        }
        i = i + 1;
    }
    proof {
        assert(a@ =~= b@);
    }
    true
}

impl Format {
    /// Looks a codec identifier up in the registry. Fails with
    /// `UnknownFormat` exactly when the string matches no known codec.
    pub fn from_id(id: &str) -> (r: Result<Format, ConfigError>)
        ensures
            match spec_format_of_id(id@) {
                Some(f) => r == Ok::<Format, ConfigError>(f),
                None => (r matches Err(e) && e matches ConfigError::UnknownFormat { value }
                    && value@ == id@),
            },
    {
        if str_eq(id, "flac") {
            Ok(Format::Flac)
        } else if str_eq(id, "mp3") {
            Ok(Format::Mp3)
        } else {
            Err(ConfigError::UnknownFormat { value: id.to_owned() })
        }
    }

    /// The codec's display name, used in diagnostic messages.
    pub fn codec_name(&self) -> (r: &'static str)
        ensures
            *self == Format::Flac ==> r@ == "FLAC"@,
            *self == Format::Mp3 ==> r@ == "MP3"@,
    {
        match self {
            Format::Flac => "FLAC",
            Format::Mp3 => "MP3",
        }
    }

    /// Whether this codec exposes a configurable compression level.
    pub fn supports_compression(&self) -> (r: bool)
        ensures
            r == spec_supports_compression(*self),
    {
        match self {
            Format::Flac => true,
            Format::Mp3 => false,
        }
    }

    /// The codec's default compression level; `None` for codecs whose
    /// compression is not configurable.
    pub fn default_compression(&self) -> (r: Option<u8>)
        ensures
            r == spec_default_compression(*self),
    {
        match self {
            Format::Flac => Some(DEFAULT_FLAC_COMPRESSION),
            Format::Mp3 => None,
        }
    }
}

} // verus!
