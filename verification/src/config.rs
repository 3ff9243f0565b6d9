//! The limits that extraction runs under, and how they are made from the
//! settings that a caller has read.

use vstd::prelude::*;
use vstd::utf8::encode_utf8;
use crate::error::DmarcError;
use crate::error::ErrorView;
use crate::models::text_view;
use crate::text::parse_decimal;
use crate::text::parse_unsigned;
use crate::text::trim;
use crate::text::trimmed;

verus! {

/// The largest raw file size that a configuration may allow.
pub const FILE_SIZE_CEILING: usize = 500_000_000;

/// Raw file size limit where none is set: 10 MiB.
pub const DEFAULT_MAX_FILE_SIZE: usize = 10_485_760;

/// Webhook timeout where none is set, in seconds.
pub const DEFAULT_WEBHOOK_TIMEOUT: u64 = 30;

/// Unpacked size limit where none is set: 100 MiB.
pub const DEFAULT_MAX_DECOMPRESSED_SIZE: usize = 104_857_600;

/// Entry limit where none is set.
pub const DEFAULT_MAX_FILES_IN_ZIP: usize = 1000;

/// Compression ratio limit where none is set.
pub const DEFAULT_MAX_COMPRESSION_RATIO: u64 = 1000;

/// Entry name length limit where none is set, in bytes.
pub const DEFAULT_MAX_FILENAME_LENGTH: usize = 256;

/// A ratio of two whole numbers. A ratio over zero is above every number.
#[derive(Debug, Clone, Copy, PartialEq, Eq, Structural)]
pub struct Ratio {
    pub numerator: u64,
    pub denominator: u64,
}

impl Ratio {
    /// The ratio that a whole number is.
    pub open spec fn of(n: u64) -> Ratio {
        Ratio { numerator: n, denominator: 1 }
    }

    /// Makes the ratio that a whole number is.
    pub fn whole(n: u64) -> (r: Ratio)
        ensures
            r == Ratio::of(n),
    {
        Ratio { numerator: n, denominator: 1 }
    }
}

/// The limits of one extraction, and where to send results.
#[derive(Debug, Clone)]
pub struct Config {
    pub webhook_url: Option<String>,
    /// Seconds to wait for the webhook.
    pub webhook_timeout: u64,
    /// Largest raw size of the input, in bytes.
    pub max_file_size: usize,
    /// Largest unpacked size of one payload, in bytes.
    pub max_decompressed_size: usize,
    /// Largest number of entries of an archive.
    pub max_files_in_zip: usize,
    /// Largest ratio of the size that an entry unpacks to, to its stored
    /// size.
    pub max_compression_ratio: Ratio,
    /// Longest entry name, in bytes.
    pub max_filename_length: usize,
}

/// The settings as a caller found them: the text of each, where it is set.
/// The compression ratio comes as a ratio already.
#[derive(Debug, Clone)]
pub struct Settings {
    pub webhook_url: Option<String>,
    pub max_file_size: Option<String>,
    pub webhook_timeout_secs: Option<String>,
    /// Read only where `webhook_timeout_secs` is not set.
    pub webhook_timeout: Option<String>,
    pub max_decompressed_size: Option<String>,
    pub max_files_in_zip: Option<String>,
    pub max_compression_ratio: Option<Ratio>,
    pub max_filename_length: Option<String>,
}

/// Mathematical value of a [`Config`].
pub struct ConfigView {
    pub webhook_url: Option<Seq<char>>,
    pub webhook_timeout: u64,
    pub max_file_size: usize,
    pub max_decompressed_size: usize,
    pub max_files_in_zip: usize,
    pub max_compression_ratio: Ratio,
    pub max_filename_length: usize,
}

/// Mathematical value of a [`Settings`].
pub struct SettingsView {
    pub webhook_url: Option<Seq<char>>,
    pub max_file_size: Option<Seq<char>>,
    pub webhook_timeout_secs: Option<Seq<char>>,
    pub webhook_timeout: Option<Seq<char>>,
    pub max_decompressed_size: Option<Seq<char>>,
    pub max_files_in_zip: Option<Seq<char>>,
    pub max_compression_ratio: Option<Ratio>,
    pub max_filename_length: Option<Seq<char>>,
}

impl View for Config {
    type V = ConfigView;

    open spec fn view(&self) -> ConfigView {
        ConfigView {
            webhook_url: text_view(self.webhook_url),
            webhook_timeout: self.webhook_timeout,
            max_file_size: self.max_file_size,
            max_decompressed_size: self.max_decompressed_size,
            max_files_in_zip: self.max_files_in_zip,
            max_compression_ratio: self.max_compression_ratio,
            max_filename_length: self.max_filename_length,
        }
    }
}

impl View for Settings {
    type V = SettingsView;

    open spec fn view(&self) -> SettingsView {
        SettingsView {
            webhook_url: text_view(self.webhook_url),
            max_file_size: text_view(self.max_file_size),
            webhook_timeout_secs: text_view(self.webhook_timeout_secs),
            webhook_timeout: text_view(self.webhook_timeout),
            max_decompressed_size: text_view(self.max_decompressed_size),
            max_files_in_zip: text_view(self.max_files_in_zip),
            max_compression_ratio: self.max_compression_ratio,
            max_filename_length: text_view(self.max_filename_length),
        }
    }
}

/// The number that a setting gives: the one its text writes, or the default
/// where it is not set or writes no number up to `max`.
pub open spec fn number_or(raw: Option<Seq<char>>, max: nat, default: nat) -> nat {
    match raw {
        Some(text) => match parse_unsigned(encode_utf8(text), max) {
            Some(v) => v,
            None => default,
        },
        None => default,
    }
}

/// The address that a setting gives: its text without the white space
/// around it, and none where nothing is left.
pub open spec fn address_of(raw: Option<Seq<char>>) -> Option<Seq<char>> {
    match raw {
        Some(text) => if trimmed(text).len() == 0 {
            None
        } else {
            Some(trimmed(text))
        },
        None => None,
    }
}

/// The text of the timeout setting that counts: the one in seconds where
/// it is set, else the older one.
pub open spec fn timeout_text(settings: SettingsView) -> Option<Seq<char>> {
    match settings.webhook_timeout_secs {
        Some(text) => Some(text),
        None => settings.webhook_timeout,
    }
}

impl SettingsView {
    /// The raw file size limit that the settings ask for.
    pub open spec fn file_size(self) -> nat {
        number_or(self.max_file_size, usize::MAX as nat, DEFAULT_MAX_FILE_SIZE as nat)
    }

    /// The configuration that the settings give: each limit from its
    /// setting or its default, refused where the raw file size limit is
    /// above the ceiling.
    pub open spec fn config(self) -> Result<ConfigView, ErrorView> {
        if self.file_size() > FILE_SIZE_CEILING {
            Err(ErrorView::Format("Max file size too large (500MB limit)"@))
        } else {
            Ok(
                ConfigView {
                    webhook_url: address_of(self.webhook_url),
                    webhook_timeout: number_or(
                        timeout_text(self),
                        u64::MAX as nat,
                        DEFAULT_WEBHOOK_TIMEOUT as nat,
                    ) as u64,
                    max_file_size: self.file_size() as usize,
                    max_decompressed_size: number_or(
                        self.max_decompressed_size,
                        usize::MAX as nat,
                        DEFAULT_MAX_DECOMPRESSED_SIZE as nat,
                    ) as usize,
                    max_files_in_zip: number_or(
                        self.max_files_in_zip,
                        usize::MAX as nat,
                        DEFAULT_MAX_FILES_IN_ZIP as nat,
                    ) as usize,
                    max_compression_ratio: match self.max_compression_ratio {
                        Some(ratio) => ratio,
                        None => Ratio::of(DEFAULT_MAX_COMPRESSION_RATIO),
                    },
                    max_filename_length: number_or(
                        self.max_filename_length,
                        usize::MAX as nat,
                        DEFAULT_MAX_FILENAME_LENGTH as nat,
                    ) as usize,
                },
            )
        }
    }
}

/// Reads the number of a setting.
pub fn read_number(raw: &Option<String>, max: u64, default: u64) -> (r: u64)
    requires
        default <= max,
    ensures
        r == number_or(text_view(*raw), max as nat, default as nat),
        r <= max,
{
    match raw {
        Some(text) => match parse_decimal(text.as_str().as_bytes(), max) {
            Some(v) => v,
            None => default,
        },
        None => default,
    }
}

/// Reads the size of a setting.
pub fn read_size(raw: &Option<String>, default: usize) -> (r: usize)
    ensures
        r == number_or(text_view(*raw), usize::MAX as nat, default as nat),
{
    read_number(raw, usize::MAX as u64, default as u64) as usize
}

/// Reads the address of a setting.
pub fn read_address(raw: &Option<String>) -> (r: Option<String>)
    ensures
        text_view(r) == address_of(text_view(*raw)),
{
    match raw {
        Some(text) => {
            let t = trim(text.as_str());
            if t.as_str().unicode_len() == 0 {
                None
            } else {
                Some(t)
            }
        },
        None => None,
    }
}

impl Config {
    /// Makes the configuration from the settings.
    pub fn new(settings: &Settings) -> (r: Result<Config, DmarcError>)
        ensures
            match r {
                Ok(config) => settings@.config() == Ok::<ConfigView, ErrorView>(config@),
                Err(e) => settings@.config() == Err::<ConfigView, ErrorView>(e@),
            },
    {
        let max_file_size = read_size(&settings.max_file_size, DEFAULT_MAX_FILE_SIZE);
        if max_file_size > FILE_SIZE_CEILING {
            return Err(
                DmarcError::Format(String::from_str("Max file size too large (500MB limit)")),
            );
        }
        let webhook_timeout = match &settings.webhook_timeout_secs {
            Some(_) => read_number(
                &settings.webhook_timeout_secs,
                u64::MAX,
                DEFAULT_WEBHOOK_TIMEOUT,
            ),
            None => read_number(&settings.webhook_timeout, u64::MAX, DEFAULT_WEBHOOK_TIMEOUT),
        };
        Ok(
            Config {
                webhook_url: read_address(&settings.webhook_url),
                webhook_timeout,
                max_file_size,
                max_decompressed_size: read_size(
                    &settings.max_decompressed_size,
                    DEFAULT_MAX_DECOMPRESSED_SIZE,
                ),
                max_files_in_zip: read_size(&settings.max_files_in_zip, DEFAULT_MAX_FILES_IN_ZIP),
                max_compression_ratio: match settings.max_compression_ratio {
                    Some(ratio) => ratio,
                    None => Ratio::whole(DEFAULT_MAX_COMPRESSION_RATIO),
                },
                max_filename_length: read_size(
                    &settings.max_filename_length,
                    DEFAULT_MAX_FILENAME_LENGTH,
                ),
            },
        )
    }
}

} // verus!
