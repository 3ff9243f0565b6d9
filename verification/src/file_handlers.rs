//! A second way in: a handler that takes a file by its kind under the same
//! guard, and in addition turns blank payloads and empty archives down.

use vstd::prelude::*;
use vstd::utf8::encode_utf8;
use crate::archive::decode_text;
use crate::archive::gunzip_text;
use crate::archive::gzip_text;
use crate::archive::utf8_text;
use crate::archive::zip_entries;
use crate::config::Config;
use crate::config::ConfigView;
use crate::error::DmarcError;
use crate::error::ErrorView;
use crate::text::decimal;
use crate::text::decimal_text;
use crate::text::is_blank;
use crate::text::lowercased;
use crate::text::to_lowercase;
use crate::zip_handler::extension_of;
use crate::zip_handler::extraction_view;
use crate::zip_handler::is_unsafe_name;
use crate::zip_handler::kind_of;
use crate::zip_handler::kind_of_extension;
use crate::zip_handler::lemma_unsafe_name_fails;
use crate::zip_handler::not_blank;
use crate::zip_handler::path_extension;
use crate::zip_handler::refuse_blank_text;
use crate::zip_handler::single;
use crate::zip_handler::text_views;
use crate::zip_handler::unpack_archive;
use crate::zip_handler::unpacked;
use crate::zip_handler::Container;

verus! {

/// Takes files by their kind, under the limits of a configuration.
#[derive(Debug)]
pub struct FileHandler {
    config: Config,
}

/// What the handler makes of the texts of an archive: a refusal for an
/// archive without entries, else the texts.
pub open spec fn some_texts(texts: Seq<Seq<char>>) -> Result<Seq<Seq<char>>, ErrorView> {
    if texts.len() == 0 {
        Err(ErrorView::Parse("No valid files found in ZIP"@))
    } else {
        Ok(texts)
    }
}

/// What the handler makes of a container that is an archive: what the
/// guard unpacks it to where blank payloads are refused, and a refusal for
/// an archive without entries.
pub open spec fn handled_zip(data: Seq<u8>, config: ConfigView) -> Result<
    Seq<Seq<char>>,
    ErrorView,
> {
    match unpacked(data, config, true) {
        Err(e) => Err(e),
        Ok(texts) => some_texts(texts),
    }
}

/// What the handler makes of an unpacked stream: a refusal where it is
/// longer than `limit` bytes or blank, else the one text.
pub open spec fn handled_stream(text: Seq<char>, limit: usize) -> Result<
    Seq<Seq<char>>,
    ErrorView,
> {
    if encode_utf8(text).len() > limit {
        Err(
            ErrorView::FileTooLarge(
                "Decompressed GZ size "@ + decimal(encode_utf8(text).len()) + " bytes exceeds limit"@,
            ),
        )
    } else {
        match not_blank(text, "Empty GZ file"@) {
            Ok(t) => Ok(seq![t]),
            Err(e) => Err(e),
        }
    }
}

/// What the handler makes of a container that is a compressed stream: the
/// stream unpacked in full and held to the limit on unpacked sizes.
pub open spec fn handled_gzip(data: Seq<u8>, config: ConfigView) -> Result<
    Seq<Seq<char>>,
    ErrorView,
> {
    match gzip_text(data) {
        Err(e) => Err(ErrorView::Io(e)),
        Ok(text) => handled_stream(text, config.max_decompressed_size),
    }
}

/// What the handler makes of the text of a plain document: a refusal
/// where it is longer than `limit` bytes or blank, else the one text.
pub open spec fn handled_document(text: Seq<char>, limit: usize) -> Result<
    Seq<Seq<char>>,
    ErrorView,
> {
    if encode_utf8(text).len() > limit {
        Err(ErrorView::FileTooLarge("XML file size too large"@))
    } else {
        match not_blank(text, "Empty XML file"@) {
            Ok(t) => Ok(seq![t]),
            Err(e) => Err(e),
        }
    }
}

/// What the handler makes of a plain document: its text, held to the
/// limit on raw file sizes.
pub open spec fn handled_xml(data: Seq<u8>, config: ConfigView) -> Result<
    Seq<Seq<char>>,
    ErrorView,
> {
    match utf8_text(data) {
        Err(e) => Err(ErrorView::Io(e)),
        Ok(text) => handled_document(text, config.max_file_size),
    }
}

/// What the handler makes of a file of this name and these bytes: a
/// refusal where the file is too large, has no extension or is of no known
/// kind, else what is made of its kind of container.
pub open spec fn processed(file_name: Seq<char>, data: Seq<u8>, config: ConfigView) -> Result<
    Seq<Seq<char>>,
    ErrorView,
> {
    if data.len() > config.max_file_size {
        Err(
            ErrorView::FileTooLarge(
                "File size "@ + decimal(data.len()) + " bytes exceeds limit of "@ + decimal(
                    config.max_file_size as nat,
                ) + " bytes"@,
            ),
        )
    } else {
        match path_extension(file_name) {
            None => Err(ErrorView::UnsupportedFile("No file extension"@)),
            Some(ext) => match kind_of(encode_utf8(ext)) {
                None => Err(
                    ErrorView::UnsupportedFile("Unsupported file extension: "@ + lowercased(ext)),
                ),
                Some(Container::Zip) => handled_zip(data, config),
                Some(Container::Gzip) => handled_gzip(data, config),
                Some(Container::Xml) => handled_xml(data, config),
            },
        }
    }
}

/// Takes an unpacked stream.
pub fn take_stream(text: String, limit: usize) -> (r: Result<Vec<String>, DmarcError>)
    ensures
        extraction_view(r) == handled_stream(text@, limit),
{
    let size = text.as_str().as_bytes().len();
    if size > limit {
        return Err(
            DmarcError::FileTooLarge(
                String::from_str("Decompressed GZ size ").concat(
                    decimal_text(size as u64).as_str(),
                ).concat(" bytes exceeds limit"),
            ),
        );
    }
    match refuse_blank_text(text, "Empty GZ file") {
        Ok(t) => Ok(single(t)),
        Err(e) => Err(e),
    }
}

/// Takes the text of a plain document.
pub fn take_document(text: String, limit: usize) -> (r: Result<Vec<String>, DmarcError>)
    ensures
        extraction_view(r) == handled_document(text@, limit),
{
    if text.as_str().as_bytes().len() > limit {
        return Err(DmarcError::FileTooLarge(String::from_str("XML file size too large")));
    }
    match refuse_blank_text(text, "Empty XML file") {
        Ok(t) => Ok(single(t)),
        Err(e) => Err(e),
    }
}

/// Takes the texts of an archive.
pub fn take_texts(texts: Vec<String>) -> (r: Result<Vec<String>, DmarcError>)
    ensures
        extraction_view(r) == some_texts(text_views(texts@)),
{
    if texts.len() == 0 {
        return Err(DmarcError::Parse(String::from_str("No valid files found in ZIP")));
    }
    Ok(texts)
}

impl FileHandler {
    /// The limits that the handler works under.
    pub closed spec fn limits(&self) -> ConfigView {
        self.config@
    }

    /// Makes a handler that works under `config`.
    pub fn new(config: Config) -> (handler: FileHandler)
        ensures
            handler.limits() == config@,
    {
        FileHandler { config }
    }

    /// Takes the file of this name and these bytes.
    pub fn process_file(&self, file_name: &str, data: &[u8]) -> (r: Result<
        Vec<String>,
        DmarcError,
    >)
        ensures
            extraction_view(r) == processed(file_name@, data@, self.limits()),
    {
        let limit = self.config.max_file_size;
        if data.len() > limit {
            return Err(
                DmarcError::FileTooLarge(
                    String::from_str("File size ").concat(
                        decimal_text(data.len() as u64).as_str(),
                    ).concat(" bytes exceeds limit of ").concat(
                        decimal_text(limit as u64).as_str(),
                    ).concat(" bytes"),
                ),
            );
        }
        match extension_of(file_name) {
            None => Err(DmarcError::UnsupportedFile(String::from_str("No file extension"))),
            Some(ext) => match kind_of_extension(ext) {
                None => Err(
                    DmarcError::UnsupportedFile(
                        String::from_str("Unsupported file extension: ").concat(
                            to_lowercase(ext).as_str(),
                        ),
                    ),
                ),
                Some(Container::Zip) => self.handle_zip(data),
                Some(Container::Gzip) => self.handle_gzip(data),
                Some(Container::Xml) => self.handle_xml(data),
            },
        }
    }

    /// Takes an archive: every entry checked by the guard before it is
    /// unpacked, none of them blank, and at least one.
    pub fn handle_zip(&self, data: &[u8]) -> (r: Result<Vec<String>, DmarcError>)
        ensures
            extraction_view(r) == handled_zip(data@, self.limits()),
    {
        match unpack_archive(data, &self.config, true) {
            Err(e) => Err(e),
            Ok(texts) => take_texts(texts),
        }
    }

    /// Takes a compressed stream: unpacked in full, within the limit on
    /// unpacked sizes and not blank.
    pub fn handle_gzip(&self, data: &[u8]) -> (r: Result<Vec<String>, DmarcError>)
        ensures
            extraction_view(r) == handled_gzip(data@, self.limits()),
    {
        match gunzip_text(data) {
            Err(e) => Err(DmarcError::Io(e)),
            Ok(text) => take_stream(text, self.config.max_decompressed_size),
        }
    }

    /// Takes a plain document: decoded, within the limit on raw file sizes
    /// and not blank.
    pub fn handle_xml(&self, data: &[u8]) -> (r: Result<Vec<String>, DmarcError>)
        ensures
            extraction_view(r) == handled_xml(data@, self.limits()),
    {
        match decode_text(data) {
            Err(e) => Err(DmarcError::Io(e)),
            Ok(text) => take_document(text, self.config.max_file_size),
        }
    }
}

/// The handler never hands out an entry whose name holds `..` or begins
/// with a path separator: an archive with such an entry is turned down.
pub proof fn lemma_handler_refuses_unsafe_names(data: Seq<u8>, bad: int, config: ConfigView)
    requires
        zip_entries(data) is Ok,
        0 <= bad < zip_entries(data)->Ok_0.len(),
        zip_entries(data)->Ok_0[bad].header matches Ok(header)
            && is_unsafe_name(encode_utf8(header.name)),
    ensures
        handled_zip(data, config) is Err,
{
    lemma_unsafe_name_fails(
        zip_entries(data)->Ok_0,
        bad,
        config,
        true,
    );
}

/// A stream that the handler lets through is not longer than the limit on
/// unpacked sizes, not blank, and handed out as it is.
pub proof fn lemma_handled_stream_is_within_limit(data: Seq<u8>, config: ConfigView)
    ensures
        handled_gzip(data, config) matches Ok(texts) ==> gzip_text(data) matches Ok(text)
            && texts == seq![text] && encode_utf8(text).len() <= config.max_decompressed_size
            && !is_blank(text),
{
}

} // verus!
