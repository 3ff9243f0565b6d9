//! The error type of the crate, and the error types of the crates it calls.

use vstd::prelude::*;

verus! {

/// `std::io::Error`, carried through as an opaque value.
#[verifier::external_type_specification]
#[verifier::external_body]
pub struct ExIoError(std::io::Error);

/// `zip::result::ZipError`, carried through as an opaque value.
#[verifier::external_type_specification]
#[verifier::external_body]
pub struct ExZipError(zip::result::ZipError);

/// `quick_xml::Error`, carried through as an opaque value.
#[verifier::external_type_specification]
#[verifier::external_body]
pub struct ExXmlError(quick_xml::Error);

/// Why a container or a document was turned down.
#[derive(Debug)]
pub enum DmarcError {
    /// Reading failed underneath.
    Io(std::io::Error),
    /// The archive reader refused the container or one of its entries.
    Zip(zip::result::ZipError),
    /// The tokenizer refused the document.
    Xml(quick_xml::Error),
    /// The input has a shape that is not accepted.
    Format(String),
    /// A raw or an unpacked size is above its limit.
    FileTooLarge(String),
    /// The file name ends in none of the known extensions.
    UnsupportedFile(String),
    /// A geolocation lookup failed.
    Geolocation(String),
    /// The payload could not be used.
    Parse(String),
    /// The archive holds more entries than allowed.
    TooManyEntries,
    /// An entry's name, given here, would leave the extraction root.
    PathTraversal(String),
    /// An entry's name is longer than allowed.
    FilenameTooLong,
    /// An entry claims to unpack to too many times its stored size.
    SuspiciousCompressionRatio,
    /// The document type declaration declares two or more entities.
    RecursiveEntities,
    /// Elements are nested deeper than the ceiling.
    DepthLimitExceeded,
    /// A payload is blank; the text says which.
    EmptyContent(String),
}

/// Mathematical value of a [`DmarcError`].
pub enum ErrorView {
    Io(std::io::Error),
    Zip(zip::result::ZipError),
    Xml(quick_xml::Error),
    Format(Seq<char>),
    FileTooLarge(Seq<char>),
    UnsupportedFile(Seq<char>),
    Geolocation(Seq<char>),
    Parse(Seq<char>),
    TooManyEntries,
    PathTraversal(Seq<char>),
    FilenameTooLong,
    SuspiciousCompressionRatio,
    RecursiveEntities,
    DepthLimitExceeded,
    EmptyContent(Seq<char>),
}

impl View for DmarcError {
    type V = ErrorView;

    open spec fn view(&self) -> ErrorView {
        match self {
            DmarcError::Io(e) => ErrorView::Io(*e),
            DmarcError::Zip(e) => ErrorView::Zip(*e),
            DmarcError::Xml(e) => ErrorView::Xml(*e),
            DmarcError::Format(m) => ErrorView::Format(m@),
            DmarcError::FileTooLarge(m) => ErrorView::FileTooLarge(m@),
            DmarcError::UnsupportedFile(m) => ErrorView::UnsupportedFile(m@),
            DmarcError::Geolocation(m) => ErrorView::Geolocation(m@),
            DmarcError::Parse(m) => ErrorView::Parse(m@),
            DmarcError::TooManyEntries => ErrorView::TooManyEntries,
            DmarcError::PathTraversal(m) => ErrorView::PathTraversal(m@),
            DmarcError::FilenameTooLong => ErrorView::FilenameTooLong,
            DmarcError::SuspiciousCompressionRatio => ErrorView::SuspiciousCompressionRatio,
            DmarcError::RecursiveEntities => ErrorView::RecursiveEntities,
            DmarcError::DepthLimitExceeded => ErrorView::DepthLimitExceeded,
            DmarcError::EmptyContent(m) => ErrorView::EmptyContent(m@),
        }
    }
}

impl ErrorView {
    /// The words that a message opens with; for the errors that carry a
    /// text of their own, the text follows.
    pub open spec fn heading(self) -> Seq<char> {
        match self {
            ErrorView::Io(_) => "I/O error: "@,
            ErrorView::Zip(_) => "ZIP error: "@,
            ErrorView::Xml(_) => "XML error: "@,
            ErrorView::Format(_) => "Invalid format: "@,
            ErrorView::FileTooLarge(_) => "File too large: "@,
            ErrorView::UnsupportedFile(_) => "Unsupported file type: "@,
            ErrorView::Geolocation(_) => "Geolocation error: "@,
            ErrorView::Parse(_) => "Parse error: "@,
            ErrorView::TooManyEntries => "Too many files in archive"@,
            ErrorView::PathTraversal(_) => "Path traversal attempt detected: "@,
            ErrorView::FilenameTooLong => "Filename too long"@,
            ErrorView::SuspiciousCompressionRatio => "Suspicious compression ratio"@,
            ErrorView::RecursiveEntities => "Recursive entities detected"@,
            ErrorView::DepthLimitExceeded => "XML recursion depth limit exceeded"@,
            ErrorView::EmptyContent(_) => "Empty content: "@,
        }
    }

    /// The text that an error of the crate's own carries, if it carries one.
    pub open spec fn detail(self) -> Option<Seq<char>> {
        match self {
            ErrorView::Format(m) => Some(m),
            ErrorView::FileTooLarge(m) => Some(m),
            ErrorView::UnsupportedFile(m) => Some(m),
            ErrorView::Geolocation(m) => Some(m),
            ErrorView::Parse(m) => Some(m),
            ErrorView::PathTraversal(m) => Some(m),
            ErrorView::TooManyEntries => Some(Seq::empty()),
            ErrorView::FilenameTooLong => Some(Seq::empty()),
            ErrorView::SuspiciousCompressionRatio => Some(Seq::empty()),
            ErrorView::RecursiveEntities => Some(Seq::empty()),
            ErrorView::DepthLimitExceeded => Some(Seq::empty()),
            ErrorView::EmptyContent(m) => Some(m),
            _ => None,
        }
    }
}

impl DmarcError {
    /// The message of an error: its heading and then its detail. For an
    /// error that came from underneath, the detail is that error's own
    /// description.
    pub fn to_string(&self) -> (r: String)
        ensures
            r@.len() >= self@.heading().len(),
            r@.take(self@.heading().len() as int) == self@.heading(),
            self@.detail() matches Some(d) ==> r@ == self@.heading() + d,
    {
        let r = match self {
            DmarcError::Io(e) => String::from_str("I/O error: ").concat(e.to_string().as_str()),
            DmarcError::Zip(e) => String::from_str("ZIP error: ").concat(e.to_string().as_str()),
            DmarcError::Xml(e) => String::from_str("XML error: ").concat(e.to_string().as_str()),
            DmarcError::Format(m) => String::from_str("Invalid format: ").concat(m.as_str()),
            DmarcError::FileTooLarge(m) => String::from_str("File too large: ").concat(m.as_str()),
            DmarcError::UnsupportedFile(m) => String::from_str("Unsupported file type: ").concat(
                m.as_str(),
            ),
            DmarcError::Geolocation(m) => String::from_str("Geolocation error: ").concat(
                m.as_str(),
            ),
            DmarcError::Parse(m) => String::from_str("Parse error: ").concat(m.as_str()),
            DmarcError::TooManyEntries => String::from_str("Too many files in archive"),
            DmarcError::PathTraversal(m) => String::from_str(
                "Path traversal attempt detected: ",
            ).concat(m.as_str()),
            DmarcError::FilenameTooLong => String::from_str("Filename too long"),
            DmarcError::SuspiciousCompressionRatio => String::from_str(
                "Suspicious compression ratio",
            ),
            DmarcError::RecursiveEntities => String::from_str("Recursive entities detected"),
            DmarcError::DepthLimitExceeded => String::from_str(
                "XML recursion depth limit exceeded",
            ),
            DmarcError::EmptyContent(m) => String::from_str("Empty content: ").concat(m.as_str()),
        };
        assert(r@.take(self@.heading().len() as int) =~= self@.heading());
        r
    }
}

} // verus!
