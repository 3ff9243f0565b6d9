//! The boundary to the unpackers (`zip`, `flate2`) and to text decoding:
//! what they hold, seen as plain values, and the calls into them.
//!
//! The unpackers are not verified here. What they make of their input is
//! given names, and the contracts of the calls say how their results follow
//! from what is named.

use vstd::prelude::*;
use vstd::utf8::decode_utf8;
use vstd::utf8::valid_utf8;

verus! {

/// `zip::ZipArchive`, used over an in-memory cursor. Opaque: the extractor
/// sees it only through `archive_entries`.
#[verifier::external_type_specification]
#[verifier::external_body]
#[verifier::reject_recursive_types(R)]
pub struct ExZipArchive<R>(zip::ZipArchive<R>);

/// `std::io::Cursor`, which lets the archive reader seek in a byte slice.
#[verifier::external_type_specification]
#[verifier::external_body]
#[verifier::reject_recursive_types(T)]
pub struct ExCursor<T>(std::io::Cursor<T>);

/// What an archive's directory says of one entry.
#[derive(Debug)]
pub struct EntryHeader {
    /// The entry's name as stored, not made safe in any way.
    pub name: String,
    /// The size of the entry's data in the archive, in bytes.
    pub compressed_size: u64,
    /// The size that the entry claims to unpack to, in bytes.
    pub size: u64,
}

/// Mathematical value of an [`EntryHeader`].
pub struct HeaderView {
    pub name: Seq<char>,
    pub compressed_size: u64,
    pub size: u64,
}

impl View for EntryHeader {
    type V = HeaderView;

    open spec fn view(&self) -> HeaderView {
        HeaderView { name: self.name@, compressed_size: self.compressed_size, size: self.size }
    }
}

/// One entry of an archive: what opening it gives, and what reading it as
/// text gives once it is open.
pub struct EntryModel {
    pub header: Result<HeaderView, zip::result::ZipError>,
    pub text: Result<Seq<char>, std::io::Error>,
}

/// What the archive reader makes of a container: its entries in directory
/// order, or the reason why it is no archive.
pub uninterp spec fn zip_entries(input: Seq<u8>) -> Result<Seq<EntryModel>, zip::result::ZipError>;

/// The entries of an open archive, in directory order.
pub uninterp spec fn archive_entries(archive: zip::ZipArchive<std::io::Cursor<&[u8]>>) -> Seq<
    EntryModel,
>;

/// One entry of an archive, as a value that a caller can write down.
#[derive(Debug)]
pub struct ArchiveEntry {
    pub header: Result<EntryHeader, zip::result::ZipError>,
    pub text: Result<String, std::io::Error>,
}

impl View for ArchiveEntry {
    type V = EntryModel;

    open spec fn view(&self) -> EntryModel {
        EntryModel {
            header: match self.header {
                Ok(h) => Ok(h@),
                Err(e) => Err(e),
            },
            text: match self.text {
                Ok(t) => Ok(t@),
                Err(e) => Err(e),
            },
        }
    }
}

/// The values of a list of entries, in order.
pub open spec fn entry_views(entries: Seq<ArchiveEntry>) -> Seq<EntryModel> {
    Seq::new(entries.len(), |i: int| entries[i]@)
}

/// What reading bytes as text gives: the text that they encode, or the
/// reason why they encode none.
pub uninterp spec fn utf8_text(input: Seq<u8>) -> Result<Seq<char>, std::io::Error>;

/// What unpacking a gzip stream and reading the result as text gives.
pub uninterp spec fn gzip_text(input: Seq<u8>) -> Result<Seq<char>, std::io::Error>;

/// `zip::ZipArchive::new` over a cursor on the container's bytes. It reads
/// the central directory only; what it returns is what `zip_entries` names.
#[verifier::external_body]
pub(crate) fn open_archive<'a>(input: &'a [u8]) -> (res: Result<
    zip::ZipArchive<std::io::Cursor<&'a [u8]>>,
    zip::result::ZipError,
>)
    ensures
        match zip_entries(input@) {
            Ok(entries) => res matches Ok(archive) && archive_entries(archive) == entries,
            Err(error) => res matches Err(e) && e == error,
        },
{
    zip::ZipArchive::new(std::io::Cursor::new(input))
}

/// `zip::ZipArchive::len`: the number of entries.
#[verifier::external_body]
pub(crate) fn archive_len<'a>(archive: &zip::ZipArchive<std::io::Cursor<&'a [u8]>>) -> (n: usize)
    ensures
        n == archive_entries(*archive).len(),
{
    archive.len()
}

/// `zip::ZipArchive::by_index`, then `name`, `compressed_size` and `size`
/// of the entry it opens. Opening unpacks nothing, and the archive holds
/// the same entries afterwards.
#[verifier::external_body]
pub(crate) fn entry_header<'a>(
    archive: &mut zip::ZipArchive<std::io::Cursor<&'a [u8]>>,
    index: usize,
) -> (res: Result<EntryHeader, zip::result::ZipError>)
    ensures
        archive_entries(*final(archive)) == archive_entries(*old(archive)),
        index < archive_entries(*old(archive)).len() ==> match archive_entries(
            *old(archive),
        )[index as int].header {
            Ok(header) => res matches Ok(h) && h@ == header,
            Err(error) => res matches Err(e) && e == error,
        },
{
    let file = archive.by_index(index)?;
    Ok(
        EntryHeader {
            name: file.name().to_string(),
            compressed_size: file.compressed_size(),
            size: file.size(),
        },
    )
}

/// `zip::ZipArchive::by_index`, then `std::io::Read::read_to_string` on the
/// entry it opens: the entry unpacked and decoded as UTF-8. The archive
/// holds the same entries afterwards.
#[verifier::external_body]
pub(crate) fn entry_text<'a>(
    archive: &mut zip::ZipArchive<std::io::Cursor<&'a [u8]>>,
    index: usize,
) -> (res: Result<String, std::io::Error>)
    ensures
        archive_entries(*final(archive)) == archive_entries(*old(archive)),
        index < archive_entries(*old(archive)).len() && archive_entries(
            *old(archive),
        )[index as int].header is Ok ==> match archive_entries(*old(archive))[index as int].text {
            Ok(content) => res matches Ok(t) && t@ == content,
            Err(error) => res matches Err(e) && e == error,
        },
{
    let mut text = String::new();
    std::io::Read::read_to_string(&mut archive.by_index(index)?, &mut text)?;
    Ok(text)
}

/// `flate2::read::GzDecoder::new` over the stream's bytes, then
/// `std::io::Read::read_to_string`: the stream unpacked in full and decoded
/// as UTF-8, as `gzip_text` names it.
#[verifier::external_body]
pub(crate) fn gunzip_text(input: &[u8]) -> (res: Result<String, std::io::Error>)
    ensures
        match gzip_text(input@) {
            Ok(content) => res matches Ok(t) && t@ == content,
            Err(error) => res matches Err(e) && e == error,
        },
{
    let mut text = String::new();
    std::io::Read::read_to_string(&mut flate2::read::GzDecoder::new(input), &mut text)?;
    Ok(text)
}

/// `std::io::Read::read_to_string` on a byte slice: the bytes decoded as
/// UTF-8, and an error where they are no UTF-8, as `utf8_text` names it.
#[verifier::external_body]
pub(crate) fn decode_text(input: &[u8]) -> (res: Result<String, std::io::Error>)
    ensures
        match res {
            Ok(text) => utf8_text(input@) == Ok::<Seq<char>, std::io::Error>(text@) && valid_utf8(
                input@,
            ) && text@ == decode_utf8(input@),
            Err(e) => utf8_text(input@) == Err::<Seq<char>, std::io::Error>(e) && !valid_utf8(
                input@,
            ),
        },
{
    let mut text = String::new();
    let mut rest = input;
    std::io::Read::read_to_string(&mut rest, &mut text)?;
    Ok(text)
}

} // verus!
