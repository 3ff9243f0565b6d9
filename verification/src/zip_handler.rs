//! The archive guard: which container a file is, which entries are let
//! through, and the unpacking of what is let through.

use vstd::prelude::*;
use vstd::string::StringSliceAdditionalSpecFns;
use vstd::utf8::encode_utf8;
use crate::archive::archive_entries;
use crate::archive::archive_len;
use crate::archive::decode_text;
use crate::archive::entry_header;
use crate::archive::entry_text;
use crate::archive::entry_views;
use crate::archive::gunzip_text;
use crate::archive::gzip_text;
use crate::archive::open_archive;
use crate::archive::utf8_text;
use crate::archive::zip_entries;
use crate::archive::ArchiveEntry;
use crate::archive::EntryHeader;
use crate::archive::EntryModel;
use crate::archive::HeaderView;
use crate::config::Config;
use crate::config::ConfigView;
use crate::config::Ratio;
use crate::error::DmarcError;
use crate::error::ErrorView;
use crate::text::blank;
use crate::text::contains;
use crate::text::eq_ignore_case;
use crate::text::find_from;
use crate::text::find_last;
use crate::text::is_blank;
use crate::text::last_position;
use crate::text::lemma_first_occurrence;
use crate::text::same_ignoring_case;
use crate::text::text_eq;

verus! {

/// The kinds of container that are unpacked.
#[derive(Debug, Clone, Copy, PartialEq, Eq, Structural)]
pub enum Container {
    /// An archive of several entries.
    Zip,
    /// One compressed stream.
    Gzip,
    /// A plain document.
    Xml,
}

/// The extension of a file name: what follows its last `.`. A name without
/// a `.`, a name whose only `.` is the one it begins with, and the name
/// `..` have none.
pub open spec fn path_extension(name: Seq<char>) -> Option<Seq<char>> {
    if name == ".."@ {
        None
    } else {
        match last_position(name, '.') {
            Some(at) => if at == 0 {
                None
            } else {
                Some(name.skip(at + 1))
            },
            None => None,
        }
    }
}

/// The kind of container that an extension stands for, without regard to
/// letter case.
pub open spec fn kind_of(ext: Seq<u8>) -> Option<Container> {
    if same_ignoring_case(ext, "zip".spec_bytes()) {
        Some(Container::Zip)
    } else if same_ignoring_case(ext, "gz".spec_bytes()) {
        Some(Container::Gzip)
    } else if same_ignoring_case(ext, "xml".spec_bytes()) {
        Some(Container::Xml)
    } else {
        None
    }
}

/// The container that a file name stands for: the kind of its extension,
/// and none for a name without extension.
pub open spec fn container_of(name: Seq<char>) -> Option<Container> {
    match path_extension(name) {
        Some(ext) => kind_of(encode_utf8(ext)),
        None => None,
    }
}

/// An entry name that could leave the extraction root: one that holds `..`
/// or begins with `/` or `\`.
pub open spec fn is_unsafe_name(name: Seq<u8>) -> bool {
    ||| contains(name, "..".spec_bytes())
    ||| name.len() > 0 && (name[0] == 47 || name[0] == 92)
}

/// An entry that claims to unpack to more than `max` times its stored
/// size. An entry that stores nothing is not judged by this.
pub open spec fn exceeds_ratio(header: HeaderView, max: Ratio) -> bool {
    header.compressed_size > 0 && header.size * max.denominator > max.numerator
        * header.compressed_size
}

/// Why an entry is turned down before anything of it is unpacked, by the
/// first check that it fails: its name is unsafe, its name is too long,
/// its ratio is too high, it claims to unpack to too much.
pub open spec fn entry_refusal(header: HeaderView, config: ConfigView) -> Option<ErrorView> {
    if is_unsafe_name(encode_utf8(header.name)) {
        Some(ErrorView::PathTraversal(header.name))
    } else if encode_utf8(header.name).len() > config.max_filename_length {
        Some(ErrorView::FilenameTooLong)
    } else if exceeds_ratio(header, config.max_compression_ratio) {
        Some(ErrorView::SuspiciousCompressionRatio)
    } else if header.size > config.max_decompressed_size {
        Some(ErrorView::FileTooLarge("Total decompressed size too large"@))
    } else {
        None
    }
}

/// What is made of an unpacked text where blank payloads are refused: a
/// refusal of a blank text (the error says `what`), else the text.
pub open spec fn not_blank(text: Seq<char>, what: Seq<char>) -> Result<Seq<char>, ErrorView> {
    if is_blank(text) {
        Err(ErrorView::EmptyContent(what))
    } else {
        Ok(text)
    }
}

/// What is made of what unpacking an entry brought: the error of a failed
/// read, a refusal of a blank text where blank payloads are refused, else
/// the text.
pub open spec fn text_outcome(text: Result<Seq<char>, std::io::Error>, refuse_blank: bool) -> Result<
    Seq<char>,
    ErrorView,
> {
    match text {
        Err(e) => Err(ErrorView::Io(e)),
        Ok(content) => if refuse_blank {
            not_blank(content, "Empty file"@)
        } else {
            Ok(content)
        },
    }
}

/// What taking one entry gives: its text, or the error of the first step
/// that fails: opening it, the checks of `entry_refusal`, unpacking it,
/// and, where blank payloads are refused, that it is not blank.
pub open spec fn entry_outcome(entry: EntryModel, config: ConfigView, refuse_blank: bool) -> Result<
    Seq<char>,
    ErrorView,
> {
    match entry.header {
        Err(e) => Err(ErrorView::Zip(e)),
        Ok(header) => match entry_refusal(header, config) {
            Some(e) => Err(e),
            None => text_outcome(entry.text, refuse_blank),
        },
    }
}

/// The texts of the entries from `i` on, in order, or the error of the
/// first entry that gives one.
pub open spec fn unpack_from(
    entries: Seq<EntryModel>,
    i: int,
    config: ConfigView,
    refuse_blank: bool,
) -> Result<Seq<Seq<char>>, ErrorView>
    decreases entries.len() - i,
{
    if i < 0 || i >= entries.len() {
        Ok(Seq::empty())
    } else {
        match entry_outcome(entries[i], config, refuse_blank) {
            Err(e) => Err(e),
            Ok(text) => match unpack_from(entries, i + 1, config, refuse_blank) {
                Err(e) => Err(e),
                Ok(rest) => Ok(seq![text] + rest),
            },
        }
    }
}

/// What unpacking an archive gives: a refusal where it holds too many
/// entries, else the texts of all its entries or the first error.
pub open spec fn unpack(entries: Seq<EntryModel>, config: ConfigView, refuse_blank: bool) -> Result<
    Seq<Seq<char>>,
    ErrorView,
> {
    if entries.len() > config.max_files_in_zip {
        Err(ErrorView::TooManyEntries)
    } else {
        unpack_from(entries, 0, config, refuse_blank)
    }
}

/// What unpacking a container that is an archive gives.
pub open spec fn unpacked(data: Seq<u8>, config: ConfigView, refuse_blank: bool) -> Result<
    Seq<Seq<char>>,
    ErrorView,
> {
    match zip_entries(data) {
        Err(e) => Err(ErrorView::Zip(e)),
        Ok(entries) => unpack(entries, config, refuse_blank),
    }
}

/// What is made of an unpacked stream: a refusal where it is longer than
/// `limit` bytes (the error says `what`), else the one text.
pub open spec fn within_limit(text: Seq<char>, limit: usize, what: Seq<char>) -> Result<
    Seq<Seq<char>>,
    ErrorView,
> {
    if encode_utf8(text).len() > limit {
        Err(ErrorView::FileTooLarge(what))
    } else {
        Ok(seq![text])
    }
}

/// What extraction gives for a file of this name and these bytes: a
/// refusal where the file is too large or of no known kind, else what its
/// kind of container unpacks to under the limits.
pub open spec fn extract_outcome(file_name: Seq<char>, data: Seq<u8>, config: ConfigView) -> Result<
    Seq<Seq<char>>,
    ErrorView,
> {
    if data.len() > config.max_file_size {
        Err(ErrorView::FileTooLarge("File too large"@))
    } else {
        match container_of(file_name) {
            None => Err(ErrorView::UnsupportedFile("Unsupported file type"@)),
            Some(Container::Zip) => unpacked(data, config, false),
            Some(Container::Gzip) => match gzip_text(data) {
                Err(e) => Err(ErrorView::Io(e)),
                Ok(text) => within_limit(
                    text,
                    config.max_decompressed_size,
                    "Decompressed size too large"@,
                ),
            },
            Some(Container::Xml) => match utf8_text(data) {
                Err(e) => Err(ErrorView::Io(e)),
                Ok(text) => within_limit(text, config.max_file_size, "XML file size too large"@),
            },
        }
    }
}

/// The values of a list of texts, in order.
pub open spec fn text_views(texts: Seq<String>) -> Seq<Seq<char>> {
    Seq::new(texts.len(), |i: int| texts[i]@)
}

/// Mathematical value of what an extraction returns.
pub open spec fn extraction_view(r: Result<Vec<String>, DmarcError>) -> Result<
    Seq<Seq<char>>,
    ErrorView,
> {
    match r {
        Ok(texts) => Ok(text_views(texts@)),
        Err(e) => Err(e@),
    }
}

/// Cuts the extension out of a file name.
pub fn extension_of(file_name: &str) -> (r: Option<&str>)
    ensures
        match r {
            Some(ext) => path_extension(file_name@) == Some(ext@),
            None => path_extension(file_name@) is None,
        },
{
    if text_eq(file_name, "..") {
        return None;
    }
    match find_last(file_name, '.') {
        Some(at) => if at == 0 {
            None
        } else {
            let total = file_name.unicode_len();
            Some(file_name.substring_char(at + 1, total))
        },
        None => None,
    }
}

/// Tells the kind of container that an extension stands for.
pub fn kind_of_extension(ext: &str) -> (kind: Option<Container>)
    ensures
        kind == kind_of(ext.spec_bytes()),
{
    let bytes = ext.as_bytes();
    if eq_ignore_case(bytes, "zip".as_bytes()) {
        Some(Container::Zip)
    } else if eq_ignore_case(bytes, "gz".as_bytes()) {
        Some(Container::Gzip)
    } else if eq_ignore_case(bytes, "xml".as_bytes()) {
        Some(Container::Xml)
    } else {
        None
    }
}

/// Tells which container a file name stands for.
pub fn classify_container(file_name: &str) -> (kind: Option<Container>)
    ensures
        kind == container_of(file_name@),
{
    match extension_of(file_name) {
        Some(ext) => kind_of_extension(ext),
        None => None,
    }
}

/// Tells whether an entry name could leave the extraction root.
pub fn unsafe_name(name: &[u8]) -> (r: bool)
    ensures
        r == is_unsafe_name(name@),
{
    proof {
        lemma_first_occurrence(name@, "..".spec_bytes(), 0);
    }
    if find_from(name, "..".as_bytes(), 0).is_some() {
        return true;
    }
    name.len() > 0 && (name[0] == 47 || name[0] == 92)
}

/// Tells whether an entry claims to unpack to more than `max` times its
/// stored size.
pub fn ratio_exceeded(header: &EntryHeader, max: Ratio) -> (r: bool)
    ensures
        r == exceeds_ratio(header@, max),
{
    if header.compressed_size == 0 {
        return false;
    }
    assert(max.numerator * header.compressed_size <= u128::MAX) by (nonlinear_arith)
        requires
            0 <= max.numerator <= u64::MAX,
            0 <= header.compressed_size <= u64::MAX,
    ;
    assert(header.size * max.denominator <= u128::MAX) by (nonlinear_arith)
        requires
            0 <= max.denominator <= u64::MAX,
            0 <= header.size <= u64::MAX,
    ;
    let allowed: u128 = (max.numerator as u128) * (header.compressed_size as u128);
    let claimed: u128 = (header.size as u128) * (max.denominator as u128);
    claimed > allowed
}

/// Checks an entry before anything of it is unpacked.
pub fn check_entry(header: &EntryHeader, config: &Config) -> (r: Result<(), DmarcError>)
    ensures
        match r {
            Ok(_) => entry_refusal(header@, config@) is None,
            Err(e) => entry_refusal(header@, config@) == Some(e@),
        },
{
    let name = header.name.as_str();
    if unsafe_name(name.as_bytes()) {
        return Err(DmarcError::PathTraversal(String::from_str(name)));
    }
    if name.as_bytes().len() > config.max_filename_length {
        return Err(DmarcError::FilenameTooLong);
    }
    if ratio_exceeded(header, config.max_compression_ratio) {
        return Err(DmarcError::SuspiciousCompressionRatio);
    }
    if header.size > config.max_decompressed_size as u64 {
        return Err(
            DmarcError::FileTooLarge(String::from_str("Total decompressed size too large")),
        );
    }
    Ok(())
}

/// Turns a blank text down.
pub fn refuse_blank_text(text: String, what: &str) -> (r: Result<String, DmarcError>)
    ensures
        match r {
            Ok(t) => not_blank(text@, what@) == Ok::<Seq<char>, ErrorView>(t@),
            Err(e) => not_blank(text@, what@) == Err::<Seq<char>, ErrorView>(e@),
        },
{
    if blank(text.as_str()) {
        Err(DmarcError::EmptyContent(String::from_str(what)))
    } else {
        Ok(text)
    }
}

/// The value of what unpacking an entry brought.
pub open spec fn unpacked_view(text: Result<String, std::io::Error>) -> Result<
    Seq<char>,
    std::io::Error,
> {
    match text {
        Ok(t) => Ok(t@),
        Err(e) => Err(e),
    }
}

/// Takes what unpacking an entry brought.
pub fn settle_text(text: Result<String, std::io::Error>, refuse_blank: bool) -> (r: Result<
    String,
    DmarcError,
>)
    ensures
        match r {
            Ok(t) => text_outcome(unpacked_view(text), refuse_blank) == Ok::<Seq<char>, ErrorView>(
                t@,
            ),
            Err(e) => text_outcome(unpacked_view(text), refuse_blank) == Err::<
                Seq<char>,
                ErrorView,
            >(e@),
        },
{
    match text {
        Err(e) => Err(DmarcError::Io(e)),
        Ok(t) => if refuse_blank {
            refuse_blank_text(t, "Empty file")
        } else {
            Ok(t)
        },
    }
}

/// Takes one entry that is given as a value.
pub fn take_entry(entry: ArchiveEntry, config: &Config, refuse_blank: bool) -> (r: Result<
    String,
    DmarcError,
>)
    ensures
        match r {
            Ok(text) => entry_outcome(entry@, config@, refuse_blank) == Ok::<Seq<char>, ErrorView>(
                text@,
            ),
            Err(e) => entry_outcome(entry@, config@, refuse_blank) == Err::<Seq<char>, ErrorView>(
                e@,
            ),
        },
{
    let ArchiveEntry { header, text } = entry;
    match header {
        Err(e) => Err(DmarcError::Zip(e)),
        Ok(h) => match check_entry(&h, config) {
            Err(e) => Err(e),
            Ok(_) => settle_text(text, refuse_blank),
        },
    }
}

/// The texts gathered so far, and then what the entries from `i` on give.
pub open spec fn gathered(
    done: Seq<Seq<char>>,
    entries: Seq<EntryModel>,
    i: int,
    config: ConfigView,
    refuse_blank: bool,
) -> Result<Seq<Seq<char>>, ErrorView> {
    match unpack_from(entries, i, config, refuse_blank) {
        Ok(rest) => Ok(done + rest),
        Err(e) => Err(e),
    }
}

/// Gathering an entry's text and going on is the same as going on from
/// that entry.
proof fn lemma_gather_step(
    done: Seq<Seq<char>>,
    entries: Seq<EntryModel>,
    i: int,
    config: ConfigView,
    refuse_blank: bool,
)
    requires
        0 <= i < entries.len(),
        entry_outcome(entries[i], config, refuse_blank) is Ok,
    ensures
        gathered(
            done.push(entry_outcome(entries[i], config, refuse_blank)->Ok_0),
            entries,
            i + 1,
            config,
            refuse_blank,
        ) == gathered(done, entries, i, config, refuse_blank),
{
    let text = entry_outcome(entries[i], config, refuse_blank)->Ok_0;
    match unpack_from(entries, i + 1, config, refuse_blank) {
        Ok(rest) => {
            assert(done.push(text) + rest =~= done + (seq![text] + rest));
        },
        Err(_) => {},
    }
}

/// Unpacks a list of entries that is given as values.
pub fn unpack_entries(entries: Vec<ArchiveEntry>, config: &Config, refuse_blank: bool) -> (r:
    Result<Vec<String>, DmarcError>)
    ensures
        extraction_view(r) == unpack(entry_views(entries@), config@, refuse_blank),
{
    if entries.len() > config.max_files_in_zip {
        return Err(DmarcError::TooManyEntries);
    }
    let ghost all = entries@;
    let ghost models = entry_views(entries@);
    let mut texts: Vec<String> = Vec::new();
    assert(Seq::<Seq<char>>::empty() + unpack_from(models, 0, config@, refuse_blank)->Ok_0
        =~= unpack_from(models, 0, config@, refuse_blank)->Ok_0);
    assert(text_views(texts@) =~= Seq::<Seq<char>>::empty());
    for entry in it: entries
        invariant
            it.seq() == all,
            models == entry_views(all),
            gathered(text_views(texts@), models, it.index() as int, config@, refuse_blank)
                == unpack(models, config@, refuse_blank),
    {
        assert(models[it.index() as int] == entry@);
        match take_entry(entry, config, refuse_blank) {
            Err(e) => {
                return Err(e);
            },
            Ok(text) => {
                proof {
                    lemma_gather_step(
                        text_views(texts@),
                        models,
                        it.index() as int,
                        config@,
                        refuse_blank,
                    );
                    assert(text_views(texts@.push(text)) =~= text_views(texts@).push(text@));
                }
                texts.push(text);
            },
        }
    }
    assert(text_views(texts@) + Seq::<Seq<char>>::empty() =~= text_views(texts@));
    Ok(texts)
}

/// Unpacks an archive: opens it, and takes its entries in directory order,
/// each checked before it is unpacked.
pub fn unpack_archive(data: &[u8], config: &Config, refuse_blank: bool) -> (r: Result<
    Vec<String>,
    DmarcError,
>)
    ensures
        extraction_view(r) == unpacked(data@, config@, refuse_blank),
{
    let mut archive = match open_archive(data) {
        Err(e) => {
            return Err(DmarcError::Zip(e));
        },
        Ok(archive) => archive,
    };
    let ghost models = archive_entries(archive);
    let total = archive_len(&archive);
    if total > config.max_files_in_zip {
        return Err(DmarcError::TooManyEntries);
    }
    let mut texts: Vec<String> = Vec::new();
    assert(Seq::<Seq<char>>::empty() + unpack_from(models, 0, config@, refuse_blank)->Ok_0
        =~= unpack_from(models, 0, config@, refuse_blank)->Ok_0);
    assert(text_views(texts@) =~= Seq::<Seq<char>>::empty());
    let mut i: usize = 0;
    while i < total
        invariant
            i <= total,
            total == models.len(),
            archive_entries(archive) == models,
            zip_entries(data@) == Ok::<Seq<EntryModel>, zip::result::ZipError>(models),
            gathered(text_views(texts@), models, i as int, config@, refuse_blank) == unpack(
                models,
                config@,
                refuse_blank,
            ),
        decreases total - i,
    {
        let header = match entry_header(&mut archive, i) {
            Err(e) => {
                return Err(DmarcError::Zip(e));
            },
            Ok(header) => header,
        };
        match check_entry(&header, config) {
            Err(e) => {
                return Err(e);
            },
            Ok(_) => {},
        }
        let unpacked_text = entry_text(&mut archive, i);
        let text = match settle_text(unpacked_text, refuse_blank) {
            Err(e) => {
                return Err(e);
            },
            Ok(text) => text,
        };
        proof {
            lemma_gather_step(text_views(texts@), models, i as int, config@, refuse_blank);
            assert(text_views(texts@.push(text)) =~= text_views(texts@).push(text@));
        }
        texts.push(text);
        i = i + 1;
    }
    assert(text_views(texts@) + Seq::<Seq<char>>::empty() =~= text_views(texts@));
    Ok(texts)
}

/// Wraps one text as a list of payloads.
pub fn single(text: String) -> (r: Vec<String>)
    ensures
        text_views(r@) == seq![text@],
{
    let mut texts: Vec<String> = Vec::new();
    texts.push(text);
    assert(text_views(texts@) =~= seq![text@]);
    texts
}

/// Lets an unpacked stream through if it is at most `limit` bytes long.
pub fn let_through(text: String, limit: usize, what: &str) -> (r: Result<Vec<String>, DmarcError>)
    ensures
        extraction_view(r) == within_limit(text@, limit, what@),
{
    if text.as_str().as_bytes().len() > limit {
        return Err(DmarcError::FileTooLarge(String::from_str(what)));
    }
    Ok(single(text))
}

/// Extracts the text payloads of a report file, given its name and its
/// bytes: one payload for a plain document or a compressed stream, one per
/// entry for an archive.
pub fn extract_zip(file_name: &str, data: &[u8], config: &Config) -> (r: Result<
    Vec<String>,
    DmarcError,
>)
    ensures
        extraction_view(r) == extract_outcome(file_name@, data@, config@),
{
    if data.len() > config.max_file_size {
        return Err(DmarcError::FileTooLarge(String::from_str("File too large")));
    }
    match classify_container(file_name) {
        None => Err(DmarcError::UnsupportedFile(String::from_str("Unsupported file type"))),
        Some(Container::Zip) => unpack_archive(data, config, false),
        Some(Container::Gzip) => match gunzip_text(data) {
            Err(e) => Err(DmarcError::Io(e)),
            Ok(text) => let_through(
                text,
                config.max_decompressed_size,
                "Decompressed size too large",
            ),
        },
        Some(Container::Xml) => match decode_text(data) {
            Err(e) => Err(DmarcError::Io(e)),
            Ok(text) => let_through(text, config.max_file_size, "XML file size too large"),
        },
    }
}

/// An entry that opens, passes every check and unpacks, to a text that is
/// not blank where blank payloads are refused.
pub open spec fn is_sound(entry: EntryModel, config: ConfigView, refuse_blank: bool) -> bool {
    &&& entry.header is Ok
    &&& entry_refusal(entry.header->Ok_0, config) is None
    &&& entry.text is Ok
    &&& refuse_blank ==> !is_blank(entry.text->Ok_0)
}

/// Sound entries from `i` on give their texts, one each and in order.
proof fn lemma_sound_entries_from(
    entries: Seq<EntryModel>,
    i: int,
    config: ConfigView,
    refuse_blank: bool,
)
    requires
        0 <= i <= entries.len(),
        forall|k: int|
            i <= k < entries.len() ==> is_sound(#[trigger] entries[k], config, refuse_blank),
    ensures
        unpack_from(entries, i, config, refuse_blank) matches Ok(texts) && texts.len()
            == entries.len() - i && forall|k: int|
            0 <= k < texts.len() ==> #[trigger] texts[k] == entries[i + k].text->Ok_0,
    decreases entries.len() - i,
{
    if i < entries.len() {
        assert(is_sound(entries[i], config, refuse_blank));
        lemma_sound_entries_from(entries, i + 1, config, refuse_blank);
    }
}

/// An entry that gives an error makes every run that reaches it or starts
/// before it give one.
proof fn lemma_failure_from(
    entries: Seq<EntryModel>,
    i: int,
    bad: int,
    config: ConfigView,
    refuse_blank: bool,
)
    requires
        0 <= i <= bad < entries.len(),
        entry_outcome(entries[bad], config, refuse_blank) is Err,
    ensures
        unpack_from(entries, i, config, refuse_blank) is Err,
    decreases bad - i,
{
    if i < bad {
        lemma_failure_from(entries, i + 1, bad, config, refuse_blank);
    }
}

/// After sound entries only, the error of an entry is the error of the
/// run.
proof fn lemma_first_failure_from(
    entries: Seq<EntryModel>,
    i: int,
    bad: int,
    config: ConfigView,
    refuse_blank: bool,
)
    requires
        0 <= i <= bad < entries.len(),
        forall|k: int| i <= k < bad ==> is_sound(#[trigger] entries[k], config, refuse_blank),
        entry_outcome(entries[bad], config, refuse_blank) is Err,
    ensures
        unpack_from(entries, i, config, refuse_blank) == Err::<Seq<Seq<char>>, ErrorView>(
            entry_outcome(entries[bad], config, refuse_blank)->Err_0,
        ),
    decreases bad - i,
{
    if i < bad {
        assert(is_sound(entries[i], config, refuse_blank));
        lemma_first_failure_from(entries, i + 1, bad, config, refuse_blank);
    }
}

/// An archive within the entry limit whose entries are all sound gives
/// exactly one text per entry, in directory order.
pub proof fn lemma_sound_archive_unpacks(
    entries: Seq<EntryModel>,
    config: ConfigView,
    refuse_blank: bool,
)
    requires
        entries.len() <= config.max_files_in_zip,
        forall|k: int|
            0 <= k < entries.len() ==> is_sound(#[trigger] entries[k], config, refuse_blank),
    ensures
        unpack(entries, config, refuse_blank) matches Ok(texts) && texts.len() == entries.len()
            && forall|k: int|
            0 <= k < texts.len() ==> #[trigger] texts[k] == entries[k].text->Ok_0,
{
    lemma_sound_entries_from(entries, 0, config, refuse_blank);
}

/// An archive with an entry whose name holds `..` or begins with a path
/// separator is never unpacked, whatever else it holds.
pub proof fn lemma_unsafe_name_fails(
    entries: Seq<EntryModel>,
    bad: int,
    config: ConfigView,
    refuse_blank: bool,
)
    requires
        0 <= bad < entries.len(),
        entries[bad].header matches Ok(header) && is_unsafe_name(encode_utf8(header.name)),
    ensures
        unpack(entries, config, refuse_blank) is Err,
{
    lemma_failure_from(entries, 0, bad, config, refuse_blank);
}

/// An archive with an entry that claims to unpack to more than the allowed
/// multiple of its stored size is never unpacked, whatever else it holds.
pub proof fn lemma_excessive_ratio_fails(
    entries: Seq<EntryModel>,
    bad: int,
    config: ConfigView,
    refuse_blank: bool,
)
    requires
        0 <= bad < entries.len(),
        entries[bad].header matches Ok(header) && exceeds_ratio(
            header,
            config.max_compression_ratio,
        ),
    ensures
        unpack(entries, config, refuse_blank) is Err,
{
    lemma_failure_from(entries, 0, bad, config, refuse_blank);
}

/// Where the entries before it are sound and its own name is safe and not
/// too long, an entry with an excessive ratio ends the extraction with the
/// ratio error, and it does so whatever the entry would unpack to.
pub proof fn lemma_excessive_ratio_is_reported(
    entries: Seq<EntryModel>,
    bad: int,
    config: ConfigView,
    refuse_blank: bool,
)
    requires
        0 <= bad < entries.len() <= config.max_files_in_zip,
        forall|k: int| 0 <= k < bad ==> is_sound(#[trigger] entries[k], config, refuse_blank),
        entries[bad].header matches Ok(header) && !is_unsafe_name(encode_utf8(header.name))
            && encode_utf8(header.name).len() <= config.max_filename_length && exceeds_ratio(
            header,
            config.max_compression_ratio,
        ),
    ensures
        unpack(entries, config, refuse_blank) == Err::<Seq<Seq<char>>, ErrorView>(
            ErrorView::SuspiciousCompressionRatio,
        ),
{
    lemma_first_failure_from(entries, 0, bad, config, refuse_blank);
}

/// A file that extraction takes as an archive: named like one and read as
/// one by the archive reader.
pub open spec fn is_archive(file_name: Seq<char>, data: Seq<u8>) -> bool {
    container_of(file_name) == Some(Container::Zip) && zip_entries(data) is Ok
}

/// Extraction of an archive that is within the raw size limit and the
/// entry limit, and whose entries all open, pass every check and unpack,
/// succeeds with exactly one text per entry, in directory order.
pub proof fn lemma_sound_archive_extracts(
    file_name: Seq<char>,
    data: Seq<u8>,
    config: ConfigView,
)
    requires
        is_archive(file_name, data),
        data.len() <= config.max_file_size,
        zip_entries(data)->Ok_0.len() <= config.max_files_in_zip,
        forall|k: int|
            0 <= k < zip_entries(data)->Ok_0.len() ==> is_sound(
                #[trigger] zip_entries(data)->Ok_0[k],
                config,
                false,
            ),
    ensures
        extract_outcome(file_name, data, config) matches Ok(texts) && texts.len() == zip_entries(
            data,
        )->Ok_0.len() && forall|k: int|
            0 <= k < texts.len() ==> #[trigger] texts[k] == zip_entries(data)->Ok_0[k].text->Ok_0,
{
    lemma_sound_archive_unpacks(zip_entries(data)->Ok_0, config, false);
}

/// Extraction of an archive with an entry whose name holds `..` or begins
/// with a path separator fails, whatever the archive holds.
pub proof fn lemma_unsafe_name_never_extracts(
    file_name: Seq<char>,
    data: Seq<u8>,
    bad: int,
    config: ConfigView,
)
    requires
        is_archive(file_name, data),
        0 <= bad < zip_entries(data)->Ok_0.len(),
        zip_entries(data)->Ok_0[bad].header matches Ok(header) && is_unsafe_name(
            encode_utf8(header.name),
        ),
    ensures
        extract_outcome(file_name, data, config) is Err,
{
    lemma_unsafe_name_fails(zip_entries(data)->Ok_0, bad, config, false);
}

/// Extraction of an archive with an entry of excessive ratio fails,
/// whatever the archive holds.
pub proof fn lemma_excessive_ratio_never_extracts(
    file_name: Seq<char>,
    data: Seq<u8>,
    bad: int,
    config: ConfigView,
)
    requires
        is_archive(file_name, data),
        0 <= bad < zip_entries(data)->Ok_0.len(),
        zip_entries(data)->Ok_0[bad].header matches Ok(header) && exceeds_ratio(
            header,
            config.max_compression_ratio,
        ),
    ensures
        extract_outcome(file_name, data, config) is Err,
{
    lemma_excessive_ratio_fails(zip_entries(data)->Ok_0, bad, config, false);
}

/// A file without extension, or with an extension other than `zip`, `gz`
/// and `xml`, is turned down as unsupported once it is within the raw size
/// limit, and upper-case letters in an extension change nothing.
pub proof fn lemma_unknown_kind_is_unsupported(
    file_name: Seq<char>,
    data: Seq<u8>,
    config: ConfigView,
)
    requires
        data.len() <= config.max_file_size,
        path_extension(file_name) matches Some(ext) ==> kind_of(encode_utf8(ext)) is None,
    ensures
        extract_outcome(file_name, data, config) == Err::<Seq<Seq<char>>, ErrorView>(
            ErrorView::UnsupportedFile("Unsupported file type"@),
        ),
{
}

} // verus!
