//! Extraction: the guard over archives, streams and plain documents, and
//! the plainer file handler.

use std::io::Write;

use dmarcer::archive::ArchiveEntry;
use dmarcer::archive::EntryHeader;
use dmarcer::config::Config;
use dmarcer::config::Ratio;
use dmarcer::config::Settings;
use dmarcer::error::DmarcError;
use dmarcer::file_handlers::FileHandler;
use dmarcer::zip_handler::check_entry;
use dmarcer::zip_handler::classify_container;
use dmarcer::zip_handler::extract_zip;
use dmarcer::zip_handler::unpack_entries;
use dmarcer::zip_handler::Container;

fn test_config() -> Config {
    Config {
        max_file_size: 1024 * 1024,
        webhook_url: None,
        webhook_timeout: 30,
        max_decompressed_size: 1024 * 1024,
        max_files_in_zip: 1000,
        max_compression_ratio: Ratio::whole(1000),
        max_filename_length: 256,
    }
}

fn default_config() -> Config {
    Config::new(&Settings {
        webhook_url: None,
        max_file_size: None,
        webhook_timeout_secs: None,
        webhook_timeout: None,
        max_decompressed_size: None,
        max_files_in_zip: None,
        max_compression_ratio: None,
        max_filename_length: None,
    })
    .unwrap()
}

fn archive_of(entries: &[(&str, &[u8])], deflate: bool) -> Vec<u8> {
    let mut writer = zip::ZipWriter::new(std::io::Cursor::new(Vec::new()));
    let method = if deflate {
        zip::CompressionMethod::Deflated
    } else {
        zip::CompressionMethod::Stored
    };
    let options = zip::write::SimpleFileOptions::default().compression_method(method);
    for (name, content) in entries {
        writer.start_file(*name, options).unwrap();
        writer.write_all(content).unwrap();
    }
    writer.finish().unwrap().into_inner()
}

fn gzip_of(content: &[u8]) -> Vec<u8> {
    let mut encoder = flate2::write::GzEncoder::new(Vec::new(), flate2::Compression::default());
    encoder.write_all(content).unwrap();
    encoder.finish().unwrap()
}

fn header(name: &str, compressed_size: u64, size: u64) -> EntryHeader {
    EntryHeader { name: name.to_string(), compressed_size, size }
}

fn entry(name: &str, text: &str) -> ArchiveEntry {
    ArchiveEntry {
        header: Ok(header(name, text.len() as u64, text.len() as u64)),
        text: Ok(text.to_string()),
    }
}

#[test]
fn test_zip_handling() {
    let data = archive_of(&[("test.xml", b"<feedback></feedback>")], true);
    let handler = FileHandler::new(test_config());
    let result = handler.process_file("test.zip", &data).unwrap();
    assert!(!result.is_empty());
}

#[test]
fn test_gzip_handling() {
    let data = gzip_of(b"<feedback></feedback>");
    let handler = FileHandler::new(test_config());
    let result = handler.process_file("test.xml.gz", &data).unwrap();
    assert!(!result.is_empty());
}

#[test]
fn test_size_limit() {
    let large_content = "A".repeat(1024 * 1024 + 1);
    let handler = FileHandler::new(test_config());
    let result = handler.process_file("test.xml", large_content.as_bytes());
    assert!(matches!(result, Err(DmarcError::FileTooLarge(_))));
}

#[test]
fn test_zip_extraction() {
    let data = archive_of(&[("report.xml", b"<feedback></feedback>")], true);
    let result = extract_zip("test.zip", &data, &default_config());
    assert!(result.is_ok());
}

#[test]
fn one_payload_per_entry_in_order() {
    let data = archive_of(
        &[("a.xml", b"<a/>"), ("dir/b.xml", b"<b/>"), ("c.txt", b"")],
        true,
    );
    let texts = extract_zip("Report.ZIP", &data, &default_config()).unwrap();
    assert_eq!(texts, vec!["<a/>".to_string(), "<b/>".to_string(), String::new()]);
}

#[test]
fn gzip_and_plain_documents() {
    let config = default_config();
    let texts = extract_zip("r.xml.GZ", &gzip_of(b"<feedback/>"), &config).unwrap();
    assert_eq!(texts, vec!["<feedback/>".to_string()]);
    let texts = extract_zip("r.Xml", "<feedback>\u{e9}</feedback>".as_bytes(), &config).unwrap();
    assert_eq!(texts, vec!["<feedback>\u{e9}</feedback>".to_string()]);
    let texts = extract_zip("r.xml", b"", &config).unwrap();
    assert_eq!(texts, vec![String::new()]);
    for name in ["xml", "zip", "GZ", ".xml", "..", ""] {
        match extract_zip(name, b"<feedback/>", &config) {
            Err(DmarcError::UnsupportedFile(m)) => assert_eq!(m, "Unsupported file type"),
            other => panic!("{:?} gave {:?}", name, other),
        }
    }
}

#[test]
fn extraction_errors_by_kind() {
    let mut config = default_config();
    assert!(matches!(
        extract_zip("report.txt", b"x", &config),
        Err(DmarcError::UnsupportedFile(_))
    ));
    assert!(matches!(
        extract_zip("report", b"x", &config),
        Err(DmarcError::UnsupportedFile(_))
    ));
    assert!(matches!(
        extract_zip("report.zip", b"not an archive", &config),
        Err(DmarcError::Zip(_))
    ));
    assert!(matches!(
        extract_zip("report.gz", b"not a stream", &config),
        Err(DmarcError::Io(_))
    ));
    assert!(matches!(
        extract_zip("report.xml", &[0xff, 0xfe, 0x00], &config),
        Err(DmarcError::Io(_))
    ));
    let binary = archive_of(&[("a.bin", &[0xff, 0xfe])], false);
    assert!(matches!(
        extract_zip("report.zip", &binary, &config),
        Err(DmarcError::Io(_))
    ));

    config.max_file_size = 4;
    match extract_zip("report.txt", b"12345", &config) {
        Err(DmarcError::FileTooLarge(m)) => assert_eq!(m, "File too large"),
        other => panic!("{:?}", other),
    }
    assert!(extract_zip("report.xml", b"1234", &config).is_ok());

    let mut config = default_config();
    config.max_decompressed_size = 10;
    match extract_zip("r.gz", &gzip_of(b"12345678901"), &config) {
        Err(DmarcError::FileTooLarge(m)) => assert_eq!(m, "Decompressed size too large"),
        other => panic!("{:?}", other),
    }
    assert!(extract_zip("r.gz", &gzip_of(b"1234567890"), &config).is_ok());
    let stored = archive_of(&[("a.xml", b"12345678901")], false);
    match extract_zip("r.zip", &stored, &config) {
        Err(DmarcError::FileTooLarge(m)) => assert_eq!(m, "Total decompressed size too large"),
        other => panic!("{:?}", other),
    }

    let mut config = default_config();
    config.max_files_in_zip = 1;
    let two = archive_of(&[("a.xml", b"a"), ("b.xml", b"b")], false);
    assert!(matches!(
        extract_zip("r.zip", &two, &config),
        Err(DmarcError::TooManyEntries)
    ));
    config.max_files_in_zip = 2;
    assert_eq!(extract_zip("r.zip", &two, &config).unwrap().len(), 2);

    let mut config = default_config();
    config.max_filename_length = 5;
    let long = archive_of(&[("abcdef", b"a")], false);
    assert!(matches!(
        extract_zip("r.zip", &long, &config),
        Err(DmarcError::FilenameTooLong)
    ));
    let short = archive_of(&[("abcde", b"a")], false);
    assert!(extract_zip("r.zip", &short, &config).is_ok());
}

#[test]
fn container_by_extension() {
    assert_eq!(classify_container("a.zip"), Some(Container::Zip));
    assert_eq!(classify_container("a.tar.GZ"), Some(Container::Gzip));
    assert_eq!(classify_container("a.b.XmL"), Some(Container::Xml));
    assert_eq!(classify_container("REPORT.ZIP"), Some(Container::Zip));
    assert_eq!(classify_container("zip"), None);
    assert_eq!(classify_container("GZ"), None);
    assert_eq!(classify_container(".zip"), None);
    assert_eq!(classify_container(".."), None);
    assert_eq!(classify_container("a..zip"), Some(Container::Zip));
    assert_eq!(classify_container(".a.xml"), Some(Container::Xml));
    assert_eq!(classify_container("a.zip."), None);
    assert_eq!(classify_container("a.zipx"), None);
    assert_eq!(classify_container(""), None);
}

#[test]
fn entry_checks_in_order() {
    let mut config = default_config();
    config.max_compression_ratio = Ratio::whole(10);
    config.max_decompressed_size = 1000;
    config.max_filename_length = 8;
    assert!(check_entry(&header("ok.xml", 100, 1000), &config).is_ok());
    assert!(check_entry(&header("ok.xml", 0, 1000), &config).is_ok());
    assert!(matches!(
        check_entry(&header("ok.xml", 100, 1001), &config),
        Err(DmarcError::SuspiciousCompressionRatio)
    ));
    assert!(matches!(
        check_entry(&header("ok.xml", 0, 1001), &config),
        Err(DmarcError::FileTooLarge(_))
    ));
    assert!(matches!(
        check_entry(&header("ok.xml", 1000, 1001), &config),
        Err(DmarcError::FileTooLarge(_))
    ));
    assert!(matches!(
        check_entry(&header("toolong.xml", 1, 100), &config),
        Err(DmarcError::FilenameTooLong)
    ));
    assert!(matches!(
        check_entry(&header("../toolong.xml", 1, 100), &config),
        Err(DmarcError::PathTraversal(_))
    ));
    assert!(matches!(
        check_entry(&header("ok.xml", 1, u64::MAX), &config),
        Err(DmarcError::SuspiciousCompressionRatio)
    ));
    config.max_compression_ratio = Ratio::whole(u64::MAX);
    assert!(matches!(
        check_entry(&header("ok.xml", u64::MAX, u64::MAX), &config),
        Err(DmarcError::FileTooLarge(_))
    ));
    config.max_compression_ratio = Ratio { numerator: 5, denominator: 2 };
    assert!(check_entry(&header("ok.xml", 10, 25), &config).is_ok());
    assert!(matches!(
        check_entry(&header("ok.xml", 10, 26), &config),
        Err(DmarcError::SuspiciousCompressionRatio)
    ));
    config.max_compression_ratio = Ratio { numerator: 1, denominator: 0 };
    assert!(check_entry(&header("ok.xml", 1, 1000), &config).is_ok());
    config.max_compression_ratio = Ratio { numerator: u64::MAX, denominator: u64::MAX };
    assert!(matches!(
        check_entry(&header("ok.xml", 1, 2), &config),
        Err(DmarcError::SuspiciousCompressionRatio)
    ));
    assert!(check_entry(&header("ok.xml", 1, 1), &config).is_ok());
}

#[test]
fn entries_given_as_values() {
    let config = default_config();
    let texts = unpack_entries(vec![entry("a", "x"), entry("b", "y")], &config, false).unwrap();
    assert_eq!(texts, vec!["x".to_string(), "y".to_string()]);
    assert_eq!(unpack_entries(Vec::new(), &config, true).unwrap(), Vec::<String>::new());

    let failing = vec![
        entry("a", "x"),
        ArchiveEntry {
            header: Err(zip::result::ZipError::FileNotFound),
            text: Ok("never".to_string()),
        },
    ];
    assert!(matches!(unpack_entries(failing, &config, false), Err(DmarcError::Zip(_))));

    let unreadable = vec![ArchiveEntry {
        header: Ok(header("a", 1, 1)),
        text: Err(std::io::Error::new(std::io::ErrorKind::InvalidData, "bad")),
    }];
    assert!(matches!(unpack_entries(unreadable, &config, true), Err(DmarcError::Io(_))));

    let unsafe_last = vec![entry("a", "x"), entry("/b", "y")];
    assert!(matches!(
        unpack_entries(unsafe_last, &config, false),
        Err(DmarcError::PathTraversal(_))
    ));
    let blank_last = vec![entry("a", "x"), entry("b", " \n")];
    match unpack_entries(blank_last, &config, true) {
        Err(DmarcError::EmptyContent(m)) => assert_eq!(m, "Empty file"),
        other => panic!("{:?}", other),
    }
    let blank_last = vec![entry("a", "x"), entry("b", " \n")];
    assert_eq!(
        unpack_entries(blank_last, &config, false).unwrap(),
        vec!["x".to_string(), " \n".to_string()]
    );
}

#[test]
fn handler_refuses_blank_and_unknown() {
    let handler = FileHandler::new(test_config());
    match handler.process_file("a.xml", b"  \n\t ") {
        Err(DmarcError::EmptyContent(m)) => assert_eq!(m, "Empty XML file"),
        other => panic!("{:?}", other),
    }
    match handler.process_file("a.gz", &gzip_of(b" ")) {
        Err(DmarcError::EmptyContent(m)) => assert_eq!(m, "Empty GZ file"),
        other => panic!("{:?}", other),
    }
    match handler.process_file("a.zip", &archive_of(&[("a.xml", b" ")], false)) {
        Err(DmarcError::EmptyContent(m)) => assert_eq!(m, "Empty file"),
        other => panic!("{:?}", other),
    }
    match handler.process_file("a.zip", &archive_of(&[], false)) {
        Err(DmarcError::Parse(m)) => assert_eq!(m, "No valid files found in ZIP"),
        other => panic!("{:?}", other),
    }
    match handler.process_file("a.TXT", b"x") {
        Err(DmarcError::UnsupportedFile(m)) => assert_eq!(m, "Unsupported file extension: txt"),
        other => panic!("{:?}", other),
    }
    match handler.process_file("zip", b"x") {
        Err(DmarcError::UnsupportedFile(m)) => assert_eq!(m, "No file extension"),
        other => panic!("{:?}", other),
    }
    match handler.process_file(".zip", b"x") {
        Err(DmarcError::UnsupportedFile(m)) => assert_eq!(m, "No file extension"),
        other => panic!("{:?}", other),
    }
    match handler.process_file("a.xml", "A".repeat(1024 * 1024 + 1).as_bytes()) {
        Err(DmarcError::FileTooLarge(m)) => {
            assert_eq!(m, "File size 1048577 bytes exceeds limit of 1048576 bytes")
        }
        other => panic!("{:?}", other),
    }
}

#[test]
fn handler_size_messages() {
    let mut config = test_config();
    config.max_decompressed_size = 64;
    let handler = FileHandler::new(config);
    let stream = gzip_of("B".repeat(65).as_bytes());
    match handler.process_file("a.gz", &stream) {
        Err(DmarcError::FileTooLarge(m)) => {
            assert_eq!(m, "Decompressed GZ size 65 bytes exceeds limit")
        }
        other => panic!("{:?}", other),
    }
    let stream = gzip_of("B".repeat(64).as_bytes());
    assert_eq!(handler.process_file("a.gz", &stream).unwrap(), vec!["B".repeat(64)]);

    let mut config = test_config();
    config.max_file_size = 16;
    config.max_decompressed_size = 4096;
    let handler = FileHandler::new(config);
    let stream = gzip_of(&[b'C'; 4000]);
    assert!(stream.len() > 16);
    assert!(matches!(
        handler.process_file("a.gz", &stream),
        Err(DmarcError::FileTooLarge(_))
    ));
    let text = "D".repeat(17);
    assert!(matches!(
        handler.process_file("a.xml", text.as_bytes()),
        Err(DmarcError::FileTooLarge(_))
    ));

    let mut config = test_config();
    config.max_decompressed_size = 300;
    let handler = FileHandler::new(config);
    let archive = archive_of(&[("big.xml", "C".repeat(301).as_bytes())], false);
    match handler.process_file("a.zip", &archive) {
        Err(DmarcError::FileTooLarge(m)) => assert_eq!(m, "Total decompressed size too large"),
        other => panic!("{:?}", other),
    }
    let texts = handler
        .process_file("a.zip", &archive_of(&[("x", b"1"), ("y", b"2")], false))
        .unwrap();
    assert_eq!(texts, vec!["1".to_string(), "2".to_string()]);
}

#[test]
fn handler_keeps_the_guard() {
    let handler = FileHandler::new(test_config());
    for name in ["../x", "/x", "\\x", "a/../b"] {
        let archive = archive_of(&[("ok.xml", b"<a/>"), (name, b"<b/>")], false);
        match handler.process_file("a.zip", &archive) {
            Err(DmarcError::PathTraversal(found)) => assert_eq!(found, name),
            other => panic!("{} gave {:?}", name, other),
        }
        assert!(matches!(
            handler.handle_zip(&archive),
            Err(DmarcError::PathTraversal(_))
        ));
    }
    let mut config = test_config();
    config.max_files_in_zip = 1;
    config.max_filename_length = 5;
    config.max_compression_ratio = Ratio::whole(10);
    let handler = FileHandler::new(config);
    let two = archive_of(&[("a", b"1"), ("b", b"2")], false);
    assert!(matches!(handler.handle_zip(&two), Err(DmarcError::TooManyEntries)));
    let long = archive_of(&[("abcdef", b"1")], false);
    assert!(matches!(handler.handle_zip(&long), Err(DmarcError::FilenameTooLong)));
    let dense = archive_of(&[("a", &[b'z'; 100_000])], true);
    assert!(matches!(
        handler.handle_zip(&dense),
        Err(DmarcError::SuspiciousCompressionRatio)
    ));
}

#[test]
fn error_messages() {
    assert_eq!(
        DmarcError::FileTooLarge("File too large".to_string()).to_string(),
        "File too large: File too large"
    );
    assert_eq!(
        DmarcError::PathTraversal("../x".to_string()).to_string(),
        "Path traversal attempt detected: ../x"
    );
    assert_eq!(DmarcError::TooManyEntries.to_string(), "Too many files in archive");
    assert_eq!(DmarcError::FilenameTooLong.to_string(), "Filename too long");
    assert_eq!(
        DmarcError::SuspiciousCompressionRatio.to_string(),
        "Suspicious compression ratio"
    );
    assert_eq!(DmarcError::RecursiveEntities.to_string(), "Recursive entities detected");
    assert_eq!(
        DmarcError::DepthLimitExceeded.to_string(),
        "XML recursion depth limit exceeded"
    );
    assert_eq!(
        DmarcError::EmptyContent("Empty file".to_string()).to_string(),
        "Empty content: Empty file"
    );
    assert_eq!(DmarcError::Format("x".to_string()).to_string(), "Invalid format: x");
    assert_eq!(
        DmarcError::UnsupportedFile("x".to_string()).to_string(),
        "Unsupported file type: x"
    );
    assert_eq!(DmarcError::Geolocation("x".to_string()).to_string(), "Geolocation error: x");
    assert_eq!(DmarcError::Parse("x".to_string()).to_string(), "Parse error: x");
    let io = DmarcError::Io(std::io::Error::new(std::io::ErrorKind::Other, "boom"));
    assert_eq!(io.to_string(), "I/O error: boom");
    assert!(DmarcError::Zip(zip::result::ZipError::FileNotFound)
        .to_string()
        .starts_with("ZIP error: "));
    let xml = DmarcError::Xml(quick_xml::Error::Syntax(
        quick_xml::errors::SyntaxError::UnclosedTag,
    ));
    assert!(xml.to_string().starts_with("XML error: "));
}
