//! Hostile inputs: archive bombs, traversal names, external entities and
//! entity expansion.

use std::io::Write;
use std::time::Instant;

use dmarcer::config::Config;
use dmarcer::config::Ratio;
use dmarcer::config::Settings;
use dmarcer::error::DmarcError;
use dmarcer::xml_parser::parse_dmarc_xml;
use dmarcer::zip_handler::extract_zip;

const MAX_PROCESSING_TIME_MS: u128 = 2000;
const TEST_BOMB_SIZE: usize = 2 * 1024 * 1024;

fn no_settings() -> Settings {
    Settings {
        webhook_url: None,
        max_file_size: None,
        webhook_timeout_secs: None,
        webhook_timeout: None,
        max_decompressed_size: None,
        max_files_in_zip: None,
        max_compression_ratio: None,
        max_filename_length: None,
    }
}

fn archive_of(name: &str, content: &[u8], deflate: bool) -> Vec<u8> {
    let mut writer = zip::ZipWriter::new(std::io::Cursor::new(Vec::new()));
    let method = if deflate {
        zip::CompressionMethod::Deflated
    } else {
        zip::CompressionMethod::Stored
    };
    let options = zip::write::SimpleFileOptions::default().compression_method(method);
    writer.start_file(name, options).unwrap();
    writer.write_all(content).unwrap();
    writer.finish().unwrap().into_inner()
}

#[test]
fn test_zip_bomb_protection() {
    let large_chunk = "A".repeat(TEST_BOMB_SIZE);
    let data = archive_of("large.xml", large_chunk.as_bytes(), true);
    let mut config = Config::new(&no_settings()).unwrap();
    config.max_decompressed_size = 1 * 1024 * 1024;
    let start = Instant::now();
    let result = extract_zip("zipbomb.zip", &data, &config);
    let duration = start.elapsed();
    assert!(
        duration.as_millis() < MAX_PROCESSING_TIME_MS,
        "ZIP bomb processing too slow: {:?}",
        duration
    );
    match result {
        Ok(files) => assert!(files.is_empty(), "ZIP bomb should be blocked"),
        Err(e) => assert!(
            e.to_string().contains("too large")
                || e.to_string().contains("Suspicious compression ratio"),
            "Unexpected error: {}",
            e.to_string()
        ),
    }
}

#[test]
fn test_xxe_protection() {
    let xml = r#"
        <?xml version="1.0" encoding="UTF-8"?>
        <!DOCTYPE foo [
            <!ENTITY xxe SYSTEM "file:///etc/passwd">
        ]>
        <feedback>
            <record>
                <source_ip>1.2.3.4</source_ip>
                <count>1</count>
                <header_from>example.com</header_from>
            </record>
        </feedback>
        "#;
    let result = parse_dmarc_xml(xml);
    assert!(result.is_ok(), "Parser should handle malicious XML safely");
    let (records, _) = result.unwrap();
    for record in records {
        assert!(
            !record.source_ip.contains("/etc/passwd"),
            "XXE allowed system file read"
        );
    }
}

#[test]
fn test_directory_traversal_protection() {
    let data = archive_of("../../../etc/passwd", b"fake passwd file", false);
    let config = Config::new(&no_settings()).unwrap();
    let result = extract_zip("traversal.zip", &data, &config);
    assert!(result.is_err(), "Should block directory traversal attempt");
}

#[test]
fn test_billion_laughs_protection() {
    let xml = r#"
        <?xml version="1.0"?>
        <!DOCTYPE lolz [
            <!ENTITY lol "lol">
            <!ENTITY lol2 "&lol;&lol;">
            <!ENTITY lol3 "&lol2;&lol2;">
            <!ENTITY lol4 "&lol3;&lol3;">
            <!ENTITY lol5 "&lol4;&lol4;">
            <!ENTITY lol6 "&lol5;&lol5;">
            <!ENTITY lol7 "&lol6;&lol6;">
            <!ENTITY lol8 "&lol7;&lol7;">
            <!ENTITY lol9 "&lol8;&lol8;">
        ]>
        <feedback>
            <record>
                <source_ip>1.2.3.4</source_ip>
                <count>1</count>
                <header_from>example.com</header_from>
            </record>
        </feedback>
        "#;
    let start = Instant::now();
    let result = parse_dmarc_xml(xml);
    let duration = start.elapsed();
    assert!(
        duration.as_millis() < MAX_PROCESSING_TIME_MS,
        "XML Billion Laughs was not blocked in time"
    );
    assert!(result.is_err(), "Parser should reject recursive entities");
}

#[test]
fn billion_laughs_is_refused_as_recursive_entities() {
    let xml = "<!DOCTYPE l [<!ENTITY a \"a\"><!ENTITY b \"&a;&a;\">]><feedback></feedback>";
    assert!(matches!(
        parse_dmarc_xml(xml),
        Err(DmarcError::RecursiveEntities)
    ));
}

#[test]
fn xxe_reference_is_never_resolved() {
    let xml = "<!DOCTYPE foo [<!ENTITY xxe SYSTEM \"file:///etc/passwd\">]>\
               <feedback><record><source_ip>&xxe;</source_ip><count>1</count>\
               <header_from>example.com</header_from></record></feedback>";
    match parse_dmarc_xml(xml) {
        Ok((records, _)) => {
            assert_eq!(records.len(), 1);
            assert_eq!(records[0].source_ip, "&xxe;");
            assert!(!records[0].source_ip.contains("root:"));
        }
        Err(_) => {}
    }
}

#[test]
fn traversal_names_are_refused_with_their_name() {
    let config = Config::new(&no_settings()).unwrap();
    for name in ["../x.xml", "a/../b.xml", "/etc/passwd", "\\windows\\x.xml", "a..b.xml"] {
        let data = archive_of(name, b"<feedback></feedback>", false);
        match extract_zip("t.zip", &data, &config) {
            Err(DmarcError::PathTraversal(found)) => assert_eq!(found, name),
            other => panic!("{} gave {:?}", name, other),
        }
    }
}

#[test]
fn ratio_is_judged_before_the_entry_is_unpacked() {
    let content = vec![0u8; 4 * 1024 * 1024];
    let data = archive_of("zeros.xml", &content, true);
    let mut config = Config::new(&no_settings()).unwrap();
    config.max_compression_ratio = Ratio::whole(10);
    let start = Instant::now();
    let result = extract_zip("bomb.zip", &data, &config);
    assert!(start.elapsed().as_millis() < MAX_PROCESSING_TIME_MS);
    assert!(matches!(
        result,
        Err(DmarcError::SuspiciousCompressionRatio)
    ));
}
