//! Safe ingestion of DMARC aggregate reports.
//!
//! The crate unpacks a report container (plain XML, gzip stream or zip
//! archive) under explicit size, count, ratio and path limits, and scans the
//! XML payload for the published policy and the per-source records.
//!
//! The crate's own logic is verified with Verus. The XML tokenizer and the
//! unpackers are outside crates; `tokenizer` and `archive` hold the calls
//! into them and state what is taken on trust.

pub mod error;
pub mod text;
pub mod models;
pub mod config;
pub mod doctype;
pub mod tokenizer;
pub mod archive;
pub mod zip_handler;
pub mod file_handlers;
pub mod geo;
pub mod report;
pub mod webhook;
pub mod scanner;
pub mod xml_parser;

pub use config::Config;
pub use xml_parser::parse_dmarc_xml;
pub use zip_handler::extract_zip;
