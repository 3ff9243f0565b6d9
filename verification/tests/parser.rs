//! The report parser on whole documents and on hand-written tokens.

use dmarcer::error::DmarcError;
use dmarcer::models::AlignmentMode;
use dmarcer::models::DkimVerdict;
use dmarcer::models::PolicyType;
use dmarcer::models::SpfVerdict;
use dmarcer::tokenizer::ElementText;
use dmarcer::tokenizer::XmlToken;
use dmarcer::xml_parser::parse_dmarc_xml;
use dmarcer::xml_parser::parse_dmarc_xml_within;
use dmarcer::xml_parser::scan_tokens;
use dmarcer::xml_parser::MAX_DEPTH;

const MINIMAL: &str = "<feedback><record><source_ip>1.2.3.4</source_ip><count>1</count>\
<header_from>example.com</header_from></record></feedback>";

const FULL: &str = r#"<?xml version="1.0" encoding="UTF-8"?>
<feedback>
  <report_metadata>
    <org_name>example.org</org_name>
    <date_range><begin>1700000000</begin><end>1700086400</end></date_range>
  </report_metadata>
  <policy_published>
    <domain> example.com </domain>
    <adkim>s</adkim>
    <aspf>R</aspf>
    <p>Quarantine</p>
    <sp>none</sp>
    <pct>75</pct>
  </policy_published>
  <record>
    <row>
      <source_ip> 192.0.2.1 </source_ip>
      <count> 12 </count>
      <policy_evaluated><disposition>none</disposition><dkim>pass</dkim><spf>fail</spf></policy_evaluated>
    </row>
    <identifiers><header_from>example.com</header_from></identifiers>
    <auth_results>
      <dkim><domain>example.com</domain><selector>s1</selector><result>PASS</result></dkim>
      <dkim><domain>other.example</domain><selector>s2</selector><result>bogus</result></dkim>
      <spf><domain>example.com</domain><scope>mfrom</scope><result>fail</result></spf>
    </auth_results>
  </record>
  <record>
    <row><source_ip>198.51.100.7</source_ip><count>many</count></row>
    <identifiers><header_from>example.net</header_from></identifiers>
    <auth_results>
      <spf><domain>example.net</domain><result>neutral</result></spf>
    </auth_results>
  </record>
</feedback>
"#;

fn start(name: &str) -> XmlToken {
    XmlToken::Start {
        name: name.as_bytes().to_vec(),
        inner: ElementText::Text { content: String::new(), skip: 1 },
    }
}

fn leaf(name: &str, text: &str) -> Vec<XmlToken> {
    vec![
        XmlToken::Start {
            name: name.as_bytes().to_vec(),
            inner: ElementText::Text { content: text.to_string(), skip: 2 },
        },
        XmlToken::Other,
        XmlToken::End { name: name.as_bytes().to_vec() },
    ]
}

fn end(name: &str) -> XmlToken {
    XmlToken::End { name: name.as_bytes().to_vec() }
}

#[test]
fn test_xml_parsing() {
    let xml_data = r#"
        <feedback>
            <record>
                <source_ip>1.2.3.4</source_ip>
                <count>1</count>
                <header_from>example.com</header_from>
            </record>
        </feedback>
        "#;
    let result = parse_dmarc_xml(xml_data);
    assert!(result.is_ok());
}

#[test]
fn minimal_document_round_trip() {
    let (records, policy) = parse_dmarc_xml(MINIMAL).unwrap();
    assert_eq!(records.len(), 1);
    let r = &records[0];
    assert_eq!(r.source_ip, "1.2.3.4");
    assert_eq!(r.count, 1);
    assert_eq!(r.header_from, "example.com");
    assert_eq!(r.envelope_from, None);
    assert!(r.dkim.is_empty());
    assert_eq!(r.spf.domain, "");
    assert_eq!(r.spf.scope, "");
    assert_eq!(r.spf.result, SpfVerdict::Absent);
    assert_eq!(r.date_range.begin, 0);
    assert_eq!(r.date_range.end, 0);
    assert_eq!(r.policy_evaluated.disposition, "");
    assert_eq!(r.policy_evaluated.dkim, DkimVerdict::Absent);
    assert_eq!(r.policy_evaluated.spf, SpfVerdict::Absent);
    assert_eq!(policy.domain, "");
    assert_eq!(policy.adkim, AlignmentMode::Relaxed);
    assert_eq!(policy.aspf, AlignmentMode::Relaxed);
    assert_eq!(policy.policy, PolicyType::Monitor);
    assert_eq!(policy.pct, 100);
}

#[test]
fn full_document_fields() {
    let (records, policy) = parse_dmarc_xml(FULL).unwrap();
    assert_eq!(policy.domain, "example.com");
    assert_eq!(policy.adkim, AlignmentMode::Strict);
    assert_eq!(policy.aspf, AlignmentMode::Relaxed);
    assert_eq!(policy.policy, PolicyType::Quarantine);
    assert_eq!(policy.pct, 75);
    assert_eq!(records.len(), 2);
    let a = &records[0];
    assert_eq!(a.source_ip, "192.0.2.1");
    assert_eq!(a.count, 12);
    assert_eq!(a.header_from, "example.com");
    assert_eq!(a.dkim.len(), 2);
    assert_eq!(a.dkim[0].domain, "example.com");
    assert_eq!(a.dkim[0].selector, "s1");
    assert_eq!(a.dkim[0].result, DkimVerdict::Pass);
    assert_eq!(a.dkim[1].domain, "other.example");
    assert_eq!(a.dkim[1].result, DkimVerdict::Absent);
    assert_eq!(a.spf.domain, "example.com");
    assert_eq!(a.spf.scope, "mfrom");
    assert_eq!(a.spf.result, SpfVerdict::Fail);
    let b = &records[1];
    assert_eq!(b.source_ip, "198.51.100.7");
    assert_eq!(b.count, 0);
    assert_eq!(b.header_from, "example.net");
    assert!(b.dkim.is_empty());
    assert_eq!(b.spf.domain, "example.net");
    assert_eq!(b.spf.scope, "");
    assert_eq!(b.spf.result, SpfVerdict::Neutral);
}

#[test]
fn parsing_twice_gives_equal_results() {
    let (first, first_policy) = parse_dmarc_xml(FULL).unwrap();
    let (second, second_policy) = parse_dmarc_xml(FULL).unwrap();
    assert_eq!(format!("{:?}", first), format!("{:?}", second));
    assert_eq!(format!("{:?}", first_policy), format!("{:?}", second_policy));
}

#[test]
fn many_records_stay_within_the_ceiling() {
    let mut xml = String::from("<feedback>");
    for i in 0..300 {
        xml.push_str(&format!(
            "<record><row><source_ip>10.0.0.{}</source_ip><count>{}</count></row>\
             <identifiers><header_from>example.com</header_from></identifiers>\
             <auth_results><spf><domain>example.com</domain><result>pass</result></spf>\
             </auth_results></record>",
            i % 250,
            i
        ));
    }
    xml.push_str("</feedback>");
    let (records, _) = parse_dmarc_xml(&xml).unwrap();
    assert_eq!(records.len(), 300);
    assert_eq!(records[299].count, 299);
    assert_eq!(records[299].spf.result, SpfVerdict::Pass);
}

#[test]
fn nesting_beyond_the_ceiling_is_refused() {
    let mut xml = String::new();
    for _ in 0..101 {
        xml.push_str("<a>");
    }
    assert!(matches!(
        parse_dmarc_xml(&xml),
        Err(DmarcError::DepthLimitExceeded)
    ));
    let mut fine = String::new();
    for _ in 0..100 {
        fine.push_str("<a>");
    }
    for _ in 0..100 {
        fine.push_str("</a>");
    }
    assert!(parse_dmarc_xml(&fine).is_ok());
    assert_eq!(MAX_DEPTH, 100);
}

#[test]
fn ceiling_is_the_callers_choice() {
    assert!(matches!(
        parse_dmarc_xml_within("<a><b><c></c></b></a>", 2),
        Err(DmarcError::DepthLimitExceeded)
    ));
    assert!(parse_dmarc_xml_within("<a><b><c></c></b></a>", 3).is_ok());
    assert!(matches!(
        parse_dmarc_xml_within("<a></a>", 0),
        Err(DmarcError::DepthLimitExceeded)
    ));
    assert!(parse_dmarc_xml_within("no markup at all", 0).is_ok());
}

#[test]
fn deep_nesting_is_refused_whatever_follows() {
    let mut xml = String::new();
    for _ in 0..101 {
        xml.push_str("<a>");
    }
    xml.push_str("<unclosed");
    assert!(matches!(
        parse_dmarc_xml(&xml),
        Err(DmarcError::DepthLimitExceeded)
    ));
}

#[test]
fn truncated_input_keeps_closed_records() {
    let xml = "<feedback><record><source_ip>1.1.1.1</source_ip></record>\
               <record><count>5</count>";
    let (records, _) = parse_dmarc_xml(xml).unwrap();
    assert_eq!(records.len(), 1);
    assert_eq!(records[0].source_ip, "1.1.1.1");
}

#[test]
fn truncated_policy_is_kept() {
    let xml = "<feedback><policy_published><domain>example.com</domain><p>reject</p>";
    let (records, policy) = parse_dmarc_xml(xml).unwrap();
    assert!(records.is_empty());
    assert_eq!(policy.domain, "example.com");
    assert_eq!(policy.policy, PolicyType::Reject);
}

#[test]
fn tokenizer_faults_are_surfaced() {
    assert!(matches!(
        parse_dmarc_xml("<feedback><record></feedback>"),
        Err(DmarcError::Xml(_))
    ));
    assert!(matches!(
        parse_dmarc_xml("<feedback><record><source_ip>1.2.3.4"),
        Err(DmarcError::Xml(_))
    ));
    assert!(matches!(parse_dmarc_xml("</feedback>"), Err(DmarcError::Xml(_))));
    assert!(matches!(parse_dmarc_xml("<feedback"), Err(DmarcError::Xml(_))));
}

#[test]
fn leaves_outside_a_record_are_ignored() {
    let xml = "<feedback><source_ip>9.9.9.9</source_ip><count>3</count>\
               <auth_results><dkim><domain>x</domain></dkim></auth_results></feedback>";
    let (records, policy) = parse_dmarc_xml(xml).unwrap();
    assert!(records.is_empty());
    assert_eq!(policy.pct, 100);
}

#[test]
fn dkim_outside_auth_results_is_ignored() {
    let xml = "<feedback><record><dkim><domain>x.example</domain><result>pass</result></dkim>\
               <source_ip>1.1.1.1</source_ip></record></feedback>";
    let (records, _) = parse_dmarc_xml(xml).unwrap();
    assert_eq!(records.len(), 1);
    assert!(records[0].dkim.is_empty());
    assert_eq!(records[0].source_ip, "1.1.1.1");
}

#[test]
fn last_spf_wins() {
    let xml = "<feedback><record><auth_results>\
               <spf><domain>a.example</domain><result>pass</result></spf>\
               <spf><domain>b.example</domain><result>fail</result></spf>\
               </auth_results></record></feedback>";
    let (records, _) = parse_dmarc_xml(xml).unwrap();
    assert_eq!(records[0].spf.domain, "b.example");
    assert_eq!(records[0].spf.result, SpfVerdict::Fail);
}

#[test]
fn policy_defaults_on_unreadable_values() {
    let xml = "<feedback><policy_published><adkim>weird</adkim><aspf>Strict</aspf>\
               <p>delete</p><pct>300</pct></policy_published></feedback>";
    let (_, policy) = parse_dmarc_xml(xml).unwrap();
    assert_eq!(policy.adkim, AlignmentMode::Relaxed);
    assert_eq!(policy.aspf, AlignmentMode::Strict);
    assert_eq!(policy.policy, PolicyType::Monitor);
    assert_eq!(policy.pct, 100);
}

#[test]
fn percentage_stays_within_its_range() {
    for (written, expected) in [("0", 0), ("1", 1), ("100", 100), ("101", 100), ("150", 100), ("255", 100), ("+50", 50), (" 7 ", 7), ("-1", 100), ("", 100)] {
        let xml = format!(
            "<feedback><policy_published><pct>{}</pct></policy_published></feedback>",
            written
        );
        let (_, policy) = parse_dmarc_xml(&xml).unwrap();
        assert_eq!(policy.pct, expected, "{:?}", written);
    }
}

#[test]
fn element_text_is_raw_and_trimmed() {
    let xml = "<feedback><record><source_ip>\n\t 1.2.3.4 &amp; <!-- c --> \u{a0}</source_ip>\
               </record></feedback>";
    let (records, _) = parse_dmarc_xml(xml).unwrap();
    assert_eq!(records[0].source_ip, "1.2.3.4 &amp; <!-- c -->");
}

#[test]
fn one_entity_declaration_is_stripped() {
    let with = "<!DOCTYPE f [ <!ENTITY a \"b\"> ]><feedback><record><count>7</count></record></feedback>";
    let without = "<feedback><record><count>7</count></record></feedback>";
    let (first, first_policy) = parse_dmarc_xml(with).unwrap();
    let (second, second_policy) = parse_dmarc_xml(without).unwrap();
    assert_eq!(format!("{:?}", first), format!("{:?}", second));
    assert_eq!(format!("{:?}", first_policy), format!("{:?}", second_policy));
    assert_eq!(first[0].count, 7);
}

#[test]
fn doctype_without_subset_is_left_to_the_tokenizer() {
    let xml = "<!DOCTYPE feedback><feedback><record><count>2</count></record></feedback>";
    let (records, _) = parse_dmarc_xml(xml).unwrap();
    assert_eq!(records[0].count, 2);
}

#[test]
fn tokens_minimal_record() {
    let mut tokens = vec![start("feedback"), start("record")];
    tokens.extend(leaf("source_ip", " 1.2.3.4 "));
    tokens.extend(leaf("count", "1"));
    tokens.extend(leaf("header_from", "example.com"));
    tokens.push(end("record"));
    tokens.push(end("feedback"));
    tokens.push(XmlToken::Eof);
    let (records, policy) = scan_tokens(tokens, 100).unwrap();
    assert_eq!(records.len(), 1);
    assert_eq!(records[0].source_ip, "1.2.3.4");
    assert_eq!(records[0].count, 1);
    assert_eq!(records[0].header_from, "example.com");
    assert_eq!(policy.pct, 100);
}

#[test]
fn tokens_text_read_jumps_over_what_it_used() {
    let tokens = vec![
        start("record"),
        XmlToken::Start {
            name: b"source_ip".to_vec(),
            inner: ElementText::Text { content: "5.6.7.8".to_string(), skip: 3 },
        },
        start("record"),
        end("record"),
        end("source_ip"),
        end("record"),
    ];
    let (records, _) = scan_tokens(tokens, 100).unwrap();
    assert_eq!(records.len(), 1);
    assert_eq!(records[0].source_ip, "5.6.7.8");
}

#[test]
fn tokens_fault_and_depth() {
    let fault = quick_xml::Error::Syntax(quick_xml::errors::SyntaxError::UnclosedTag);
    let tokens = vec![start("feedback"), XmlToken::Fault { error: fault }, start("record")];
    assert!(matches!(scan_tokens(tokens, 100), Err(DmarcError::Xml(_))));

    let tokens = vec![start("a"), start("b"), start("c")];
    assert!(matches!(
        scan_tokens(tokens, 2),
        Err(DmarcError::DepthLimitExceeded)
    ));

    let text_fault = quick_xml::Error::Syntax(quick_xml::errors::SyntaxError::UnclosedTag);
    let tokens = vec![
        start("record"),
        XmlToken::Start {
            name: b"count".to_vec(),
            inner: ElementText::Fault { error: text_fault },
        },
    ];
    assert!(matches!(scan_tokens(tokens, 100), Err(DmarcError::Xml(_))));
}

#[test]
fn tokens_depth_counts_every_tag() {
    let mut tokens = Vec::new();
    for _ in 0..50 {
        tokens.push(start("record"));
        tokens.extend(leaf("source_ip", "1.1.1.1"));
        tokens.extend(leaf("count", "2"));
        tokens.push(end("record"));
    }
    let (records, _) = scan_tokens(tokens, 2).unwrap();
    assert_eq!(records.len(), 50);
}

#[test]
fn tokens_eof_ends_the_scan() {
    let mut tokens = vec![start("record"), end("record"), XmlToken::Eof, start("record"), end("record")];
    tokens.push(XmlToken::Eof);
    let (records, _) = scan_tokens(tokens, 100).unwrap();
    assert_eq!(records.len(), 1);
}
