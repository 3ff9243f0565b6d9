//! Output wording and webhook retry decisions.

use dmarcer::models::DkimResult;
use dmarcer::models::DkimVerdict;
use dmarcer::models::SpfResult;
use dmarcer::models::SpfVerdict;
use dmarcer::report::format_dkim;
use dmarcer::report::format_dkim_list;
use dmarcer::report::format_spf;
use dmarcer::report::OutputFormat;
use dmarcer::webhook::backoff_secs;
use dmarcer::webhook::Action;
use dmarcer::webhook::Delivery;
use dmarcer::webhook::Response;

fn dkim(domain: &str, selector: &str, result: DkimVerdict) -> DkimResult {
    DkimResult { domain: domain.to_string(), selector: selector.to_string(), result }
}

#[test]
fn test_output_format_parsing() {
    assert!(matches!(OutputFormat::from_str("table"), Ok(OutputFormat::Table)));
    assert!(matches!(OutputFormat::from_str("csv"), Ok(OutputFormat::Csv)));
    assert!(matches!(OutputFormat::from_str("json"), Ok(OutputFormat::Json)));
    assert!(OutputFormat::from_str("invalid").is_err());
}

#[test]
fn output_format_words() {
    assert_eq!(OutputFormat::from_str("JSON"), Ok(OutputFormat::Json));
    assert_eq!(OutputFormat::from_str("Csv"), Ok(OutputFormat::Csv));
    assert_eq!(
        OutputFormat::from_str("yaml"),
        Err("Invalid output format: yaml".to_string())
    );
}

#[test]
fn result_lines() {
    assert_eq!(format_dkim(&dkim("", "s", DkimVerdict::Pass)), "No signature");
    assert_eq!(format_dkim(&dkim("  ", "s", DkimVerdict::Pass)), "No signature");
    assert_eq!(format_dkim(&dkim("a.example", " ", DkimVerdict::Fail)), "a.example:fail");
    assert_eq!(
        format_dkim(&dkim("a.example", "s1", DkimVerdict::Absent)),
        "a.example (selector: s1): none"
    );
    let spf = SpfResult {
        domain: "b.example".to_string(),
        scope: "mfrom".to_string(),
        result: SpfVerdict::Neutral,
    };
    assert_eq!(format_spf(&spf), "b.example:neutral");
    let none = SpfResult { domain: "\t".to_string(), scope: String::new(), result: SpfVerdict::Pass };
    assert_eq!(format_spf(&none), "No SPF record");
    assert_eq!(format_dkim_list(&Vec::new()), "No DKIM signature");
    assert_eq!(
        format_dkim_list(&vec![dkim("a", "", DkimVerdict::Pass)]),
        "a:pass"
    );
    assert_eq!(
        format_dkim_list(&vec![
            dkim("a", "", DkimVerdict::Pass),
            dkim("", "", DkimVerdict::Pass),
            dkim("c", "k", DkimVerdict::Neutral),
        ]),
        "a:pass, No signature, c (selector: k): neutral"
    );
}

#[test]
fn backoff_doubles() {
    assert_eq!(backoff_secs(0), 0);
    assert_eq!(backoff_secs(1), 1);
    assert_eq!(backoff_secs(2), 2);
    assert_eq!(backoff_secs(3), 4);
    assert_eq!(backoff_secs(11), 1024);
    assert_eq!(backoff_secs(64), 1u64 << 63);
    assert_eq!(backoff_secs(65), u64::MAX);
    assert_eq!(backoff_secs(u32::MAX), u64::MAX);
}

#[test]
fn delivery_succeeds_after_a_retry() {
    let (delivery, action) = Delivery::new(3);
    assert!(matches!(action, Action::Send { delay_secs: 0 }));
    let refused = Response::Refused {
        status: "500 Internal Server Error".to_string(),
        body: "oops".to_string(),
    };
    let (delivery, action) = delivery.after(refused);
    assert!(matches!(action, Action::Send { delay_secs: 1 }));
    assert_eq!(delivery.failed, 1);
    assert_eq!(
        delivery.last_error,
        Some("HTTP 500 Internal Server Error - oops".to_string())
    );
    let (delivery, action) = delivery.after(Response::Success);
    assert!(matches!(action, Action::Delivered));
    assert_eq!(delivery.failed, 1);
}

#[test]
fn delivery_gives_up_after_the_last_retry() {
    let (mut delivery, _) = Delivery::new(3);
    let mut delays = Vec::new();
    let mut sent = 1;
    let message = loop {
        let (next, action) = delivery.after(Response::Broken("connection refused".to_string()));
        delivery = next;
        match action {
            Action::Send { delay_secs } => {
                delays.push(delay_secs);
                sent += 1;
            }
            Action::GiveUp(message) => break message,
            Action::Delivered => panic!("delivered"),
        }
    };
    assert_eq!(sent, 4);
    assert_eq!(delays, vec![1, 2, 4]);
    assert!(message.contains("failed after"));
    assert_eq!(
        message,
        "Webhook failed after 4 attempts: Some(\"connection refused\")"
    );
}

#[test]
fn delivery_reports_a_timeout() {
    let (delivery, _) = Delivery::new(1);
    let (delivery, action) = delivery.after(Response::TimedOut);
    assert!(matches!(action, Action::Send { delay_secs: 1 }));
    let (_, action) = delivery.after(Response::TimedOut);
    match action {
        Action::GiveUp(message) => {
            assert!(message.contains("timeout"));
            assert_eq!(message, "Webhook failed after 2 attempts: Some(\"timeout\")");
        }
        other => panic!("{:?}", other),
    }
    let (_, action) = Delivery::new(0).0.after(Response::TimedOut);
    assert!(matches!(action, Action::GiveUp(_)));
    let (_, action) = Delivery::new(u32::MAX).0.after(Response::TimedOut);
    assert!(matches!(action, Action::Send { delay_secs: 1 }));
}
