use huginn::formatters::{
    get_formatter, CsvFormatter, Formatter, JsonFormatter, OutputFormatter, TextFormatter,
};
use huginn::plugins::ScanResult;

fn create_test_results() -> Vec<ScanResult> {
    vec![
        ScanResult {
            target: "192.168.1.1".to_string(),
            scan_type: "ping".to_string(),
            status: "up".to_string(),
            details: Some("latency: 5ms".to_string()),
        },
        ScanResult {
            target: "192.168.1.1".to_string(),
            scan_type: "tcp_connect".to_string(),
            status: "open".to_string(),
            details: Some("port 80".to_string()),
        },
        ScanResult {
            target: "192.168.1.2".to_string(),
            scan_type: "ping".to_string(),
            status: "down".to_string(),
            details: None,
        },
    ]
}

#[test]
fn test_text_formatter() {
    let formatter = TextFormatter::new(false);
    let results = create_test_results();
    let output = formatter.format(&results).unwrap();

    assert!(output.contains("Scan Results"));
    assert!(output.contains("Total results: 3"));
    assert!(output.contains("192.168.1.1"));
    assert!(output.contains("192.168.1.2"));
    assert!(output.contains("ping"));
    assert!(output.contains("tcp_connect"));
}

#[test]
fn test_text_formatter_empty() {
    let formatter = TextFormatter::new(false);
    let results = vec![];
    let output = formatter.format(&results).unwrap();

    assert!(output.contains("No scan results"));
}

#[test]
fn test_json_formatter() {
    let formatter = JsonFormatter::new(true);
    let results = create_test_results();
    let output = formatter.format(&results).unwrap();

    assert!(output.contains("\"total_results\": 3"));
    assert!(output.contains("\"target\": \"192.168.1.1\""));
    assert!(output.contains("\"scan_type\": \"ping\""));
    assert!(output.contains("\"status\": \"up\""));
}

#[test]
fn test_csv_formatter() {
    let formatter = CsvFormatter::new();
    let results = create_test_results();
    let output = formatter.format(&results).unwrap();

    assert!(output.contains("target,scan_type,status,details"));
    assert!(output.contains("192.168.1.1,ping,up,latency: 5ms"));
    assert!(output.contains("192.168.1.2,ping,down,"));
}

#[test]
fn test_get_formatter() {
    let _ = get_formatter("text", false);
    let _ = get_formatter("json", false);
    let _ = get_formatter("csv", false);
    let _ = get_formatter("unknown", false);
}

#[test]
fn test_csv_escape_commas() {
    let formatter = CsvFormatter::new();
    let results = vec![ScanResult {
        target: "test.com".to_string(),
        scan_type: "test".to_string(),
        status: "ok".to_string(),
        details: Some("data,with,commas".to_string()),
    }];
    let output = formatter.format(&results).unwrap();

    // Commas should be replaced with semicolons
    assert!(output.contains("data;with;commas"));
}

#[test]
fn test_csv_escape_newlines() {
    let formatter = CsvFormatter::new();
    let results = vec![ScanResult {
        target: "test.com".to_string(),
        scan_type: "test".to_string(),
        status: "ok".to_string(),
        details: Some("line one\nline two".to_string()),
    }];
    let output = formatter.format(&results).unwrap();

    assert!(output.contains("line one line two"));
}

#[test]
fn test_rendering_idempotent() {
    let results = create_test_results();
    let text = TextFormatter::new(false);
    assert_eq!(text.format(&results).unwrap(), text.format(&results).unwrap());
    let colored = TextFormatter::new(true);
    assert_eq!(
        colored.format(&results).unwrap(),
        colored.format(&results).unwrap()
    );
    let json_pretty = JsonFormatter::new(true);
    assert_eq!(
        json_pretty.format(&results).unwrap(),
        json_pretty.format(&results).unwrap()
    );
    let json_compact = JsonFormatter::new(false);
    assert_eq!(
        json_compact.format(&results).unwrap(),
        json_compact.format(&results).unwrap()
    );
    let csv = CsvFormatter::new();
    assert_eq!(csv.format(&results).unwrap(), csv.format(&results).unwrap());
}

#[test]
fn test_text_empty_render_exact() {
    let formatter = TextFormatter::new(false);
    let output = formatter.format(&vec![]).unwrap();
    assert_eq!(output, "No scan results\n");
    let colored = TextFormatter::new(true);
    let output = colored.format(&vec![]).unwrap();
    assert_eq!(output, "No scan results\n");
}

#[test]
fn test_json_round_trip() {
    let formatter = JsonFormatter::new(true);
    let results = create_test_results();
    let output = formatter.format(&results).unwrap();

    let value: serde_json::Value = serde_json::from_str(&output).unwrap();
    assert_eq!(value.get("total_results").unwrap().as_u64(), Some(3));
    let parsed = value.get("results").unwrap().as_array().unwrap();
    assert_eq!(parsed.len(), 3);
    for (rec, orig) in parsed.iter().zip(results.iter()) {
        assert_eq!(rec.get("target").unwrap().as_str(), Some(orig.target.as_str()));
        assert_eq!(
            rec.get("scan_type").unwrap().as_str(),
            Some(orig.scan_type.as_str())
        );
        assert_eq!(rec.get("status").unwrap().as_str(), Some(orig.status.as_str()));
        match &orig.details {
            Some(d) => assert_eq!(rec.get("details").unwrap().as_str(), Some(d.as_str())),
            None => {
                // a record without details serializes without a details string
                assert!(rec.get("details").unwrap().is_null());
                assert_eq!(rec.get("details").unwrap().as_str(), None);
            }
        }
    }

    // the compact mode round-trips to the same values
    let compact = JsonFormatter::new(false);
    let output2 = compact.format(&results).unwrap();
    let value2: serde_json::Value = serde_json::from_str(&output2).unwrap();
    assert_eq!(value, value2);
}

#[test]
fn test_json_escaping_round_trip() {
    let formatter = JsonFormatter::new(false);
    let results = vec![ScanResult {
        target: "a\"b\\c".to_string(),
        scan_type: "t".to_string(),
        status: "s\n".to_string(),
        details: Some("tab\there\u{1}".to_string()),
    }];
    let output = formatter.format(&results).unwrap();
    let value: serde_json::Value = serde_json::from_str(&output).unwrap();
    let rec = &value.get("results").unwrap().as_array().unwrap()[0];
    assert_eq!(rec.get("target").unwrap().as_str(), Some("a\"b\\c"));
    assert_eq!(rec.get("status").unwrap().as_str(), Some("s\n"));
    assert_eq!(rec.get("details").unwrap().as_str(), Some("tab\there\u{1}"));
}

#[test]
fn test_get_formatter_selects_by_name() {
    let results = create_test_results();
    let csv = get_formatter("csv", false);
    assert!(csv.format(&results).unwrap().starts_with("target,scan_type,status,details\n"));
    let json = get_formatter("json", false);
    assert!(json.format(&results).unwrap().starts_with("{\n  \"total_results\": 3"));
    let text = get_formatter("text", false);
    assert!(text.format(&results).unwrap().starts_with("Scan Results\n"));
    let fallback = get_formatter("unknown", false);
    assert_eq!(
        fallback.format(&results).unwrap(),
        text.format(&results).unwrap()
    );
}

#[test]
fn test_text_grouping_contiguous_runs() {
    let formatter = TextFormatter::new(false);
    let results = create_test_results();
    let output = formatter.format(&results).unwrap();
    assert_eq!(
        output,
        "Scan Results\nTotal results: 3\n\n\
         \nTarget: 192.168.1.1\n  [ping] up\n    latency: 5ms\n  [tcp_connect] open\n    port 80\n\
         \nTarget: 192.168.1.2\n  [ping] down\n"
    );
}

#[test]
fn test_text_header_for_empty_first_target() {
    // the first contiguous run gets its sub-header even for an empty target
    let formatter = TextFormatter::new(false);
    let results = vec![ScanResult {
        target: "".to_string(),
        scan_type: "ping".to_string(),
        status: "up".to_string(),
        details: None,
    }];
    let output = formatter.format(&results).unwrap();
    assert_eq!(
        output,
        "Scan Results\nTotal results: 1\n\n\nTarget: \n  [ping] up\n"
    );
}

#[test]
fn test_colored_text_contains_values() {
    let formatter = TextFormatter::new(true);
    let results = create_test_results();
    let output = formatter.format(&results).unwrap();
    assert!(output.contains("192.168.1.1"));
    assert!(output.contains("up"));
    assert!(output.contains("Total results:"));
}

#[test]
fn test_formatter_enum_matches_direct_renderers() {
    let results = create_test_results();
    let via_enum = Formatter::Csv(CsvFormatter::new()).format(&results).unwrap();
    let direct = CsvFormatter::new().format(&results).unwrap();
    assert_eq!(via_enum, direct);
}
