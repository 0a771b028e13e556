use huginn::config::Config;
use huginn::formatters::{CsvFormatter, OutputFormatter, TextFormatter};
use huginn::plugins::{ping::PingScanPlugin, Plugin, PluginKind, ScanError, ScanResult};
use huginn::scanner::Scanner;

#[test]
fn test_scanner_creation() {
    let config = Config::default();
    let scanner: Scanner<PluginKind> = Scanner::new(config);
    assert_eq!(scanner.plugin_count(), 0);
}

/// A probe that reports one "up" record per call.
struct UpProbe;

impl Plugin for UpProbe {
    fn tag(&self) -> vstd::seq::Seq<char> {
        panic!()
    }

    fn name(&self) -> String {
        "Always Up".to_string()
    }

    fn scan_type(&self) -> String {
        "ping".to_string()
    }

    fn scan(&self, target: &str) -> Result<Vec<ScanResult>, ScanError> {
        Ok(vec![ScanResult {
            target: target.to_string(),
            scan_type: "ping".to_string(),
            status: "up".to_string(),
            details: None,
        }])
    }
}

/// A probe that always fails.
struct FailingProbe;

impl Plugin for FailingProbe {
    fn tag(&self) -> vstd::seq::Seq<char> {
        panic!()
    }

    fn name(&self) -> String {
        "Always Failing".to_string()
    }

    fn scan_type(&self) -> String {
        "ping".to_string()
    }

    fn scan(&self, _target: &str) -> Result<Vec<ScanResult>, ScanError> {
        Err(ScanError {
            message: "transient network failure".to_string(),
        })
    }
}

fn two_target_ping_config() -> Config {
    let mut config = Config::default();
    config.targets = vec!["192.168.1.1".to_string(), "192.168.1.2".to_string()];
    config.scan_types = vec!["ping".to_string()];
    // verbosity off: the run drives its progress bar
    config.verbose = 0;
    config
}

#[test]
fn test_run_end_to_end_two_targets() {
    let mut scanner: Scanner<UpProbe> = Scanner::new(two_target_ping_config());
    scanner.register_plugin(UpProbe);
    let report = scanner.run().unwrap();

    assert_eq!(report.results.len(), 2);
    assert_eq!(report.ticks, 2);
    assert_eq!(report.results[0].target, "192.168.1.1");
    assert_eq!(report.results[1].target, "192.168.1.2");
    assert!(report.results.iter().all(|r| r.status == "up"));
    assert!(report.results.iter().all(|r| r.details.is_none()));

    let output = CsvFormatter::new().format(&report.results).unwrap();
    assert_eq!(
        output,
        "target,scan_type,status,details\n\
         192.168.1.1,ping,up,\n\
         192.168.1.2,ping,up,\n"
    );
}

#[test]
fn test_run_empty_targets() {
    let mut config = Config::default();
    config.targets = vec![];
    config.scan_types = vec!["ping".to_string()];
    let mut scanner: Scanner<UpProbe> = Scanner::new(config);
    scanner.register_plugin(UpProbe);
    let report = scanner.run().unwrap();

    assert_eq!(report.results.len(), 0);
    assert_eq!(report.ticks, 0);
    let output = TextFormatter::new(false).format(&report.results).unwrap();
    assert_eq!(output, "No scan results\n");
}

#[test]
fn test_run_tolerates_probe_failure() {
    let mut scanner: Scanner<FailingProbe> = Scanner::new(two_target_ping_config());
    scanner.register_plugin(FailingProbe);
    let report = scanner.run().unwrap();

    // every invocation failed, yet the run completed: zero records, full ticks
    assert_eq!(report.results.len(), 0);
    assert_eq!(report.ticks, 2);
}

#[test]
fn test_run_ticks_count_enabled_pairs() {
    let mut config = Config::default();
    config.targets = vec![
        "a".to_string(),
        "b".to_string(),
        "c".to_string(),
    ];
    config.scan_types = vec!["ping".to_string(), "udp".to_string()];
    config.verbose = 1;
    let mut scanner: Scanner<PluginKind> = Scanner::new(config);
    scanner.register_plugin(PluginKind::Ping(PingScanPlugin));
    scanner.register_plugin(PluginKind::TcpConnect(
        huginn::plugins::tcp_connect::TcpConnectScanPlugin,
    ));
    scanner.register_plugin(PluginKind::Udp(huginn::plugins::udp::UdpScanPlugin));
    let report = scanner.run().unwrap();

    // 3 targets x 2 enabled registered probes (ping, udp); tcp_connect is
    // registered but not enabled
    assert_eq!(report.ticks, 6);
    assert_eq!(report.results.len(), 6);
    assert!(report
        .results
        .iter()
        .all(|r| r.scan_type == "ping" || r.scan_type == "udp"));
}

#[test]
fn test_registered_plugin_placeholder_scan() {
    let plugin = PingScanPlugin;
    assert_eq!(plugin.scan_type(), "ping");
    assert_eq!(plugin.name(), "Ping Scanner");
    let results = plugin.scan("10.0.0.1").unwrap();
    assert_eq!(results.len(), 1);
    assert_eq!(results[0].target, "10.0.0.1");
    assert_eq!(results[0].scan_type, "ping");
    assert_eq!(results[0].status, "not_implemented");
    assert_eq!(
        results[0].details,
        Some("Ping scan not yet implemented".to_string())
    );
}
