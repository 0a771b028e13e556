use huginn::config::{load, validate, Cli, Commands, Config, ScanArgs};

#[test]
fn test_default_config() {
    let config = Config::default();
    assert_eq!(config.targets.len(), 0);
    assert_eq!(config.scan_types, vec!["ping".to_string()]);
    assert_eq!(config.output_format, "text");
    assert_eq!(config.log_level, "info");
    assert_eq!(config.verbose, 0);
}

#[test]
fn test_validate_empty_targets() {
    let config = Config::default();
    let result = validate(&config);
    assert!(result.is_err());
    assert!(result.unwrap_err().message().contains("At least one target"));
}

#[test]
fn test_validate_invalid_scan_type() {
    let mut config = Config::default();
    config.targets = vec!["192.168.1.1".to_string()];
    config.scan_types = vec!["invalid_scan".to_string()];
    let result = validate(&config);
    assert!(result.is_err());
    assert!(result.unwrap_err().message().contains("Invalid scan type"));
}

#[test]
fn test_validate_valid_config() {
    let mut config = Config::default();
    config.targets = vec!["192.168.1.1".to_string()];
    config.scan_types = vec!["ping".to_string(), "tcp_connect".to_string()];
    let result = validate(&config);
    assert!(result.is_ok());
}

#[test]
fn test_validate_invalid_output_format() {
    let mut config = Config::default();
    config.targets = vec!["192.168.1.1".to_string()];
    config.output_format = "invalid".to_string();
    let result = validate(&config);
    assert!(result.is_err());
    assert!(result.unwrap_err().message().contains("Invalid output format"));
}

#[test]
fn test_validate_invalid_log_level() {
    let mut config = Config::default();
    config.targets = vec!["192.168.1.1".to_string()];
    config.log_level = "invalid".to_string();
    let result = validate(&config);
    assert!(result.is_err());
    assert!(result.unwrap_err().message().contains("Invalid log level"));
}

#[test]
fn test_validate_invalid_port() {
    let mut config = Config::default();
    config.targets = vec!["192.168.1.1".to_string()];
    config.port = Some(0);
    let result = validate(&config);
    assert!(result.is_err());
    assert!(result.unwrap_err().message().contains("Port must be between"));
}

#[test]
fn test_load_defaults_without_sources() {
    let cli = Cli {
        command: None,
        config: None,
        log_level: None,
        verbose: 0,
    };
    let result = load(&cli, None);
    // the default configuration has no targets, so validation rejects it
    assert!(result.is_err());
    assert!(result.unwrap_err().message().contains("At least one target"));
}

#[test]
fn test_load_scan_args_override_loaded() {
    let mut loaded = Config::default();
    loaded.targets = vec!["10.0.0.1".to_string()];
    loaded.scan_types = vec!["udp".to_string()];
    loaded.output_format = "json".to_string();
    let cli = Cli {
        command: Some(Commands::Scan(ScanArgs {
            target: vec!["192.168.1.1".to_string(), "192.168.1.2".to_string()],
            scan_type: " ping , tcp_connect ".to_string(),
            ports: None,
            output: None,
            format: "csv".to_string(),
        })),
        config: Some("other.json".to_string()),
        log_level: Some("debug".to_string()),
        verbose: 2,
    };
    let config = load(&cli, Some(loaded)).unwrap();
    assert_eq!(
        config.targets,
        vec!["192.168.1.1".to_string(), "192.168.1.2".to_string()]
    );
    assert_eq!(
        config.scan_types,
        vec!["ping".to_string(), "tcp_connect".to_string()]
    );
    assert_eq!(config.output_format, "csv");
    assert_eq!(config.log_level, "debug");
    assert_eq!(config.config_file, Some("other.json".to_string()));
    assert_eq!(config.verbose, 2);
}

#[test]
fn test_load_merges_loaded_config() {
    let mut loaded = Config::default();
    loaded.targets = vec!["10.0.0.1".to_string()];
    loaded.scan_types = vec!["udp".to_string()];
    loaded.log_level = "warn".to_string();
    let cli = Cli {
        command: None,
        config: None,
        log_level: None,
        verbose: 0,
    };
    let config = load(&cli, Some(loaded)).unwrap();
    assert_eq!(config.targets, vec!["10.0.0.1".to_string()]);
    assert_eq!(config.scan_types, vec!["udp".to_string()]);
    assert_eq!(config.log_level, "warn");
    assert_eq!(config.config_file, Some("config.json".to_string()));
}
