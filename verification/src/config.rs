//! Configuration model for the scanner.
//!
//! A `Config` is assembled by `load` from defaults, an optional
//! externally-loaded configuration and command-line arguments, in that order
//! of precedence, and then checked by `validate`. Reading configuration files
//! or the environment is the caller's concern: `load` only merges and
//! validates plain values.

use crate::strutil::{split_commas, split_trim, str_equal, trim_all};
use vstd::string::StringExecFns;
use vstd::prelude::*;

verus! {

/// Main configuration for a scan run.
#[derive(Clone, Debug)]
pub struct Config {
    /// Target hosts to scan.
    pub targets: Vec<String>,
    /// Enabled scan types.
    pub scan_types: Vec<String>,
    /// Optional server port for daemon mode.
    pub port: Option<u16>,
    /// Output format: json, text, or csv.
    pub output_format: String,
    /// Log level: debug, info, warn, error.
    pub log_level: String,
    /// Optional output file path.
    pub output_file: Option<String>,
    /// Configuration file path.
    pub config_file: Option<String>,
    /// Verbosity level.
    pub verbose: u8,
}

impl Default for Config {
    /// An empty target list, a single "ping" scan type, text output at the
    /// "info" log level.
    fn default() -> (c: Config)
        ensures
            c.targets@.len() == 0,
            c.scan_types.deep_view() == seq!["ping"@],
            c.port is None,
            c.output_format@ == "text"@,
            c.log_level@ == "info"@,
            c.output_file is None,
            c.config_file is None,
            c.verbose == 0,
    {
        let mut scan_types: Vec<String> = Vec::new();
        scan_types.push("ping".to_owned());
        proof {
            assert(scan_types.deep_view() =~= seq!["ping"@]);
        }
        Config {
            targets: Vec::new(),
            scan_types,
            port: None,
            output_format: "text".to_owned(),
            log_level: "info".to_owned(),
            output_file: None,
            config_file: None,
            verbose: 0,
        }
    }
}

/// Command-line arguments, already parsed into plain values.
pub struct Cli {
    /// Selected subcommand.
    pub command: Option<Commands>,
    /// Configuration file path.
    pub config: Option<String>,
    /// Log level override.
    pub log_level: Option<String>,
    /// Verbosity level.
    pub verbose: u8,
}

/// Available subcommands.
pub enum Commands {
    /// Perform scanning operations.
    Scan(ScanArgs),
    /// Show version information.
    Version,
}

/// Arguments of the scan subcommand.
pub struct ScanArgs {
    /// Target hosts to scan.
    pub target: Vec<String>,
    /// Comma-separated scan types.
    pub scan_type: String,
    /// Port specification.
    pub ports: Option<String>,
    /// Output file path.
    pub output: Option<String>,
    /// Output format name.
    pub format: String,
}

/// A configuration error, carrying a human-readable message.
#[derive(Debug)]
pub struct ConfigError {
    message: String,
}

impl View for ConfigError {
    type V = Seq<char>;

    closed spec fn view(&self) -> Seq<char> {
        self.message@
    }
}

impl ConfigError {
    /// The error message.
    pub fn message(&self) -> (m: &str)
        ensures
            m@ == self@,
    {
        self.message.as_str()
    }
}

/// The recognised scan type names.
pub open spec fn valid_scan_type(t: Seq<char>) -> bool {
    t == "ping"@ || t == "tcp_connect"@ || t == "tcp_syn"@ || t == "udp"@
}

/// The recognised output format names.
pub open spec fn valid_output_format(f: Seq<char>) -> bool {
    f == "text"@ || f == "json"@ || f == "csv"@
}

/// The recognised log level names.
pub open spec fn valid_log_level(l: Seq<char>) -> bool {
    l == "debug"@ || l == "info"@ || l == "warn"@ || l == "error"@
}

/// A semantically acceptable set of configuration fields: at least one
/// target, only known scan types, a known output format and log level, and
/// no zero port.
pub open spec fn fields_valid(
    targets: Seq<Seq<char>>,
    scan_types: Seq<Seq<char>>,
    port: Option<u16>,
    format: Seq<char>,
    level: Seq<char>,
) -> bool {
    &&& targets.len() > 0
    &&& forall|i: int| 0 <= i < scan_types.len() ==> valid_scan_type(#[trigger] scan_types[i])
    &&& valid_output_format(format)
    &&& valid_log_level(level)
    &&& port != Some(0u16)
}

/// A semantically acceptable configuration.
pub open spec fn config_valid(c: Config) -> bool {
    fields_valid(
        c.targets.deep_view(),
        c.scan_types.deep_view(),
        c.port,
        c.output_format@,
        c.log_level@,
    )
}

/// The position of the first unknown scan type, or -1 when all are known.
pub open spec fn first_invalid_scan_type(ts: Seq<Seq<char>>) -> int
    decreases ts.len(),
{
    if ts.len() == 0 {
        -1
    } else if !valid_scan_type(ts[0]) {
        0
    } else {
        let r = first_invalid_scan_type(ts.skip(1));
        if r < 0 {
            -1
        } else {
            r + 1
        }
    }
}

proof fn lemma_first_invalid_at(ts: Seq<Seq<char>>, m: int)
    requires
        0 <= m <= ts.len(),
        forall|k: int| 0 <= k < m ==> valid_scan_type(#[trigger] ts[k]),
        m < ts.len() ==> !valid_scan_type(ts[m]),
    ensures
        m == ts.len() ==> first_invalid_scan_type(ts) == -1,
        m < ts.len() ==> first_invalid_scan_type(ts) == m,
    decreases m,
{
    if m > 0 {
        lemma_first_invalid_at(ts.skip(1), m - 1);
    }
}

/// The message reported for an unknown scan type.
pub open spec fn msg_invalid_scan_type(t: Seq<char>) -> Seq<char> {
    "Invalid scan type '"@ + t + "'. Valid types: ping, tcp_connect, tcp_syn, udp"@
}

/// The message reported for an unknown output format.
pub open spec fn msg_invalid_output_format(f: Seq<char>) -> Seq<char> {
    "Invalid output format '"@ + f + "'. Valid formats: text, json, csv"@
}

/// The message reported for an unknown log level.
pub open spec fn msg_invalid_log_level(l: Seq<char>) -> Seq<char> {
    "Invalid log level '"@ + l + "'. Valid levels: debug, info, warn, error"@
}

/// The message reported for an invalid set of fields: the checks run in
/// order, and the first to fail names the error.
pub open spec fn fields_err_msg(
    targets: Seq<Seq<char>>,
    scan_types: Seq<Seq<char>>,
    format: Seq<char>,
    level: Seq<char>,
) -> Seq<char> {
    if targets.len() == 0 {
        "At least one target must be specified"@
    } else if first_invalid_scan_type(scan_types) >= 0 {
        msg_invalid_scan_type(scan_types[first_invalid_scan_type(scan_types)])
    } else if !valid_output_format(format) {
        msg_invalid_output_format(format)
    } else if !valid_log_level(level) {
        msg_invalid_log_level(level)
    } else {
        "Port must be between 1 and 65535"@
    }
}

/// The message `validate` reports for an invalid configuration.
pub open spec fn validate_err_msg(c: Config) -> Seq<char> {
    fields_err_msg(c.targets.deep_view(), c.scan_types.deep_view(), c.output_format@, c.log_level@)
}

fn is_valid_scan_type(t: &str) -> (r: bool)
    ensures
        r == valid_scan_type(t@),
{
    str_equal(t, "ping") || str_equal(t, "tcp_connect") || str_equal(t, "tcp_syn") || str_equal(
        t,
        "udp",
    )
}

fn is_valid_output_format(f: &str) -> (r: bool)
    ensures
        r == valid_output_format(f@),
{
    str_equal(f, "text") || str_equal(f, "json") || str_equal(f, "csv")
}

fn is_valid_log_level(l: &str) -> (r: bool)
    ensures
        r == valid_log_level(l@),
{
    str_equal(l, "debug") || str_equal(l, "info") || str_equal(l, "warn") || str_equal(l, "error")
}

/// Checks a configuration for semantic correctness: succeeds exactly on
/// valid configurations, and otherwise reports the first failing check.
pub fn validate(config: &Config) -> (r: Result<(), ConfigError>)
    ensures
        r is Ok <==> config_valid(*config),
        r matches Err(e) ==> e@ == validate_err_msg(*config),
{
    if config.targets.len() == 0 {
        return Err(
            ConfigError { message: "At least one target must be specified".to_owned() },
        );
    }
    let n = config.scan_types.len();
    let mut i: usize = 0;
    while i < n
        invariant
            0 <= i <= n,
            n == config.scan_types@.len(),
            config.targets@.len() > 0,
            forall|k: int| 0 <= k < i ==> valid_scan_type(#[trigger] config.scan_types.deep_view()[k]),
        decreases n - i,
    {
        let t = &config.scan_types[i];
        if !is_valid_scan_type(t.as_str()) {
            let mut message = "Invalid scan type '".to_owned();
            message.append(t.as_str());
            message.append("'. Valid types: ping, tcp_connect, tcp_syn, udp");
            proof {
                lemma_first_invalid_at(config.scan_types.deep_view(), i as int);
                assert(config.targets.deep_view().len() == config.targets@.len());
                assert(first_invalid_scan_type(config.scan_types.deep_view()) == i as int);
                assert(message@ == msg_invalid_scan_type(config.scan_types.deep_view()[i as int]));
                assert(validate_err_msg(*config) == msg_invalid_scan_type(
                    config.scan_types.deep_view()[i as int],
                ));
            }
            return Err(ConfigError { message });
        }
        i = i + 1;
    }
    proof {
        lemma_first_invalid_at(config.scan_types.deep_view(), n as int);
    }
    if !is_valid_output_format(config.output_format.as_str()) {
        let mut message = "Invalid output format '".to_owned();
        message.append(config.output_format.as_str());
        message.append("'. Valid formats: text, json, csv");
        return Err(ConfigError { message });
    }
    if !is_valid_log_level(config.log_level.as_str()) {
        let mut message = "Invalid log level '".to_owned();
        message.append(config.log_level.as_str());
        message.append("'. Valid levels: debug, info, warn, error");
        return Err(ConfigError { message });
    }
    match config.port {
        Some(p) if p == 0 => Err(
            ConfigError { message: "Port must be between 1 and 65535".to_owned() },
        ),
        _ => Ok(()),
    }
}

/// The target list the merge produces before validation.
pub open spec fn merged_targets(cli: Cli, loaded: Option<Config>) -> Seq<Seq<char>> {
    match cli.command {
        Some(Commands::Scan(args)) => args.target.deep_view(),
        _ => match loaded {
            Some(l) => if l.targets@.len() > 0 {
                l.targets.deep_view()
            } else {
                Seq::empty()
            },
            None => Seq::empty(),
        },
    }
}

/// The scan-type list the merge produces before validation.
pub open spec fn merged_scan_types(cli: Cli, loaded: Option<Config>) -> Seq<Seq<char>> {
    match cli.command {
        Some(Commands::Scan(args)) => trim_all(split_commas(args.scan_type@)),
        _ => match loaded {
            Some(l) => if l.scan_types@.len() > 0 {
                l.scan_types.deep_view()
            } else {
                seq!["ping"@]
            },
            None => seq!["ping"@],
        },
    }
}

/// The port the merge produces before validation.
pub open spec fn merged_port(loaded: Option<Config>) -> Option<u16> {
    match loaded {
        Some(l) => l.port,
        None => None,
    }
}

/// The output format the merge produces before validation.
pub open spec fn merged_output_format(cli: Cli, loaded: Option<Config>) -> Seq<char> {
    match cli.command {
        Some(Commands::Scan(args)) => args.format@,
        _ => match loaded {
            Some(l) => l.output_format@,
            None => "text"@,
        },
    }
}

/// The log level the merge produces before validation.
pub open spec fn merged_log_level(cli: Cli, loaded: Option<Config>) -> Seq<char> {
    match cli.log_level {
        Some(l) => l@,
        None => match loaded {
            Some(l) => l.log_level@,
            None => "info"@,
        },
    }
}

/// The output file the merge produces.
pub open spec fn merged_output_file(cli: Cli) -> Option<Seq<char>> {
    match cli.command {
        Some(Commands::Scan(args)) => args.output.deep_view(),
        _ => None,
    }
}

/// The configuration file path the merge records.
pub open spec fn merged_config_file(cli: Cli) -> Seq<char> {
    match cli.config {
        Some(p) => p@,
        None => "config.json"@,
    }
}

/// Whether the merge of the given inputs passes validation.
pub open spec fn merged_valid(cli: Cli, loaded: Option<Config>) -> bool {
    fields_valid(
        merged_targets(cli, loaded),
        merged_scan_types(cli, loaded),
        merged_port(loaded),
        merged_output_format(cli, loaded),
        merged_log_level(cli, loaded),
    )
}

/// Merges defaults, an externally loaded configuration and command-line
/// arguments, in rising order of precedence, then validates the result.
///
/// `loaded` is what the configuration-file and environment collaborator
/// produced, if anything; targets and scan types from it are taken only when
/// non-empty. Scan-subcommand arguments override everything; its scan types
/// are given comma-separated and are split and trimmed here.
pub fn load(cli: &Cli, loaded: Option<Config>) -> (r: Result<Config, ConfigError>)
    ensures
        r is Ok <==> merged_valid(*cli, loaded),
        r matches Ok(c) ==> {
            &&& c.targets.deep_view() == merged_targets(*cli, loaded)
            &&& c.scan_types.deep_view() == merged_scan_types(*cli, loaded)
            &&& c.port == merged_port(loaded)
            &&& c.output_format@ == merged_output_format(*cli, loaded)
            &&& c.log_level@ == merged_log_level(*cli, loaded)
            &&& c.output_file.deep_view() == merged_output_file(*cli)
            &&& c.config_file.deep_view() == Some(merged_config_file(*cli))
            &&& c.verbose == cli.verbose
            &&& config_valid(c)
        },
        r matches Err(e) ==> e@ == fields_err_msg(
            merged_targets(*cli, loaded),
            merged_scan_types(*cli, loaded),
            merged_output_format(*cli, loaded),
            merged_log_level(*cli, loaded),
        ),
{
    let mut config = Config::default();

    let config_file = match &cli.config {
        Some(p) => p.clone(),
        None => "config.json".to_owned(),
    };

    match loaded {
        Some(l) => {
            if l.targets.len() > 0 {
                config.targets = l.targets;
            }
            if l.scan_types.len() > 0 {
                config.scan_types = l.scan_types;
            }
            config.port = l.port;
            config.output_format = l.output_format;
            config.log_level = l.log_level;
        },
        None => {},
    }

    match &cli.log_level {
        Some(l) => {
            config.log_level = l.clone();
        },
        None => {},
    }
    config.config_file = Some(config_file);
    config.verbose = cli.verbose;

    match &cli.command {
        Some(Commands::Scan(scan_args)) => {
            let cloned_targets = scan_args.target.clone();
            proof {
                crate::strutil::lemma_cloned_string_seq(scan_args.target@, cloned_targets@);
            }
            config.targets = cloned_targets;
            config.scan_types = split_trim(scan_args.scan_type.as_str());
            config.output_format = scan_args.format.clone();
            config.output_file = match &scan_args.output {
                Some(o) => Some(o.clone()),
                None => None,
            };
        },
        _ => {},
    }

    proof {
        assert(config.targets.deep_view() =~= merged_targets(*cli, loaded));
        assert(config.scan_types.deep_view() =~= merged_scan_types(*cli, loaded));
    }

    match validate(&config) {
        Ok(()) => Ok(config),
        Err(e) => Err(e),
    }
}

} // verus!
